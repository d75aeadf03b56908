//! What the report columns show, apart from the arithmetic in floating point.

use vstd::prelude::*;

use crate::constant::{GB, G_BITS_PER_SEC, KB, MB, M_BITS_PER_SEC, TB, T_BITS_PER_SEC};
use crate::message::StreamStats;

verus! {

/// The unit a byte count is shown in.
#[derive(Debug, Clone, Copy, PartialEq, Eq, Structural)]
pub enum ByteUnit {
    Bytes,
    KBytes,
    MBytes,
    GBytes,
    TBytes,
}

/// The unit a bitrate is shown in.
#[derive(Debug, Clone, Copy, PartialEq, Eq, Structural)]
pub enum BitrateUnit {
    Bits,
    Kbits,
    Mbits,
    Gbits,
    Tbits,
}

/// What the index column of a stats row shows.
#[derive(Debug, Clone, Copy, PartialEq, Eq, Structural)]
pub enum IndexColumn {
    /// The row sums up the whole test.
    Total,
    /// The row reports the interval with this index.
    Interval(usize),
}

/// The largest unit that `bytes` reaches.
pub fn byte_unit(bytes: usize) -> (unit: ByteUnit)
    ensures
        unit == (if bytes < KB {
            ByteUnit::Bytes
        } else if bytes < MB {
            ByteUnit::KBytes
        } else if bytes < GB {
            ByteUnit::MBytes
        } else if bytes < TB {
            ByteUnit::GBytes
        } else {
            ByteUnit::TBytes
        }),
{
    let b = bytes as u64;
    if b < KB {
        ByteUnit::Bytes
    } else if b < MB {
        ByteUnit::KBytes
    } else if b < GB {
        ByteUnit::MBytes
    } else if b < TB {
        ByteUnit::GBytes
    } else {
        ByteUnit::TBytes
    }
}

/// The number of bits in `bytes` bytes.
pub fn bits_of(bytes: usize) -> (bits: usize)
    requires
        bytes * 8 <= usize::MAX,
    ensures
        bits == bytes * 8,
{
    bytes * 8
}

/// The unit of a bitrate: bits per second below one kilobit per second;
/// above, the unit follows the byte count of the transfer.
pub fn bitrate_unit(bytes: usize, below_one_kilobit: bool) -> (unit: BitrateUnit)
    ensures
        unit == (if below_one_kilobit {
            BitrateUnit::Bits
        } else if bytes < M_BITS_PER_SEC {
            BitrateUnit::Kbits
        } else if bytes < G_BITS_PER_SEC {
            BitrateUnit::Mbits
        } else if bytes < T_BITS_PER_SEC {
            BitrateUnit::Gbits
        } else {
            BitrateUnit::Tbits
        }),
{
    let b = bytes as u64;
    if below_one_kilobit {
        BitrateUnit::Bits
    } else if b < M_BITS_PER_SEC {
        BitrateUnit::Kbits
    } else if b < G_BITS_PER_SEC {
        BitrateUnit::Mbits
    } else if b < T_BITS_PER_SEC {
        BitrateUnit::Gbits
    } else {
        BitrateUnit::Tbits
    }
}

/// The index column of a stats row: `TOTAL` for a summary, else the interval
/// index (0 when there is none).
pub fn index_column(stats: &StreamStats) -> (column: IndexColumn)
    ensures
        column == (if stats.is_summary {
            IndexColumn::Total
        } else {
            IndexColumn::Interval(match stats.index {
                Some(i) => i,
                None => 0,
            })
        }),
{
    if stats.is_summary {
        IndexColumn::Total
    } else {
        match stats.index {
            Some(i) => IndexColumn::Interval(i),
            None => IndexColumn::Interval(0),
        }
    }
}

} // verus!
