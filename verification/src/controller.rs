//! Decisions of the test controller.
//!
//! The controller drives one test: it reacts to the shared test state, creates or
//! accepts the data streams, keeps track of the stream workers and collects their
//! results. This module holds its bookkeeping and every decision it takes; the
//! caller performs the I/O that a decision asks for.

use std::collections::HashMap;

use vstd::prelude::*;

use crate::error::Error;
use crate::message::{
    ClientMessage, Direction, Role, ServerMessage, State, StateView, StreamStats,
};
use crate::perf::{stream_counts, Perf};

verus! {

broadcast use {vstd::std_specs::hash::group_hash_axioms, vstd::seq_lib::group_seq_properties};

/// What other components tell the controller.
#[derive(Debug)]
pub enum ControllerMessage<Stream> {
    /// Asks the controller to create a new stream using this socket.
    CreateStream(Stream),
    /// The worker with this id has finished.
    StreamTerminated(usize),
    /// Asks the controller to end the test.
    Terminate,
}

/// What the controller does for the state the test is in.
#[derive(Debug)]
pub enum ControllerStep {
    /// Move the test to this state (and tell the peer), then look at the state again.
    Announce(State),
    /// Connect the data streams to the server.
    CreateStreams,
    /// Tell the workers to start the load.
    StartLoad,
    /// Stop the workers, exchange results with the peer, report all results, finish.
    ExchangeResults,
    /// Stop the workers, report the local results, finish.
    Terminate,
    /// Nothing to do: wait for the next event.
    Idle,
}

/// A `ControllerStep` with its state by view.
pub enum ControllerStepView {
    Announce(StateView),
    CreateStreams,
    StartLoad,
    ExchangeResults,
    Terminate,
    Idle,
}

impl View for ControllerStep {
    type V = ControllerStepView;

    open spec fn view(&self) -> ControllerStepView {
        match self {
            ControllerStep::Announce(s) => ControllerStepView::Announce(s@),
            ControllerStep::CreateStreams => ControllerStepView::CreateStreams,
            ControllerStep::StartLoad => ControllerStepView::StartLoad,
            ControllerStep::ExchangeResults => ControllerStepView::ExchangeResults,
            ControllerStep::Terminate => ControllerStepView::Terminate,
            ControllerStep::Idle => ControllerStepView::Idle,
        }
    }
}

/// The step for `state`, seen by `role` holding `cookie`, when the state seen
/// before was `previous`.
pub open spec fn next_step(
    role: Role,
    cookie: Seq<char>,
    state: StateView,
    previous: StateView,
) -> ControllerStepView {
    match state {
        StateView::Start => if role == Role::Server {
            ControllerStepView::Announce(StateView::CreateStreams { cookie })
        } else {
            ControllerStepView::Idle
        },
        StateView::CreateStreams { .. } => if role == Role::Client {
            ControllerStepView::CreateStreams
        } else {
            ControllerStepView::Idle
        },
        StateView::Running => if previous is Running {
            ControllerStepView::Idle
        } else {
            ControllerStepView::StartLoad
        },
        StateView::ExchangeResults => ControllerStepView::ExchangeResults,
        StateView::Terminate => ControllerStepView::Terminate,
    }
}

/// The state last acted on after `step` for `state`: unchanged when the step
/// announces a new state or ends the controller, `state` otherwise.
pub open spec fn previous_after(step: ControllerStepView, state: StateView, previous: StateView) -> StateView {
    match step {
        ControllerStepView::Announce(_) => previous,
        ControllerStepView::ExchangeResults => previous,
        ControllerStepView::Terminate => previous,
        _ => state,
    }
}

/// The load starts once per entry into `Running`: once the controller has
/// acted on `Running`, acting on `Running` again does nothing.
pub proof fn lemma_load_starts_once(role: Role, cookie: Seq<char>, previous: StateView)
    ensures
        next_step(role, cookie, StateView::Running, previous_after(
            next_step(role, cookie, StateView::Running, previous),
            StateView::Running,
            previous,
        )) is Idle,
{
}

/// A server never moves the test on from `CreateStreams` by itself: whatever
/// state it acted on before, it only waits for the data streams there; the
/// test moves to `Running` only when `accept_stream` has all the streams.
pub proof fn lemma_server_waits_for_streams(cookie: Seq<char>, c: Seq<char>, previous: StateView)
    ensures
        next_step(Role::Server, cookie, StateView::CreateStreams { cookie: c }, previous)
            == ControllerStepView::Idle,
{
}

/// The client sends exactly on its first `num_send_streams` streams, whatever
/// the direction; a server does the same in a one-way test and the opposite
/// in a bidirectional test.
pub proof fn lemma_sending_streams(direction: Direction, num_send_streams: u16, index: u16)
    ensures
        stream_sends(Role::Client, direction, num_send_streams, index) == (index < num_send_streams),
        direction != Direction::Bidirectional ==> stream_sends(Role::Server, direction, num_send_streams, index)
            == (index < num_send_streams),
        direction == Direction::Bidirectional ==> stream_sends(Role::Server, direction, num_send_streams, index)
            == (index >= num_send_streams),
{
}

/// In a one-way client-to-server test every client stream sends and every
/// server stream receives; in a server-to-client test the other way round.
pub proof fn lemma_one_way_directions(parallel: u16, index: u16)
    requires
        index < parallel,
    ensures
        stream_sends(Role::Client, Direction::ClientToServer, stream_counts(Direction::ClientToServer, parallel, Role::Client).0, index),
        !stream_sends(Role::Server, Direction::ClientToServer, stream_counts(Direction::ClientToServer, parallel, Role::Server).0, index),
        !stream_sends(Role::Client, Direction::ServerToClient, stream_counts(Direction::ServerToClient, parallel, Role::Client).0, index),
        stream_sends(Role::Server, Direction::ServerToClient, stream_counts(Direction::ServerToClient, parallel, Role::Server).0, index),
{
}

/// A side needs its sending plus its receiving streams: `parallel` streams in
/// a one-way test, twice that in a bidirectional one, on either side.
pub proof fn lemma_needed_streams(perf: Perf)
    requires
        (perf.num_send_streams, perf.num_receive_streams) == stream_counts(
            perf.params.direction,
            perf.params.parallel,
            perf.role,
        ),
    ensures
        needed_streams(perf) == perf.num_send_streams as int + perf.num_receive_streams as int,
        perf.params.direction != Direction::Bidirectional ==> needed_streams(perf) == perf.params.parallel as int,
        perf.params.direction == Direction::Bidirectional ==> needed_streams(perf) == 2 * perf.params.parallel as int,
{
}

/// Marking results as the peer's keeps the same streams and changes nothing
/// of their stats but `is_peer`, which becomes true.
pub proof fn lemma_peer_view_keeps_stats(results: Map<usize, StreamStats>, id: usize)
    requires
        results.contains_key(id),
    ensures
        peer_view(results).contains_key(id),
        peer_view(results)[id].id == results[id].id,
        peer_view(results)[id].index == results[id].index,
        peer_view(results)[id].duration == results[id].duration,
        peer_view(results)[id].bytes_transferred == results[id].bytes_transferred,
        peer_view(results)[id].retransmits == results[id].retransmits,
        peer_view(results)[id].cwnd == results[id].cwnd,
        peer_view(results)[id].is_summary == results[id].is_summary,
        peer_view(results)[id].is_peer,
        peer_view(results).dom() == results.dom(),
{
    assert(peer_view(results).dom() =~= results.dom());
}

/// What the controller waits for after acting on the state.
#[derive(Debug)]
pub enum ControllerWait {
    /// Move the test to this state, then look at the state again.
    Announce(State),
    /// Wait for a message from the controller's own components.
    InternalMessages,
    /// Wait for a message from the controller's components or from the server.
    InternalOrServerMessages,
}

/// Whether the data stream with index `index` sends: the first
/// `num_send_streams` streams are this side's sending streams; a server in a
/// bidirectional test sends on the others.
pub open spec fn stream_sends(
    role: Role,
    direction: Direction,
    num_send_streams: u16,
    index: u16,
) -> bool {
    let sending = index < num_send_streams;
    if role == Role::Server && direction == Direction::Bidirectional {
        !sending
    } else {
        sending
    }
}

/// `drained` lists every entry of `workers` exactly once.
pub open spec fn lists_each_once<H>(drained: Seq<(usize, H)>, workers: Map<usize, H>) -> bool {
    &&& drained.len() == workers.len()
    &&& forall|i: int| 0 <= i < drained.len() ==> workers.contains_key(#[trigger] drained[i].0) && workers[drained[i].0] == drained[i].1
    &&& forall|i: int, j: int| 0 <= i < drained.len() && 0 <= j < drained.len() && i != j ==> #[trigger] drained[i].0 != #[trigger] drained[j].0
    &&& forall|id: usize| #[trigger] workers.contains_key(id) ==> exists|i: int| 0 <= i < drained.len() && #[trigger] drained[i].0 == id
}

/// The number of data streams a test needs on one side.
pub open spec fn needed_streams(perf: Perf) -> int {
    perf.num_send_streams + perf.num_receive_streams
}

/// Client and server of one test take opposite ends of every data stream: on
/// each stream the test has, one end sends while the other receives.
pub proof fn lemma_stream_directions_complement(direction: Direction, parallel: u16, index: u16)
    requires
        index < stream_counts(direction, parallel, Role::Client).0 + stream_counts(direction, parallel, Role::Client).1,
    ensures
        stream_sends(Role::Client, direction, stream_counts(direction, parallel, Role::Client).0, index)
            != stream_sends(Role::Server, direction, stream_counts(direction, parallel, Role::Server).0, index),
{
}

/// The load starts once, when the test enters `Running`; a terminal state ends
/// the controller whatever came before; a server answers `Start` by asking for
/// the data streams under its own cookie, and a client connects them.
pub proof fn lemma_step_properties(role: Role, cookie: Seq<char>, state: StateView, previous: StateView)
    ensures
        next_step(role, cookie, state, previous) is StartLoad <==> (state is Running && !(previous is Running)),
        next_step(role, cookie, StateView::Running, StateView::Running) is Idle,
        next_step(role, cookie, StateView::ExchangeResults, previous) is ExchangeResults,
        next_step(role, cookie, StateView::Terminate, previous) is Terminate,
        next_step(Role::Server, cookie, StateView::Start, previous) == ControllerStepView::Announce(
            StateView::CreateStreams { cookie },
        ),
        state is CreateStreams ==> next_step(Role::Client, cookie, state, previous) is CreateStreams,
{
}

/// The worker a new data stream gets.
#[derive(Debug, Clone, Copy)]
pub struct StreamAssignment {
    pub worker_id: usize,
    pub is_sending: bool,
}

/// The stats as a peer reported them: unchanged but for `is_peer`.
pub open spec fn as_peer(stats: StreamStats) -> StreamStats {
    StreamStats { is_peer: true, ..stats }
}

/// The results `results` as received from the peer.
pub open spec fn peer_view(results: Map<usize, StreamStats>) -> Map<usize, StreamStats> {
    Map::new(|id: usize| results.contains_key(id), |id: usize| as_peer(results[id]))
}

/// Marks every result received from the peer as the peer's.
pub fn mark_as_peer(results: HashMap<usize, StreamStats>) -> (marked: HashMap<usize, StreamStats>)
    ensures
        marked@ == peer_view(results@),
{
    let mut marked: HashMap<usize, StreamStats> = HashMap::new();
    let ghost mut seen: Set<usize> = Set::empty();
    for id in it: results.keys()
        invariant
            it.seq().unref().to_set() == results@.dom(),
            seen == it.seq().unref().take(it.index()).to_set(),
            marked@.dom() == seen,
            forall|k: usize| #[trigger] marked@.contains_key(k) ==> marked@[k] == as_peer(results@[k]),
            it.index() == it.seq().len() ==> seen == results@.dom(),
    {
        let ghost i = it.index();
        proof {
            assert(it.seq().unref().take(i + 1) =~= it.seq().unref().take(i).push(*id));
            assert(it.seq().unref().take(i + 1).to_set() =~= it.seq().unref().take(i).to_set().insert(*id));
            assert(i + 1 == it.seq().len() ==> it.seq().unref().take(i + 1) =~= it.seq().unref());
        }
        match results.get(id) {
            Some(stats) => {
                marked.insert(*id, StreamStats { is_peer: true, ..*stats });
            },
            None => {},
        }
        proof {
            seen = seen.insert(*id);
        }
    }
    assert(marked@ =~= peer_view(results@));
    marked
}

/// The peer's results out of the server's answer to ours: only `SendResults` is expected.
pub fn peer_results_from_server(message: ServerMessage) -> (res: Result<HashMap<usize, StreamStats>, Error>)
    ensures
        match message {
            ServerMessage::SendResults(results) => res matches Ok(r) && r@ == peer_view(results@),
            _ => res == Err::<HashMap<usize, StreamStats>, Error>(Error::UnexpectedServerMessage(message)),
        },
{
    match message {
        ServerMessage::SendResults(results) => Ok(mark_as_peer(results)),
        m => Err(Error::UnexpectedServerMessage(m)),
    }
}

/// The peer's results out of the client's message: only `SendResults` is expected.
pub fn peer_results_from_client(message: ClientMessage) -> (res: Result<HashMap<usize, StreamStats>, Error>)
    ensures
        match message {
            ClientMessage::SendResults(results) => res matches Ok(r) && r@ == peer_view(results@),
            _ => res == Err::<HashMap<usize, StreamStats>, Error>(Error::UnexpectedClientMessage(message)),
        },
{
    match message {
        ClientMessage::SendResults(results) => Ok(mark_as_peer(results)),
        m => Err(Error::UnexpectedClientMessage(m)),
    }
}

/// The state a server asks a client to move to; any other message is handed back.
pub fn requested_state(message: ServerMessage) -> (res: Result<State, ServerMessage>)
    ensures
        match message {
            ServerMessage::SetState(state) => res == Ok::<State, ServerMessage>(state),
            _ => res == Err::<State, ServerMessage>(message),
        },
{
    match message {
        ServerMessage::SetState(state) => Ok(state),
        m => Err(m),
    }
}

/// The controller's bookkeeping: the test, the workers by id, their results.
/// `Handle` is whatever the caller keeps to wait for a worker.
pub struct Controller<Handle> {
    perf: Perf,
    stream_index: u16,
    workers: HashMap<usize, Handle>,
    stream_results: HashMap<usize, StreamStats>,
    previous: State,
}

impl<Handle> Controller<Handle> {
    /// The test this controller runs.
    pub closed spec fn session(&self) -> Perf {
        self.perf
    }

    /// Number of data streams created or accepted so far.
    pub closed spec fn created_streams(&self) -> u16 {
        self.stream_index
    }

    /// The running workers by id.
    pub closed spec fn running_workers(&self) -> Map<usize, Handle> {
        self.workers@
    }

    /// The test state the controller last acted on.
    pub closed spec fn previous_state(&self) -> StateView {
        self.previous@
    }

    /// The results of finished workers by id.
    pub closed spec fn results(&self) -> Map<usize, StreamStats> {
        self.stream_results@
    }

    /// Every running worker has an id below the number of streams created, so a
    /// new stream's id is fresh.
    pub open spec fn wf(&self) -> bool {
        forall|id: usize| #[trigger] self.running_workers().contains_key(id) ==> id < self.created_streams()
    }

    /// A controller for `perf` with no streams yet.
    pub fn new(perf: Perf) -> (c: Self)
        ensures
            c.session() == perf,
            c.created_streams() == 0,
            c.running_workers() == Map::<usize, Handle>::empty(),
            c.results() == Map::<usize, StreamStats>::empty(),
            c.previous_state() == StateView::Start,
            c.wf(),
    {
        Controller {
            perf,
            stream_index: 0,
            workers: HashMap::new(),
            stream_results: HashMap::new(),
            previous: State::Start,
        }
    }

    /// Takes `state`, the test state when the controller starts running, as the
    /// state last acted on.
    pub fn observe_initial_state(&mut self, state: State)
        requires
            old(self).wf(),
        ensures
            final(self).wf(),
            final(self).session() == old(self).session(),
            final(self).created_streams() == old(self).created_streams(),
            final(self).running_workers() == old(self).running_workers(),
            final(self).results() == old(self).results(),
            final(self).previous_state() == state@,
    {
        self.previous = state;
        assert forall|id: usize| #[trigger] self.running_workers().contains_key(id) implies id
            < self.created_streams() by {
            assert(old(self).running_workers().contains_key(id));
        }
    }

    /// The step the controller takes for `state`, given the state it last acted
    /// on; unless the step announces a new state or ends the controller, `state`
    /// becomes the state last acted on.
    pub fn step_for_state(&mut self, state: &State) -> (step: ControllerStep)
        requires
            old(self).wf(),
        ensures
            step@ == next_step(old(self).session().role, old(self).session().cookie@, state@, old(self).previous_state()),
            final(self).previous_state() == previous_after(step@, state@, old(self).previous_state()),
            final(self).wf(),
            final(self).session() == old(self).session(),
            final(self).created_streams() == old(self).created_streams(),
            final(self).running_workers() == old(self).running_workers(),
            final(self).results() == old(self).results(),
    {
        let step = match state {
            State::Start => if self.perf.role == Role::Server {
                ControllerStep::Announce(State::CreateStreams { cookie: self.perf.cookie.clone() })
            } else {
                ControllerStep::Idle
            },
            State::CreateStreams { .. } => if self.perf.role == Role::Client {
                ControllerStep::CreateStreams
            } else {
                ControllerStep::Idle
            },
            State::Running => match self.previous {
                State::Running => ControllerStep::Idle,
                _ => ControllerStep::StartLoad,
            },
            State::ExchangeResults => ControllerStep::ExchangeResults,
            State::Terminate => ControllerStep::Terminate,
        };
        match step {
            ControllerStep::Announce(_) | ControllerStep::ExchangeResults | ControllerStep::Terminate => {},
            _ => {
                self.previous = state.copied();
            },
        }
        assert forall|id: usize| #[trigger] self.running_workers().contains_key(id) implies id
            < self.created_streams() by {
            assert(old(self).running_workers().contains_key(id));
        }
        step
    }

    /// What the controller waits for once it has acted on the state: a pending
    /// shutdown ends the test; otherwise a server waits for its internal
    /// messages, a client also for the server's messages.
    pub fn next_wait(&self, shutdown_requested: bool) -> (wait: ControllerWait)
        ensures
            wait == (if shutdown_requested {
                ControllerWait::Announce(State::Terminate)
            } else if self.session().role == Role::Server {
                ControllerWait::InternalMessages
            } else {
                ControllerWait::InternalOrServerMessages
            }),
    {
        if shutdown_requested {
            ControllerWait::Announce(State::Terminate)
        } else if self.perf.role == Role::Server {
            ControllerWait::InternalMessages
        } else {
            ControllerWait::InternalOrServerMessages
        }
    }

    /// Whether a client still has data streams to connect: it connects as many
    /// as the test needs on its side.
    pub fn needs_more_streams(&self) -> (more: bool)
        requires
            needed_streams(self.session()) <= u16::MAX,
        ensures
            more == (self.created_streams() < needed_streams(self.session())),
    {
        let total_needed_streams = self.perf.num_send_streams + self.perf.num_receive_streams;
        self.stream_index < total_needed_streams
    }

    /// The worker id and direction the next data stream gets.
    pub fn next_assignment(&self) -> (a: StreamAssignment)
        ensures
            a.worker_id == self.created_streams(),
            a.is_sending == stream_sends(
                self.session().role,
                self.session().params.direction,
                self.session().num_send_streams,
                self.created_streams(),
            ),
    {
        let mut is_sending = self.stream_index < self.perf.num_send_streams;
        if self.perf.role == Role::Server && self.perf.params.direction == Direction::Bidirectional {
            is_sending = !is_sending;
        }
        StreamAssignment { worker_id: self.stream_index as usize, is_sending }
    }

    /// Records the worker of the next data stream under the id `next_assignment` gave.
    pub fn register_worker(&mut self, handle: Handle)
        requires
            old(self).wf(),
            old(self).created_streams() < u16::MAX,
        ensures
            final(self).wf(),
            final(self).session() == old(self).session(),
            final(self).created_streams() == old(self).created_streams() + 1,
            final(self).running_workers() == old(self).running_workers().insert(
                old(self).created_streams() as usize,
                handle,
            ),
            final(self).results() == old(self).results(),
            final(self).previous_state() == old(self).previous_state(),
    {
        let worker_id = self.stream_index as usize;
        self.workers.insert(worker_id, handle);
        self.stream_index = self.stream_index + 1;
        assert forall|id: usize| #[trigger] self.running_workers().contains_key(id) implies id
            < self.created_streams() by {
            if id != worker_id {
                assert(old(self).running_workers().contains_key(id));
            }
        }
    }

    /// A server registers the worker of an accepted data stream; once all the
    /// streams the test needs run, the test moves to `Running`.
    pub fn accept_stream(&mut self, handle: Handle) -> (next: Option<State>)
        requires
            old(self).wf(),
            old(self).session().role == Role::Server,
            old(self).created_streams() < u16::MAX,
            needed_streams(old(self).session()) <= u16::MAX,
        ensures
            final(self).wf(),
            final(self).session() == old(self).session(),
            final(self).created_streams() == old(self).created_streams() + 1,
            final(self).running_workers() == old(self).running_workers().insert(
                old(self).created_streams() as usize,
                handle,
            ),
            final(self).results() == old(self).results(),
            final(self).previous_state() == old(self).previous_state(),
            next == if final(self).running_workers().len() == needed_streams(old(self).session()) {
                Some(State::Running)
            } else {
                None::<State>
            },
    {
        let total_needed_stream = (self.perf.num_send_streams + self.perf.num_receive_streams) as usize;
        self.register_worker(handle);
        if self.workers.len() == total_needed_stream {
            Some(State::Running)
        } else {
            None
        }
    }

    /// Removes the worker `id`, handing back what was kept for it.
    pub fn take_worker(&mut self, id: usize) -> (handle: Option<Handle>)
        requires
            old(self).wf(),
        ensures
            final(self).wf(),
            final(self).session() == old(self).session(),
            final(self).created_streams() == old(self).created_streams(),
            final(self).running_workers() == old(self).running_workers().remove(id),
            final(self).results() == old(self).results(),
            final(self).previous_state() == old(self).previous_state(),
            match handle {
                Some(h) => old(self).running_workers().contains_key(id)
                    && old(self).running_workers()[id] == h,
                None => !old(self).running_workers().contains_key(id),
            },
    {
        let handle = self.workers.remove(&id);
        assert forall|k: usize| #[trigger] self.running_workers().contains_key(k) implies k
            < self.created_streams() by {
            assert(old(self).running_workers().contains_key(k));
        }
        handle
    }

    /// Keeps the final stats of worker `id`.
    pub fn record_result(&mut self, id: usize, stats: StreamStats)
        requires
            old(self).wf(),
        ensures
            final(self).wf(),
            final(self).session() == old(self).session(),
            final(self).created_streams() == old(self).created_streams(),
            final(self).running_workers() == old(self).running_workers(),
            final(self).results() == old(self).results().insert(id, stats),
            final(self).previous_state() == old(self).previous_state(),
    {
        self.stream_results.insert(id, stats);
        assert forall|k: usize| #[trigger] self.running_workers().contains_key(k) implies k
            < self.created_streams() by {
            assert(old(self).running_workers().contains_key(k));
        }
    }

    /// After a worker finished: a server whose workers have all finished moves the
    /// test to `ExchangeResults`.
    pub fn after_worker_finished(&self) -> (next: Option<State>)
        ensures
            next == if self.running_workers().is_empty() && self.session().role == Role::Server {
                Some(State::ExchangeResults)
            } else {
                None::<State>
            },
    {
        if self.workers.is_empty() && self.perf.role == Role::Server {
            Some(State::ExchangeResults)
        } else {
            None
        }
    }

    /// Removes all workers, handing back each id with what was kept for it.
    pub fn drain_workers(&mut self) -> (drained: Vec<(usize, Handle)>)
        requires
            old(self).wf(),
        ensures
            final(self).wf(),
            final(self).session() == old(self).session(),
            final(self).created_streams() == old(self).created_streams(),
            final(self).running_workers() == Map::<usize, Handle>::empty(),
            final(self).results() == old(self).results(),
            final(self).previous_state() == old(self).previous_state(),
            lists_each_once(drained@, old(self).running_workers()),
    {
        let ghost workers = self.workers@;
        let ghost before = *self;
        let mut ids: Vec<usize> = Vec::new();
        for id in it: self.workers.keys()
            invariant
                it.seq().unref().to_set() == workers.dom(),
                it.seq().unref().no_duplicates(),
                ids@ == it.seq().unref().take(it.index()),
                ids@.no_duplicates(),
                it.index() == it.seq().len() ==> ids@.to_set() == workers.dom(),
        {
            let ghost i = it.index();
            proof {
                assert(it.seq().unref().take(i + 1) =~= it.seq().unref().take(i).push(*id));
                assert(i + 1 == it.seq().len() ==> it.seq().unref().take(i + 1) =~= it.seq().unref());
                assert(it.seq().unref()[i] == *id);
                assert(forall|j: int| 0 <= j < i ==> it.seq().unref()[j] != it.seq().unref()[i]);
            }
            ids.push(*id);
        }
        let mut drained: Vec<(usize, Handle)> = Vec::new();
        let n = ids.len();
        proof {
            assert(ids@.take(0).to_set() =~= Set::<usize>::empty());
            assert(self.workers@ =~= workers.remove_keys(ids@.take(0).to_set()));
        }
        let mut k: usize = 0;
        while k < n
            invariant
                0 <= k <= n,
                n == ids@.len(),
                self.perf == before.perf,
                self.stream_index == before.stream_index,
                self.stream_results == before.stream_results,
                self.previous == before.previous,
                ids@.to_set() == workers.dom(),
                ids@.no_duplicates(),
                self.workers@ == workers.remove_keys(ids@.take(k as int).to_set()),
                drained@.len() == k,
                forall|i: int| 0 <= i < k ==> #[trigger] drained@[i] == (ids@[i], workers[ids@[i]]),
            decreases n - k,
        {
            let id = ids[k];
            proof {
                assert(ids@.take(k + 1) =~= ids@.take(k as int).push(id));
                assert(ids@.to_set().contains(id));
                assert(!ids@.take(k as int).contains(id));
                assert(self.workers@.contains_key(id));
            }
            let handle = self.workers.remove(&id);
            match handle {
                Some(h) => drained.push((id, h)),
                None => {},
            }
            proof {
                assert(self.workers@ =~= workers.remove_keys(ids@.take(k + 1).to_set()));
            }
            k = k + 1;
        }
        proof {
            assert(ids@.take(n as int) =~= ids@);
            assert(self.workers@ =~= Map::<usize, Handle>::empty());
            ids@.unique_seq_to_set();
            assert forall|id: usize| #[trigger] workers.contains_key(id) implies exists|i: int| 0 <= i < drained@.len() && #[trigger] drained@[i].0 == id by {
                assert(ids@.to_set().contains(id));
                let i = choose|i: int| 0 <= i < ids@.len() && ids@[i] == id;
                assert(drained@[i].0 == id);
            }
        }
        drained
    }

    /// Number of data streams created or accepted so far.
    pub fn created_stream_count(&self) -> (n: u16)
        ensures
            n == self.created_streams(),
    {
        self.stream_index
    }

    /// The test this controller runs.
    pub fn perf(&self) -> (perf: &Perf)
        ensures
            *perf == self.session(),
    {
        &self.perf
    }

    /// The results collected so far.
    pub fn stream_results(&self) -> (results: HashMap<usize, StreamStats>)
        ensures
            results@ == self.results(),
    {
        self.stream_results.clone()
    }
}

} // verus!
