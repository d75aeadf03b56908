//! Decisions of the server: opening a test session and admitting data streams.

use vstd::prelude::*;

use crate::error::{Error, ServerError};
use crate::message::{ClientMessage, Parameters, State, StateView};

verus! {

/// The cookie of a session opening: only `Hello` is expected.
pub fn read_cookie(message: ClientMessage) -> (res: Result<String, Error>)
    ensures
        match message {
            ClientMessage::Hello { cookie } => res == Ok::<String, Error>(cookie),
            _ => res == Err::<String, Error>(Error::UnexpectedClientMessage(message)),
        },
{
    match message {
        ClientMessage::Hello { cookie } => Ok(cookie),
        e => Err(Error::UnexpectedClientMessage(e)),
    }
}

/// The test parameters a client proposes: only `SendParameters` is expected.
pub fn read_parameters(message: ClientMessage) -> (res: Result<Parameters, Error>)
    ensures
        match message {
            ClientMessage::SendParameters(params) => res == Ok::<Parameters, Error>(params),
            _ => res == Err::<Parameters, Error>(Error::UnexpectedClientMessage(message)),
        },
{
    match message {
        ClientMessage::SendParameters(params) => Ok(params),
        e => Err(Error::UnexpectedClientMessage(e)),
    }
}

/// Whether a data stream presenting `presented` joins a test in `state`.
pub open spec fn admits_stream(state: StateView, presented: Seq<char>) -> bool {
    state matches StateView::CreateStreams { cookie } && cookie == presented
}

/// The cookie a new connection must present to a test in `state`, or the
/// refusal when the test does not wait for data streams.
pub open spec fn expected_cookie(state: StateView) -> Result<Seq<char>, ServerError> {
    match state {
        StateView::CreateStreams { cookie } => Ok(cookie),
        _ => Err(ServerError::PerfTestAlreadyInFlight),
    }
}

/// The outcome of presenting `presented` where `expected` is due.
pub open spec fn cookie_outcome(expected: Seq<char>, presented: Seq<char>) -> Result<(), ServerError> {
    if expected == presented {
        Ok(())
    } else {
        Err(ServerError::PerfTestAlreadyInFlight)
    }
}

/// What a connection presenting `presented` gets from a test in `state`.
pub open spec fn admission(state: StateView, presented: Seq<char>) -> Result<(), ServerError> {
    match expected_cookie(state) {
        Ok(expected) => cookie_outcome(expected, presented),
        Err(e) => Err(e),
    }
}

/// A new connection during a test: while the test waits for its data streams,
/// the cookie that a stream must present; otherwise the refusal.
pub fn stream_cookie_for(state: &State) -> (res: Result<String, ServerError>)
    ensures
        match res {
            Ok(c) => expected_cookie(state@) == Ok::<Seq<char>, ServerError>(c@),
            Err(e) => expected_cookie(state@) == Err::<Seq<char>, ServerError>(e),
        },
{
    match state {
        State::CreateStreams { cookie } => Ok(cookie.clone()),
        _ => Err(ServerError::PerfTestAlreadyInFlight),
    }
}

/// A data stream joins when it presents the test's cookie; otherwise the refusal.
pub fn check_stream_cookie(expected: &String, presented: &String) -> (res: Result<(), ServerError>)
    ensures
        res == cookie_outcome(expected@, presented@),
{
    if *presented == *expected {
        Ok(())
    } else {
        Err(ServerError::PerfTestAlreadyInFlight)
    }
}

/// A connection that arrives during a test joins it as a data stream exactly
/// when the test waits for its data streams and the connection presents the
/// test's cookie; every other connection is answered `PerfTestAlreadyInFlight`.
pub proof fn lemma_stream_admission(state: StateView, presented: Seq<char>)
    ensures
        admission(state, presented) is Ok <==> admits_stream(state, presented),
        !admits_stream(state, presented) ==> admission(state, presented) == Err::<(), ServerError>(
            ServerError::PerfTestAlreadyInFlight,
        ),
{
}

} // verus!
