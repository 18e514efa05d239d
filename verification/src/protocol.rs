//! How the facade talks to its collaborators without calling them.
//!
//! An operation of the read surface is a function from an event to a step. The
//! caller of the facade performs the step (it forwards the call to the upstream
//! node, or queries the local store) and comes back with the outcome as the next
//! event, until the step is an answer. The facade keeps nothing between events.

use crate::errors::{IndexerError, RpcError};
use crate::registry::Route;
use vstd::prelude::*;

verus! {

/// What an operation with a local path is told.
#[derive(Debug, PartialEq, Eq)]
pub enum Event<A, U, L> {
    /// A client called the operation with these arguments.
    Call(A),
    /// The upstream node answered the forwarded call.
    Upstream(U),
    /// The local store answered the query.
    Store(L),
}

/// What an operation with a local path wants done next.
#[derive(Debug, PartialEq, Eq)]
pub enum Step<A, Q, U, R> {
    /// Forward the call upstream, with these arguments.
    Forward(A),
    /// Put this query to the local store.
    Query(Q),
    /// Answer the client with upstream's reply, as it is.
    Return(U),
    /// Answer the client with this result of the local path.
    Respond(Result<R, RpcError>),
}

/// What an operation without a local path is told.
#[derive(Debug, PartialEq, Eq)]
pub enum PassEvent<A, U> {
    /// A client called the operation with these arguments.
    Call(A),
    /// The upstream node answered the forwarded call.
    Upstream(U),
}

/// What an operation without a local path wants done next.
#[derive(Debug, PartialEq, Eq)]
pub enum PassStep<A, U> {
    /// Forward the call upstream, with these arguments.
    Forward(A),
    /// Answer the client with upstream's reply, as it is.
    Return(U),
}

/// What the local path of an operation is told.
#[derive(Debug, PartialEq, Eq)]
pub enum LocalEvent<A, L> {
    /// The operation was called with these arguments and is served locally.
    Call(A),
    /// The local store answered the query.
    Store(L),
}

/// How far the local path of an operation has come.
#[derive(Debug, PartialEq, Eq)]
pub enum Progress<Q, R> {
    /// Put this query to the local store.
    Query(Q),
    /// The local path has ended, in a response or in a failure.
    Done(Result<R, IndexerError>),
}

/// The step that a call takes: upstream with the arguments it came with, or to
/// the store with `query`.
pub open spec fn spec_dispatch<A, Q, U, R>(route: Route, args: A, query: Q) -> Step<A, Q, U, R> {
    match route {
        Route::Upstream => Step::Forward(args),
        Route::Local => Step::Query(query),
    }
}

/// The step of an operation without a local path.
pub open spec fn spec_pass_through<A, U>(event: PassEvent<A, U>) -> PassStep<A, U> {
    match event {
        PassEvent::Call(args) => PassStep::Forward(args),
        PassEvent::Upstream(reply) => PassStep::Return(reply),
    }
}

/// Forwards a call as it came and hands upstream's reply back as it came.
pub fn pass_through<A, U>(event: PassEvent<A, U>) -> (step: PassStep<A, U>)
    ensures
        step == spec_pass_through(event),
{
    match event {
        PassEvent::Call(args) => PassStep::Forward(args),
        PassEvent::Upstream(reply) => PassStep::Return(reply),
    }
}

/// Pass-through transparency, the call: on the upstream route a call is
/// forwarded with the arguments it came with, whatever the query of the local
/// path would have been.
pub proof fn lemma_upstream_call_is_forwarded<A, Q, U, R>(args: A, query: Q)
    ensures
        spec_dispatch::<A, Q, U, R>(Route::Upstream, args, query) == Step::<A, Q, U, R>::Forward(
            args,
        ),
{
}

} // verus!
