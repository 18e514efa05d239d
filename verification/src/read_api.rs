//! The read surface of the node: one operation for each method, each of them a
//! function from an event to the next step (see `protocol`).
//!
//! A call of a method that the registry does not list is forwarded upstream with
//! the arguments it came with, and upstream's reply is the answer, untouched. A
//! call of a listed method is answered from the local store. Five methods have
//! no local path and are forwarded whatever the registry lists.

use crate::base_types::{base58_text, ObjectID, TransactionDigest};
use crate::batch::{
    align_transactions, aligned, count_changed_message, join_composed, rows_consistent, spec_join,
};
use crate::errors::{spec_rpc_error, IndexerError, RpcError};
use crate::options::{SuiObjectDataOptions, SuiTransactionBlockResponseOptions};
use crate::protocol::{
    pass_through, spec_dispatch, spec_pass_through, Event, LocalEvent, PassEvent, PassStep,
    Progress, Step,
};
use crate::registry::{names_of, spec_route, Method, MigrationRegistry, Route};
use crate::types::{
    spec_object_response, Checkpoint, CheckpointId, ObjectRead, StoredTransaction,
    SuiGetPastObjectRequest, SuiObjectResponse, SuiTransactionBlockResponse,
    SuiTransactionBlockResponseWithOptions,
};
use crate::wire::{decimal_text, WireInteger};
use vstd::prelude::*;

verus! {

/// The counter that the store's signed column holds: its 64 bits, read unsigned.
pub open spec fn spec_unsigned(n: i64) -> u64 {
    if n >= 0 {
        n as u64
    } else {
        (n + 0x1_0000_0000_0000_0000) as u64
    }
}

/// Reads the 64 bits of a signed column as an unsigned counter.
pub fn unsigned(n: i64) -> (u: u64)
    ensures
        u == spec_unsigned(n),
{
    if n >= 0 {
        n as u64
    } else {
        u64::MAX - ((-(n + 1)) as u64)
    }
}

/// A counter of the store as the local path hands it on.
pub open spec fn spec_counter(stored: Result<i64, IndexerError>) -> Result<u64, IndexerError> {
    match stored {
        Ok(n) => Ok(spec_unsigned(n)),
        Err(error) => Err(error),
    }
}

/// What the local path of a transaction lookup asks of the store.
#[derive(Debug, PartialEq, Eq)]
pub enum TransactionQuery {
    /// The record filed under this key.
    Lookup(String),
    /// The full response for this record, composed for these options.
    Compose(StoredTransaction, Option<SuiTransactionBlockResponseOptions>),
}

/// What the store answers on the local path of a transaction lookup. Each
/// answer comes with the options of the call.
#[derive(Debug, PartialEq, Eq)]
pub enum TransactionReply {
    /// The outcome of `Lookup`.
    Row(Result<StoredTransaction, IndexerError>, Option<SuiTransactionBlockResponseOptions>),
    /// The outcome of `Compose`.
    Composed(
        Result<SuiTransactionBlockResponse, IndexerError>,
        Option<SuiTransactionBlockResponseOptions>,
    ),
}

/// What the local path of a batch lookup asks of the store.
#[derive(Debug, PartialEq, Eq)]
pub enum BatchQuery {
    /// The records filed under these keys, in any order.
    Lookup(Vec<String>),
    /// The full response for each of these records, composed for these
    /// options; the compositions may run side by side, their outcomes come
    /// back in the order of the records.
    Compose(Vec<StoredTransaction>, Option<SuiTransactionBlockResponseOptions>),
}

/// What the store answers on the local path of a batch lookup. Each answer
/// comes with the options of the call.
#[derive(Debug, PartialEq, Eq)]
pub enum BatchReply {
    /// The keys that were looked up and the outcome of `Lookup`.
    Rows(
        Vec<String>,
        Result<Vec<StoredTransaction>, IndexerError>,
        Option<SuiTransactionBlockResponseOptions>,
    ),
    /// The outcomes of `Compose`, one for each record, in their order.
    Composed(
        Vec<Result<SuiTransactionBlockResponse, IndexerError>>,
        Option<SuiTransactionBlockResponseOptions>,
    ),
}

/// The keys under which the store files the transactions `digests`.
pub open spec fn spec_digest_keys(digests: Seq<TransactionDigest>) -> Seq<Seq<char>> {
    Seq::new(digests.len(), |i: int| base58_text(digests[i]@))
}

/// The local path of a transaction lookup after an answer of the store.
pub open spec fn spec_transaction_reply(reply: TransactionReply) -> Progress<
    TransactionQuery,
    SuiTransactionBlockResponse,
> {
    match reply {
        TransactionReply::Row(Err(error), _) => Progress::Done(Err(error)),
        TransactionReply::Row(Ok(row), options) => Progress::Query(
            TransactionQuery::Compose(row, options),
        ),
        TransactionReply::Composed(Err(error), _) => Progress::Done(Err(error)),
        TransactionReply::Composed(Ok(response), options) => Progress::Done(
            Ok(
                (SuiTransactionBlockResponseWithOptions {
                    response,
                    options: SuiTransactionBlockResponseOptions::spec_or_default(options),
                }).spec_into_response(),
            ),
        ),
    }
}

/// True where `progress` is how far the local path of a batch lookup has come
/// after the answer `reply` of the store.
pub open spec fn batch_reply_progress(
    reply: BatchReply,
    progress: Progress<BatchQuery, Vec<SuiTransactionBlockResponse>>,
) -> bool {
    match reply {
        BatchReply::Rows(_, Err(error), _) => progress == Progress::<
            BatchQuery,
            Vec<SuiTransactionBlockResponse>,
        >::Done(Err(error)),
        BatchReply::Rows(keys, Ok(rows), options) => if rows_consistent(keys.deep_view(), rows@) {
            &&& progress matches Progress::Query(BatchQuery::Compose(ordered, passed))
            &&& ordered@ == aligned(keys.deep_view(), rows@)
            &&& passed == options
        } else {
            &&& progress matches Progress::Done(Err(IndexerError::PostgresReadError(message)))
            &&& message@ == count_changed_message()
        },
        BatchReply::Composed(results, options) => match spec_join(
            results@,
            SuiTransactionBlockResponseOptions::spec_or_default(options),
        ) {
            Ok(responses) => progress matches Progress::Done(Ok(list)) && list@ == responses,
            Err(error) => progress == Progress::<
                BatchQuery,
                Vec<SuiTransactionBlockResponse>,
            >::Done(Err(error)),
        },
    }
}

/// The step that the progress of a local path comes to: a failure is shown to
/// the caller in the caller's terms.
pub open spec fn spec_lift<A, Q, U, R>(progress: Progress<Q, R>) -> Step<A, Q, U, R> {
    match progress {
        Progress::Query(query) => Step::Query(query),
        Progress::Done(Ok(response)) => Step::Respond(Ok(response)),
        Progress::Done(Err(error)) => Step::Respond(Err(spec_rpc_error(error))),
    }
}

/// Turns the progress of a local path into a step of the operation.
pub fn lift<A, Q, U, R>(progress: Progress<Q, R>) -> (step: Step<A, Q, U, R>)
    ensures
        step == spec_lift::<A, Q, U, R>(progress),
{
    match progress {
        Progress::Query(query) => Step::Query(query),
        Progress::Done(Ok(response)) => Step::Respond(Ok(response)),
        Progress::Done(Err(error)) => Step::Respond(Err(RpcError::from_indexer(error))),
    }
}

/// The answer to an object lookup that the store's outcome makes.
pub open spec fn spec_object_outcome(
    read: Result<ObjectRead, IndexerError>,
    options: Option<SuiObjectDataOptions>,
) -> Result<SuiObjectResponse, IndexerError> {
    match read {
        Ok(found) => Ok(spec_object_response(found, SuiObjectDataOptions::spec_or_default(options))),
        Err(error) => Err(error),
    }
}

/// The facade: the registry of migrated methods, beside the two collaborators
/// that its caller reaches through it.
pub struct ReadApi<S, C> {
    fullnode: C,
    state: S,
    migrated_methods: MigrationRegistry,
}

impl<S, C> ReadApi<S, C> {
    /// The names of the methods that are answered from the local store.
    pub closed spec fn migrated(&self) -> Set<Seq<char>> {
        self.migrated_methods@
    }

    /// The local store.
    pub closed spec fn spec_state(&self) -> S {
        self.state
    }

    /// The client of the upstream node.
    pub closed spec fn spec_fullnode(&self) -> C {
        self.fullnode
    }

    /// Who answers `method` under this facade's registry.
    pub open spec fn route_of(&self, method: Method) -> Route {
        spec_route(self.migrated(), method)
    }

    pub fn new(state: S, fullnode_client: C, migrated_methods: Vec<String>) -> (api: Self)
        ensures
            api.migrated() == names_of(migrated_methods@),
            api.spec_state() == state,
            api.spec_fullnode() == fullnode_client,
    {
        ReadApi {
            state,
            fullnode: fullnode_client,
            migrated_methods: MigrationRegistry::new(migrated_methods),
        }
    }

    pub fn state(&self) -> (state: &S)
        ensures
            *state == self.spec_state(),
    {
        &self.state
    }

    pub fn fullnode(&self) -> (fullnode: &C)
        ensures
            *fullnode == self.spec_fullnode(),
    {
        &self.fullnode
    }

    /// Decides, for this one call, who answers `method`.
    pub fn route(&self, method: Method) -> (route: Route)
        ensures
            route == self.route_of(method),
    {
        self.migrated_methods.route(method)
    }

    /// The number of transactions that the store counts.
    pub fn get_total_transaction_number_internal(&self, stored: Result<i64, IndexerError>) -> (total:
        Result<u64, IndexerError>)
        ensures
            total == spec_counter(stored),
    {
        match stored {
            Ok(n) => Ok(unsigned(n)),
            Err(error) => Err(error),
        }
    }

    /// The sequence number of the latest checkpoint that the store holds.
    pub fn get_latest_checkpoint_sequence_number_internal(
        &self,
        stored: Result<i64, IndexerError>,
    ) -> (latest: Result<u64, IndexerError>)
        ensures
            latest == spec_counter(stored),
    {
        match stored {
            Ok(n) => Ok(unsigned(n)),
            Err(error) => Err(error),
        }
    }

    /// The answer to an object lookup: the object under the caller's options,
    /// or the finding that there is none. Only a failed read is a failure.
    pub fn get_object_with_options_internal(
        &self,
        read: Result<ObjectRead, IndexerError>,
        options: Option<SuiObjectDataOptions>,
    ) -> (response: Result<SuiObjectResponse, IndexerError>)
        ensures
            response == spec_object_outcome(read, options),
    {
        match read {
            Ok(found) => Ok(
                SuiObjectResponse::compose(found, SuiObjectDataOptions::or_default(options)),
            ),
            Err(error) => Err(error),
        }
    }

    /// The local path of a transaction lookup: the record is looked up under
    /// the Base58 text of the digest, then composed, then shown under the
    /// caller's options. A failed read or a failed composition ends it.
    pub fn get_transaction_with_options_internal(
        &self,
        event: LocalEvent<
            (TransactionDigest, Option<SuiTransactionBlockResponseOptions>),
            TransactionReply,
        >,
    ) -> (progress: Progress<TransactionQuery, SuiTransactionBlockResponse>)
        ensures
            match event {
                LocalEvent::Call(args) => progress matches Progress::Query(
                    TransactionQuery::Lookup(key),
                ) && key@ == base58_text(args.0@),
                LocalEvent::Store(reply) => progress == spec_transaction_reply(reply),
            },
    {
        match event {
            LocalEvent::Call(args) => Progress::Query(
                TransactionQuery::Lookup(args.0.base58_encode()),
            ),
            LocalEvent::Store(TransactionReply::Row(Err(error), _)) => Progress::Done(Err(error)),
            LocalEvent::Store(TransactionReply::Row(Ok(row), options)) => Progress::Query(
                TransactionQuery::Compose(row, options),
            ),
            LocalEvent::Store(TransactionReply::Composed(Err(error), _)) => Progress::Done(
                Err(error),
            ),
            LocalEvent::Store(TransactionReply::Composed(Ok(response), options)) => {
                let shown = (SuiTransactionBlockResponseWithOptions {
                    response,
                    options: SuiTransactionBlockResponseOptions::or_default(options),
                }).into_response();
                Progress::Done(Ok(shown))
            },
        }
    }

    /// The keys under which the store files the transactions `digests`.
    pub fn digest_keys(digests: &Vec<TransactionDigest>) -> (keys: Vec<String>)
        ensures
            keys.deep_view() == spec_digest_keys(digests@),
    {
        let mut keys: Vec<String> = Vec::new();
        let mut i: usize = 0;
        while i < digests.len()
            invariant
                i <= digests.len(),
                keys.len() == i,
                forall|k: int| 0 <= k < i ==> (#[trigger] keys@[k])@ == base58_text(digests@[k]@),
            decreases digests.len() - i,
        {
            keys.push(digests[i].base58_encode());
            i = i + 1;
        }
        assert(keys.deep_view() =~= spec_digest_keys(digests@));
        keys
    }

    /// The local path of a batch lookup.
    ///
    /// The records are looked up under the Base58 texts of the digests. The
    /// rows that come back are put into the order of the request; where their
    /// number does not agree with the request, the batch fails with a read
    /// error. The records are then composed, and the batch ends in every
    /// response, each shown under the caller's options, or in the first
    /// failure: never in a part of the responses.
    pub fn multi_get_transactions_with_options_internal(
        &self,
        event: LocalEvent<
            (Vec<TransactionDigest>, Option<SuiTransactionBlockResponseOptions>),
            BatchReply,
        >,
    ) -> (progress: Progress<BatchQuery, Vec<SuiTransactionBlockResponse>>)
        ensures
            match event {
                LocalEvent::Call(args) => progress matches Progress::Query(
                    BatchQuery::Lookup(keys),
                ) && keys.deep_view() == spec_digest_keys(args.0@),
                LocalEvent::Store(reply) => batch_reply_progress(reply, progress),
            },
    {
        match event {
            LocalEvent::Call(args) => Progress::Query(
                BatchQuery::Lookup(Self::digest_keys(&args.0)),
            ),
            LocalEvent::Store(BatchReply::Rows(_, Err(error), _)) => Progress::Done(Err(error)),
            LocalEvent::Store(BatchReply::Rows(keys, Ok(rows), options)) => {
                match align_transactions(&keys, rows) {
                    Ok(ordered) => Progress::Query(BatchQuery::Compose(ordered, options)),
                    Err(error) => Progress::Done(Err(error)),
                }
            },
            LocalEvent::Store(BatchReply::Composed(results, options)) => Progress::Done(
                join_composed(results, SuiTransactionBlockResponseOptions::or_default(options)),
            ),
        }
    }

    /// Looks an object up by its id. The local store is asked for the object
    /// under this id in its latest version: the query names no version.
    pub fn get_object<U>(
        &self,
        event: Event<
            (ObjectID, Option<SuiObjectDataOptions>),
            U,
            (Result<ObjectRead, IndexerError>, Option<SuiObjectDataOptions>),
        >,
    ) -> (step: Step<
        (ObjectID, Option<SuiObjectDataOptions>),
        (ObjectID, Option<u64>),
        U,
        SuiObjectResponse,
    >)
        ensures
            match event {
                Event::Call(args) => step == spec_dispatch::<_, _, U, SuiObjectResponse>(
                    self.route_of(Method::GetObject),
                    args,
                    (args.0, None::<u64>),
                ),
                Event::Upstream(reply) => step == Step::<
                    (ObjectID, Option<SuiObjectDataOptions>),
                    (ObjectID, Option<u64>),
                    U,
                    SuiObjectResponse,
                >::Return(reply),
                Event::Store(outcome) => step == spec_lift::<
                    (ObjectID, Option<SuiObjectDataOptions>),
                    (ObjectID, Option<u64>),
                    U,
                    SuiObjectResponse,
                >(Progress::Done(spec_object_outcome(outcome.0, outcome.1))),
            },
    {
        match event {
            Event::Call(args) => match self.route(Method::GetObject) {
                Route::Upstream => Step::Forward(args),
                Route::Local => Step::Query((args.0, None)),
            },
            Event::Upstream(reply) => Step::Return(reply),
            Event::Store(outcome) => lift(
                Progress::Done(self.get_object_with_options_internal(outcome.0, outcome.1)),
            ),
        }
    }

    /// Looks several objects up. There is no local path.
    pub fn multi_get_objects<U>(
        &self,
        event: PassEvent<(Vec<ObjectID>, Option<SuiObjectDataOptions>), U>,
    ) -> (step: PassStep<(Vec<ObjectID>, Option<SuiObjectDataOptions>), U>)
        ensures
            step == spec_pass_through(event),
    {
        pass_through(event)
    }

    /// The number of transactions, in its wire form.
    pub fn get_total_transaction_blocks<U>(&self, event: Event<(), U, Result<i64, IndexerError>>) -> (step:
        Step<(), (), U, WireInteger>)
        ensures
            match event {
                Event::Call(args) => step == spec_dispatch::<(), (), U, WireInteger>(
                    self.route_of(Method::GetTotalTransactionBlocks),
                    (),
                    (),
                ),
                Event::Upstream(reply) => step == Step::<(), (), U, WireInteger>::Return(reply),
                Event::Store(stored) => counter_step(stored, step),
            },
    {
        match event {
            Event::Call(_) => match self.route(Method::GetTotalTransactionBlocks) {
                Route::Upstream => Step::Forward(()),
                Route::Local => Step::Query(()),
            },
            Event::Upstream(reply) => Step::Return(reply),
            Event::Store(stored) => match self.get_total_transaction_number_internal(stored) {
                Ok(total) => Step::Respond(Ok(WireInteger::new(total))),
                Err(error) => Step::Respond(Err(RpcError::from_indexer(error))),
            },
        }
    }

    /// Looks a transaction up by its digest.
    pub fn get_transaction_block<U>(
        &self,
        event: Event<
            (TransactionDigest, Option<SuiTransactionBlockResponseOptions>),
            U,
            TransactionReply,
        >,
    ) -> (step: Step<
        (TransactionDigest, Option<SuiTransactionBlockResponseOptions>),
        TransactionQuery,
        U,
        SuiTransactionBlockResponse,
    >)
        ensures
            match event {
                Event::Call(args) => match self.route_of(Method::GetTransactionBlock) {
                    Route::Upstream => step == Step::<
                        (TransactionDigest, Option<SuiTransactionBlockResponseOptions>),
                        TransactionQuery,
                        U,
                        SuiTransactionBlockResponse,
                    >::Forward(args),
                    Route::Local => step matches Step::Query(TransactionQuery::Lookup(key)) && key@
                        == base58_text(args.0@),
                },
                Event::Upstream(reply) => step == Step::<
                    (TransactionDigest, Option<SuiTransactionBlockResponseOptions>),
                    TransactionQuery,
                    U,
                    SuiTransactionBlockResponse,
                >::Return(reply),
                Event::Store(reply) => step == spec_lift::<
                    (TransactionDigest, Option<SuiTransactionBlockResponseOptions>),
                    TransactionQuery,
                    U,
                    SuiTransactionBlockResponse,
                >(spec_transaction_reply(reply)),
            },
    {
        match event {
            Event::Call(args) => match self.route(Method::GetTransactionBlock) {
                Route::Upstream => Step::Forward(args),
                Route::Local => lift(
                    self.get_transaction_with_options_internal(LocalEvent::Call(args)),
                ),
            },
            Event::Upstream(reply) => Step::Return(reply),
            Event::Store(reply) => lift(
                self.get_transaction_with_options_internal(LocalEvent::Store(reply)),
            ),
        }
    }

    /// Looks several transactions up by their digests: the responses follow the
    /// order of the request, and the batch is answered whole or fails.
    pub fn multi_get_transaction_blocks<U>(
        &self,
        event: Event<
            (Vec<TransactionDigest>, Option<SuiTransactionBlockResponseOptions>),
            U,
            BatchReply,
        >,
    ) -> (step: Step<
        (Vec<TransactionDigest>, Option<SuiTransactionBlockResponseOptions>),
        BatchQuery,
        U,
        Vec<SuiTransactionBlockResponse>,
    >)
        ensures
            match event {
                Event::Call(args) => match self.route_of(Method::MultiGetTransactionBlocks) {
                    Route::Upstream => step == Step::<
                        (Vec<TransactionDigest>, Option<SuiTransactionBlockResponseOptions>),
                        BatchQuery,
                        U,
                        Vec<SuiTransactionBlockResponse>,
                    >::Forward(args),
                    Route::Local => step matches Step::Query(BatchQuery::Lookup(keys))
                        && keys.deep_view() == spec_digest_keys(args.0@),
                },
                Event::Upstream(reply) => step == Step::<
                    (Vec<TransactionDigest>, Option<SuiTransactionBlockResponseOptions>),
                    BatchQuery,
                    U,
                    Vec<SuiTransactionBlockResponse>,
                >::Return(reply),
                Event::Store(reply) => batch_reply_step(reply, step),
            },
    {
        match event {
            Event::Call(args) => match self.route(Method::MultiGetTransactionBlocks) {
                Route::Upstream => Step::Forward(args),
                Route::Local => lift(
                    self.multi_get_transactions_with_options_internal(LocalEvent::Call(args)),
                ),
            },
            Event::Upstream(reply) => Step::Return(reply),
            Event::Store(reply) => lift(
                self.multi_get_transactions_with_options_internal(LocalEvent::Store(reply)),
            ),
        }
    }

    /// Looks a past version of an object up. There is no local path.
    pub fn try_get_past_object<U>(
        &self,
        event: PassEvent<(ObjectID, u64, Option<SuiObjectDataOptions>), U>,
    ) -> (step: PassStep<(ObjectID, u64, Option<SuiObjectDataOptions>), U>)
        ensures
            step == spec_pass_through(event),
    {
        pass_through(event)
    }

    /// Looks past versions of several objects up. There is no local path.
    pub fn try_multi_get_past_objects<U>(
        &self,
        event: PassEvent<(Vec<SuiGetPastObjectRequest>, Option<SuiObjectDataOptions>), U>,
    ) -> (step: PassStep<(Vec<SuiGetPastObjectRequest>, Option<SuiObjectDataOptions>), U>)
        ensures
            step == spec_pass_through(event),
    {
        pass_through(event)
    }

    /// The sequence number of the latest checkpoint, in its wire form.
    pub fn get_latest_checkpoint_sequence_number<U>(
        &self,
        event: Event<(), U, Result<i64, IndexerError>>,
    ) -> (step: Step<(), (), U, WireInteger>)
        ensures
            match event {
                Event::Call(args) => step == spec_dispatch::<(), (), U, WireInteger>(
                    self.route_of(Method::GetLatestCheckpointSequenceNumber),
                    (),
                    (),
                ),
                Event::Upstream(reply) => step == Step::<(), (), U, WireInteger>::Return(reply),
                Event::Store(stored) => counter_step(stored, step),
            },
    {
        match event {
            Event::Call(_) => match self.route(Method::GetLatestCheckpointSequenceNumber) {
                Route::Upstream => Step::Forward(()),
                Route::Local => Step::Query(()),
            },
            Event::Upstream(reply) => Step::Return(reply),
            Event::Store(stored) => match self.get_latest_checkpoint_sequence_number_internal(
                stored,
            ) {
                Ok(latest) => Step::Respond(Ok(WireInteger::new(latest))),
                Err(error) => Step::Respond(Err(RpcError::from_indexer(error))),
            },
        }
    }

    /// Looks a checkpoint up. A checkpoint that the store does not hold is an
    /// empty answer, not a failure.
    pub fn get_checkpoint<U>(
        &self,
        event: Event<CheckpointId, U, Result<Option<Checkpoint>, IndexerError>>,
    ) -> (step: Step<CheckpointId, CheckpointId, U, Option<Checkpoint>>)
        ensures
            match event {
                Event::Call(id) => step == spec_dispatch::<_, _, U, Option<Checkpoint>>(
                    self.route_of(Method::GetCheckpoint),
                    id,
                    id,
                ),
                Event::Upstream(reply) => step == Step::<
                    CheckpointId,
                    CheckpointId,
                    U,
                    Option<Checkpoint>,
                >::Return(reply),
                Event::Store(found) => step == spec_lift::<
                    CheckpointId,
                    CheckpointId,
                    U,
                    Option<Checkpoint>,
                >(Progress::Done(found)),
            },
    {
        match event {
            Event::Call(id) => match self.route(Method::GetCheckpoint) {
                Route::Upstream => Step::Forward(id),
                Route::Local => Step::Query(id),
            },
            Event::Upstream(reply) => Step::Return(reply),
            Event::Store(found) => lift(Progress::Done(found)),
        }
    }

    /// Pages through the checkpoints. There is no local path.
    pub fn get_checkpoints<U>(&self, event: PassEvent<(Option<u64>, Option<usize>, bool), U>) -> (step:
        PassStep<(Option<u64>, Option<usize>, bool), U>)
        ensures
            step == spec_pass_through(event),
    {
        pass_through(event)
    }

    /// The events of a transaction. There is no local path.
    pub fn get_events<U>(&self, event: PassEvent<TransactionDigest, U>) -> (step: PassStep<
        TransactionDigest,
        U,
    >)
        ensures
            step == spec_pass_through(event),
    {
        pass_through(event)
    }
}

/// Pass-through transparency. Under a registry that does not list the name of
/// a method, the method is answered upstream: its operation forwards a call
/// with the arguments it came with, and hands upstream's reply back as it came.
pub proof fn lemma_unlisted_is_passed_through<S, C>(api: ReadApi<S, C>, method: Method)
    requires
        forall|name: Seq<char>|
            method.spec_migration_name() == Some(name) ==> !api.migrated().contains(name),
    ensures
        api.route_of(method) == Route::Upstream,
{
}

/// True where `step` answers the client with the counter `stored` in its wire
/// form: the decimal text of the number, or the failure of the read.
pub open spec fn counter_step<U>(stored: Result<i64, IndexerError>, step: Step<(), (), U, WireInteger>) -> bool {
    match spec_counter(stored) {
        Ok(n) => step matches Step::Respond(Ok(wire)) && wire@ == decimal_text(n as nat),
        Err(error) => step == Step::<(), (), U, WireInteger>::Respond(Err(spec_rpc_error(error))),
    }
}

/// True where `step` is the step of a batch lookup after the answer `reply` of
/// the store: the failure of a read as the caller sees it; the aligned rows to
/// compose, or an internal error where the rows are not consistent with the
/// request; every response, or the first failed composition.
pub open spec fn batch_reply_step<A, U>(
    reply: BatchReply,
    step: Step<A, BatchQuery, U, Vec<SuiTransactionBlockResponse>>,
) -> bool {
    match reply {
        BatchReply::Rows(_, Err(error), _) => step == Step::<
            A,
            BatchQuery,
            U,
            Vec<SuiTransactionBlockResponse>,
        >::Respond(Err(spec_rpc_error(error))),
        BatchReply::Rows(keys, Ok(rows), options) => if rows_consistent(keys.deep_view(), rows@) {
            &&& step matches Step::Query(BatchQuery::Compose(ordered, passed))
            &&& ordered@ == aligned(keys.deep_view(), rows@)
            &&& passed == options
        } else {
            &&& step matches Step::Respond(Err(RpcError::Internal(message)))
            &&& message@ == count_changed_message()
        },
        BatchReply::Composed(results, options) => match spec_join(
            results@,
            SuiTransactionBlockResponseOptions::spec_or_default(options),
        ) {
            Ok(responses) => step matches Step::Respond(Ok(list)) && list@ == responses,
            Err(error) => step == Step::<
                A,
                BatchQuery,
                U,
                Vec<SuiTransactionBlockResponse>,
            >::Respond(Err(spec_rpc_error(error))),
        },
    }
}

} // verus!
