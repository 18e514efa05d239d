use indexer_facade::base_types::{CheckpointDigest, ObjectDigest, ObjectID, TransactionDigest};
use indexer_facade::errors::{IndexerError, RpcError};
use indexer_facade::options::{SuiObjectDataOptions, SuiTransactionBlockResponseOptions};
use indexer_facade::protocol::{Event, LocalEvent, PassEvent, PassStep, Progress, Step};
use indexer_facade::read_api::{
    unsigned, BatchQuery, BatchReply, ReadApi, TransactionQuery, TransactionReply,
};
use indexer_facade::registry::{Method, Route};
use indexer_facade::wire::WireInteger;
use indexer_facade::types::{
    Checkpoint, CheckpointId, ObjectRead, ObjectRef, StoredTransaction, SuiGetPastObjectRequest,
    SuiObjectResponse, SuiObjectResponseError, SuiTransactionBlockResponse,
};

/// What the upstream node answers in these tests: a text, or an error with its code.
type Upstream = Result<String, (i32, String)>;

fn api(migrated: &[&str]) -> ReadApi<&'static str, &'static str> {
    ReadApi::new("store", "fullnode", migrated.iter().map(|name| name.to_string()).collect())
}

const KEY_A: &str = "gBxS1f6uyyGPuW5MzGBukidSb71jdsCb5fZaoSzULE5";
const KEY_B: &str = "k7FaK87WHGVXzkaoHb7CdVPgkKDQhZ29VLDeBVbDfYn";
const KEY_C: &str = "p2Yicb86aZig616Eav2VWG9vuXR5mEqhtzshZYBxzsV";
const COUNT_CHANGED: &str = "Transaction count changed after reorder, this should never happen.";

fn digest_a() -> TransactionDigest {
    TransactionDigest::new([0xA; 32])
}

fn digest_b() -> TransactionDigest {
    TransactionDigest::new([0xB; 32])
}

fn digest_c() -> TransactionDigest {
    TransactionDigest::new([0xC; 32])
}

fn row(key: &str) -> StoredTransaction {
    StoredTransaction {
        transaction_digest: key.to_string(),
        sender: "sender".to_string(),
        checkpoint_sequence_number: 3,
        timestamp_ms: 1000,
        transaction_content: format!("content of {key}"),
        transaction_effects_content: format!("effects of {key}"),
    }
}

fn resp(digest: TransactionDigest) -> SuiTransactionBlockResponse {
    SuiTransactionBlockResponse {
        digest,
        transaction: Some("input".to_string()),
        raw_transaction: Some(vec![digest.0[0]]),
        effects: Some("effects".to_string()),
        events: Some("events".to_string()),
        object_changes: Some("object changes".to_string()),
        balance_changes: Some("balance changes".to_string()),
        timestamp_ms: Some(1000),
        checkpoint: Some(3),
    }
}

fn bare(digest: TransactionDigest) -> SuiTransactionBlockResponse {
    SuiTransactionBlockResponse {
        digest,
        transaction: None,
        raw_transaction: None,
        effects: None,
        events: None,
        object_changes: None,
        balance_changes: None,
        timestamp_ms: Some(1000),
        checkpoint: Some(3),
    }
}

fn show_all() -> SuiTransactionBlockResponseOptions {
    SuiTransactionBlockResponseOptions {
        show_input: true,
        show_raw_input: true,
        show_effects: true,
        show_events: true,
        show_object_changes: true,
        show_balance_changes: true,
    }
}

#[test]
fn new_keeps_its_collaborators_and_its_registry() {
    let facade = ReadApi::new(5u8, "client", vec!["get_checkpoint".to_string()]);
    assert_eq!(*facade.state(), 5u8);
    assert_eq!(*facade.fullnode(), "client");
    assert_eq!(facade.route(Method::GetCheckpoint), Route::Local);
    assert_eq!(facade.route(Method::GetObject), Route::Upstream);
    assert_eq!(facade.route(Method::GetEvents), Route::Upstream);
}

#[test]
fn unsigned_reads_the_bits_of_the_column() {
    assert_eq!(unsigned(0), 0);
    assert_eq!(unsigned(42), 42);
    assert_eq!(unsigned(i64::MAX), 9_223_372_036_854_775_807);
    assert_eq!(unsigned(-1), u64::MAX);
    assert_eq!(unsigned(-2), u64::MAX - 1);
    assert_eq!(unsigned(i64::MIN), 9_223_372_036_854_775_808);
}

#[test]
fn counters_of_the_store_are_handed_on() {
    let facade = api(&[]);
    assert_eq!(facade.get_total_transaction_number_internal(Ok(42)), Ok(42));
    assert_eq!(facade.get_total_transaction_number_internal(Ok(0)), Ok(0));
    assert_eq!(
        facade.get_total_transaction_number_internal(Err(IndexerError::PostgresReadError(
            "down".to_string()
        ))),
        Err(IndexerError::PostgresReadError("down".to_string()))
    );
    assert_eq!(facade.get_latest_checkpoint_sequence_number_internal(Ok(17)), Ok(17));
    assert_eq!(
        facade.get_latest_checkpoint_sequence_number_internal(Err(
            IndexerError::UncategorizedError("x".to_string())
        )),
        Err(IndexerError::UncategorizedError("x".to_string()))
    );
}

#[test]
fn total_transactions_not_migrated_is_upstreams_answer() {
    let facade = api(&[]);
    let step = facade.get_total_transaction_blocks::<Upstream>(Event::Call(()));
    assert_eq!(step, Step::Forward(()));
    let step = facade.get_total_transaction_blocks::<Upstream>(Event::Upstream(Ok("0".to_string())));
    assert_eq!(step, Step::Return(Ok("0".to_string())));
}

#[test]
fn total_transactions_migrated_is_the_stores_count_as_text() {
    let facade = api(&["get_total_transaction_number"]);
    let step = facade.get_total_transaction_blocks::<Upstream>(Event::Call(()));
    assert_eq!(step, Step::Query(()));
    let step = facade.get_total_transaction_blocks::<Upstream>(Event::Store(Ok(42)));
    assert_eq!(step, Step::Respond(Ok(WireInteger::new(42))));
    match step {
        Step::Respond(Ok(wire)) => assert_eq!(wire.as_str(), "42"),
        _ => panic!("the local path answers"),
    }
}

#[test]
fn total_transactions_above_two_to_the_53_keep_every_digit() {
    let facade = api(&["get_total_transaction_number"]);
    let step =
        facade.get_total_transaction_blocks::<Upstream>(Event::Store(Ok(9_007_199_254_740_993)));
    match step {
        Step::Respond(Ok(wire)) => assert_eq!(wire.into_string(), "9007199254740993"),
        _ => panic!("the local path answers"),
    }
}

#[test]
fn a_failed_count_is_an_internal_error() {
    let facade = api(&["get_total_transaction_number"]);
    let step = facade.get_total_transaction_blocks::<Upstream>(Event::Store(Err(
        IndexerError::PostgresReadError("down".to_string()),
    )));
    assert_eq!(step, Step::Respond(Err(RpcError::Internal("down".to_string()))));
}

#[test]
fn upstream_errors_pass_untouched() {
    let facade = api(&["get_total_transaction_number", "get_object_with_options"]);
    let failure: Upstream = Err((-32000, "upstream says no".to_string()));
    assert_eq!(
        facade.get_total_transaction_blocks::<Upstream>(Event::Upstream(failure.clone())),
        Step::Return(failure.clone())
    );
    assert_eq!(
        facade.get_object::<Upstream>(Event::Upstream(failure.clone())),
        Step::Return(failure.clone())
    );
    assert_eq!(
        facade.get_events::<Upstream>(PassEvent::Upstream(failure.clone())),
        PassStep::Return(failure)
    );
}

#[test]
fn latest_checkpoint_follows_the_registry() {
    let facade = api(&[]);
    assert_eq!(
        facade.get_latest_checkpoint_sequence_number::<Upstream>(Event::Call(())),
        Step::Forward(())
    );
    let facade = api(&["get_latest_checkpoint_sequence_number"]);
    assert_eq!(
        facade.get_latest_checkpoint_sequence_number::<Upstream>(Event::Call(())),
        Step::Query(())
    );
    assert_eq!(
        facade.get_latest_checkpoint_sequence_number::<Upstream>(Event::Store(Ok(1234))),
        Step::Respond(Ok(WireInteger::new(1234)))
    );
    assert_eq!(
        facade.get_latest_checkpoint_sequence_number::<Upstream>(Event::Store(Err(
            IndexerError::InvalidArgumentError("bad".to_string())
        ))),
        Step::Respond(Err(RpcError::InvalidArgument("bad".to_string())))
    );
}

#[test]
fn get_object_is_forwarded_with_its_arguments() {
    let facade = api(&["get_transaction"]);
    let options = SuiObjectDataOptions {
        show_type: true,
        show_owner: false,
        show_previous_transaction: true,
        show_display: false,
        show_content: true,
        show_bcs: false,
        show_storage_rebate: true,
    };
    let args = (ObjectID([7; 32]), Some(options));
    assert_eq!(facade.get_object::<Upstream>(Event::Call(args)), Step::Forward(args));
    let args = (ObjectID([8; 32]), None);
    assert_eq!(facade.get_object::<Upstream>(Event::Call(args)), Step::Forward(args));
}

#[test]
fn get_object_migrated_asks_the_store_and_composes() {
    let facade = api(&["get_object_with_options"]);
    let id = ObjectID([7; 32]);
    assert_eq!(facade.get_object::<Upstream>(Event::Call((id, None))), Step::Query((id, None)));
    let step = facade.get_object::<Upstream>(Event::Store((Ok(ObjectRead::NotExists(id)), None)));
    assert_eq!(
        step,
        Step::Respond(Ok(SuiObjectResponse {
            data: None,
            error: Some(SuiObjectResponseError::NotExists { object_id: id }),
        }))
    );
    let reference = ObjectRef { object_id: id, version: 2, digest: ObjectDigest([1; 32]) };
    let step =
        facade.get_object::<Upstream>(Event::Store((Ok(ObjectRead::Deleted(reference)), None)));
    assert_eq!(
        step,
        Step::Respond(Ok(SuiObjectResponse {
            data: None,
            error: Some(SuiObjectResponseError::Deleted {
                object_id: id,
                version: 2,
                digest: ObjectDigest([1; 32]),
            }),
        }))
    );
    let step = facade.get_object::<Upstream>(Event::Store((
        Err(IndexerError::PostgresReadError("down".to_string())),
        None,
    )));
    assert_eq!(step, Step::Respond(Err(RpcError::Internal("down".to_string()))));
}

#[test]
fn get_object_internal_uses_the_default_options() {
    let facade = api(&[]);
    let id = ObjectID([7; 32]);
    assert_eq!(
        facade.get_object_with_options_internal(Ok(ObjectRead::NotExists(id)), None),
        Ok(SuiObjectResponse {
            data: None,
            error: Some(SuiObjectResponseError::NotExists { object_id: id }),
        })
    );
    assert_eq!(
        facade.get_object_with_options_internal(
            Err(IndexerError::SerdeError("broken".to_string())),
            None
        ),
        Err(IndexerError::SerdeError("broken".to_string()))
    );
}

#[test]
fn get_checkpoint_follows_the_registry() {
    let id = CheckpointId::SequenceNumber(9);
    let facade = api(&[]);
    assert_eq!(facade.get_checkpoint::<Upstream>(Event::Call(id)), Step::Forward(id));
    let facade = api(&["get_checkpoint"]);
    assert_eq!(facade.get_checkpoint::<Upstream>(Event::Call(id)), Step::Query(id));
    let checkpoint = Checkpoint {
        epoch: 1,
        sequence_number: 9,
        digest: CheckpointDigest([2; 32]),
        network_total_transactions: 100,
        previous_digest: Some(CheckpointDigest([1; 32])),
        timestamp_ms: 5,
        transactions: vec![digest_a(), digest_b()],
    };
    assert_eq!(
        facade.get_checkpoint::<Upstream>(Event::Store(Ok(Some(checkpoint.clone())))),
        Step::Respond(Ok(Some(checkpoint)))
    );
    assert_eq!(
        facade.get_checkpoint::<Upstream>(Event::Store(Ok(None))),
        Step::Respond(Ok(None))
    );
    assert_eq!(
        facade.get_checkpoint::<Upstream>(Event::Store(Err(IndexerError::PostgresReadError(
            "down".to_string()
        )))),
        Step::Respond(Err(RpcError::Internal("down".to_string())))
    );
}

#[test]
fn get_transaction_block_is_forwarded_when_not_migrated() {
    let facade = api(&["multi_get_transactions_with_options"]);
    let args = (digest_a(), Some(show_all()));
    assert_eq!(facade.get_transaction_block::<Upstream>(Event::Call(args)), Step::Forward(args));
}

#[test]
fn get_transaction_block_local_path() {
    let facade = api(&["get_transaction"]);
    let step = facade.get_transaction_block::<Upstream>(Event::Call((digest_a(), None)));
    assert_eq!(step, Step::Query(TransactionQuery::Lookup(KEY_A.to_string())));

    let options = Some(SuiTransactionBlockResponseOptions {
        show_input: false,
        show_raw_input: false,
        show_effects: true,
        show_events: false,
        show_object_changes: false,
        show_balance_changes: false,
    });
    let step = facade
        .get_transaction_block::<Upstream>(Event::Store(TransactionReply::Row(Ok(row(KEY_A)), options)));
    assert_eq!(step, Step::Query(TransactionQuery::Compose(row(KEY_A), options)));

    let step = facade.get_transaction_block::<Upstream>(Event::Store(TransactionReply::Composed(
        Ok(resp(digest_a())),
        options,
    )));
    let mut expected = bare(digest_a());
    expected.effects = Some("effects".to_string());
    assert_eq!(step, Step::Respond(Ok(expected)));

    let step = facade.get_transaction_block::<Upstream>(Event::Store(TransactionReply::Composed(
        Ok(resp(digest_a())),
        None,
    )));
    assert_eq!(step, Step::Respond(Ok(bare(digest_a()))));
}

#[test]
fn get_transaction_block_failures_are_not_swallowed() {
    let facade = api(&["get_transaction"]);
    let step = facade.get_transaction_block::<Upstream>(Event::Store(TransactionReply::Row(
        Err(IndexerError::PostgresReadError("no row".to_string())),
        None,
    )));
    assert_eq!(step, Step::Respond(Err(RpcError::Internal("no row".to_string()))));
    let step = facade.get_transaction_block::<Upstream>(Event::Store(TransactionReply::Composed(
        Err(IndexerError::SerdeError("bad effects".to_string())),
        Some(show_all()),
    )));
    assert_eq!(step, Step::Respond(Err(RpcError::Internal("bad effects".to_string()))));
}

#[test]
fn transaction_internal_steps() {
    let facade = api(&[]);
    assert_eq!(
        facade.get_transaction_with_options_internal(LocalEvent::Call((digest_b(), None))),
        Progress::Query(TransactionQuery::Lookup(KEY_B.to_string()))
    );
    assert_eq!(
        facade.get_transaction_with_options_internal(LocalEvent::Store(TransactionReply::Row(
            Ok(row(KEY_B)),
            None
        ))),
        Progress::Query(TransactionQuery::Compose(row(KEY_B), None))
    );
    assert_eq!(
        facade.get_transaction_with_options_internal(LocalEvent::Store(
            TransactionReply::Composed(Ok(resp(digest_b())), Some(show_all()))
        )),
        Progress::Done(Ok(resp(digest_b())))
    );
}

#[test]
fn digest_keys_are_base58_texts_in_order() {
    let keys = ReadApi::<(), ()>::digest_keys(&vec![digest_c(), digest_a(), digest_b()]);
    assert_eq!(keys, vec![KEY_C.to_string(), KEY_A.to_string(), KEY_B.to_string()]);
    assert_eq!(ReadApi::<(), ()>::digest_keys(&Vec::new()), Vec::<String>::new());
}

#[test]
fn multi_get_is_forwarded_when_not_migrated() {
    let facade = api(&["get_transaction"]);
    let args = (vec![digest_a(), digest_b()], Some(show_all()));
    assert_eq!(
        facade.multi_get_transaction_blocks::<Upstream>(Event::Call(args.clone())),
        Step::Forward(args)
    );
}

#[test]
fn multi_get_with_one_digest_missing_keeps_the_order_of_the_request() {
    let facade = api(&["multi_get_transactions_with_options"]);
    let digests = vec![digest_a(), digest_b(), digest_c()];
    let options = Some(show_all());

    let step = facade.multi_get_transaction_blocks::<Upstream>(Event::Call((digests, options)));
    let keys = vec![KEY_A.to_string(), KEY_B.to_string(), KEY_C.to_string()];
    assert_eq!(step, Step::Query(BatchQuery::Lookup(keys.clone())));

    let stored = vec![row(KEY_C), row(KEY_B)];
    let step = facade.multi_get_transaction_blocks::<Upstream>(Event::Store(BatchReply::Rows(
        keys,
        Ok(stored),
        options,
    )));
    assert_eq!(step, Step::Query(BatchQuery::Compose(vec![row(KEY_B), row(KEY_C)], options)));

    let composed = vec![Ok(resp(digest_b())), Ok(resp(digest_c()))];
    let step = facade
        .multi_get_transaction_blocks::<Upstream>(Event::Store(BatchReply::Composed(composed, options)));
    assert_eq!(step, Step::Respond(Ok(vec![resp(digest_b()), resp(digest_c())])));
    assert_ne!(step, Step::Respond(Ok(vec![resp(digest_c()), resp(digest_b())])));
}

#[test]
fn multi_get_with_inconsistent_rows_is_an_internal_error() {
    let facade = api(&["multi_get_transactions_with_options"]);
    let keys = vec![KEY_A.to_string(), KEY_B.to_string()];
    let step = facade.multi_get_transaction_blocks::<Upstream>(Event::Store(BatchReply::Rows(
        keys.clone(),
        Ok(vec![row(KEY_B), row(KEY_C)]),
        None,
    )));
    assert_eq!(step, Step::Respond(Err(RpcError::Internal(COUNT_CHANGED.to_string()))));
    let step = facade.multi_get_transaction_blocks::<Upstream>(Event::Store(BatchReply::Rows(
        keys,
        Ok(vec![row(KEY_A), row(KEY_A)]),
        None,
    )));
    assert_eq!(step, Step::Respond(Err(RpcError::Internal(COUNT_CHANGED.to_string()))));
}

#[test]
fn multi_get_with_a_failed_read_fails() {
    let facade = api(&["multi_get_transactions_with_options"]);
    let step = facade.multi_get_transaction_blocks::<Upstream>(Event::Store(BatchReply::Rows(
        vec![KEY_A.to_string()],
        Err(IndexerError::PostgresReadError("down".to_string())),
        None,
    )));
    assert_eq!(step, Step::Respond(Err(RpcError::Internal("down".to_string()))));
}

#[test]
fn multi_get_with_one_failed_composition_returns_no_response() {
    let facade = api(&["multi_get_transactions_with_options"]);
    let composed = vec![
        Ok(resp(digest_a())),
        Err(IndexerError::SerdeError("bad events".to_string())),
        Ok(resp(digest_c())),
    ];
    let step = facade.multi_get_transaction_blocks::<Upstream>(Event::Store(BatchReply::Composed(
        composed,
        Some(show_all()),
    )));
    assert_eq!(step, Step::Respond(Err(RpcError::Internal("bad events".to_string()))));
}

#[test]
fn multi_get_shows_each_response_under_the_options() {
    let facade = api(&["multi_get_transactions_with_options"]);
    let composed = vec![Ok(resp(digest_a())), Ok(resp(digest_b()))];
    let step = facade
        .multi_get_transaction_blocks::<Upstream>(Event::Store(BatchReply::Composed(composed, None)));
    assert_eq!(step, Step::Respond(Ok(vec![bare(digest_a()), bare(digest_b())])));
}

#[test]
fn multi_get_of_no_digest_is_no_response() {
    let facade = api(&["multi_get_transactions_with_options"]);
    let step = facade.multi_get_transaction_blocks::<Upstream>(Event::Call((Vec::new(), None)));
    assert_eq!(step, Step::Query(BatchQuery::Lookup(Vec::new())));
    let step = facade.multi_get_transaction_blocks::<Upstream>(Event::Store(BatchReply::Rows(
        Vec::new(),
        Ok(Vec::new()),
        None,
    )));
    assert_eq!(step, Step::Query(BatchQuery::Compose(Vec::new(), None)));
    let step = facade
        .multi_get_transaction_blocks::<Upstream>(Event::Store(BatchReply::Composed(Vec::new(), None)));
    assert_eq!(step, Step::Respond(Ok(Vec::new())));
}

#[test]
fn batch_internal_steps() {
    let facade = api(&[]);
    assert_eq!(
        facade.multi_get_transactions_with_options_internal(LocalEvent::Call((
            vec![digest_b(), digest_a()],
            None
        ))),
        Progress::Query(BatchQuery::Lookup(vec![KEY_B.to_string(), KEY_A.to_string()]))
    );
    assert_eq!(
        facade.multi_get_transactions_with_options_internal(LocalEvent::Store(BatchReply::Rows(
            vec![KEY_B.to_string(), KEY_A.to_string()],
            Ok(vec![row(KEY_A), row(KEY_B)]),
            None
        ))),
        Progress::Query(BatchQuery::Compose(vec![row(KEY_B), row(KEY_A)], None))
    );
    assert_eq!(
        facade.multi_get_transactions_with_options_internal(LocalEvent::Store(BatchReply::Rows(
            vec![KEY_B.to_string()],
            Ok(vec![row(KEY_A), row(KEY_B)]),
            None
        ))),
        Progress::Done(Err(IndexerError::PostgresReadError(COUNT_CHANGED.to_string())))
    );
}

#[test]
fn the_forward_only_methods_ignore_the_registry() {
    let facade = api(&[
        "multi_get_objects",
        "try_get_past_object",
        "try_multi_get_past_objects",
        "get_checkpoints",
        "get_events",
        "get_object_with_options",
    ]);
    let ids = (vec![ObjectID([1; 32]), ObjectID([2; 32])], None);
    assert_eq!(
        facade.multi_get_objects::<Upstream>(PassEvent::Call(ids.clone())),
        PassStep::Forward(ids)
    );
    let past = (ObjectID([1; 32]), 5u64, None);
    assert_eq!(
        facade.try_get_past_object::<Upstream>(PassEvent::Call(past)),
        PassStep::Forward(past)
    );
    let many = (vec![SuiGetPastObjectRequest { object_id: ObjectID([1; 32]), version: 5 }], None);
    assert_eq!(
        facade.try_multi_get_past_objects::<Upstream>(PassEvent::Call(many.clone())),
        PassStep::Forward(many)
    );
    let page = (Some(10u64), Some(50usize), true);
    assert_eq!(
        facade.get_checkpoints::<Upstream>(PassEvent::Call(page)),
        PassStep::Forward(page)
    );
    assert_eq!(
        facade.get_events::<Upstream>(PassEvent::Call(digest_a())),
        PassStep::Forward(digest_a())
    );
    assert_eq!(
        facade.get_checkpoints::<Upstream>(PassEvent::Upstream(Ok("page".to_string()))),
        PassStep::Return(Ok("page".to_string()))
    );
}
