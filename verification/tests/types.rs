use indexer_facade::base_types::{ObjectDigest, ObjectID, SuiAddress, TransactionDigest};
use indexer_facade::errors::{IndexerError, RpcError};
use indexer_facade::options::{SuiObjectDataOptions, SuiTransactionBlockResponseOptions};
use indexer_facade::types::{
    shown, ObjectRead, ObjectRef, Owner, StoredObject, StoredTransaction, SuiObjectData,
    SuiObjectResponse, SuiObjectResponseError, SuiTransactionBlockResponse,
    SuiTransactionBlockResponseWithOptions,
};

fn full() -> SuiTransactionBlockResponse {
    SuiTransactionBlockResponse {
        digest: TransactionDigest::new([9; 32]),
        transaction: Some("input".to_string()),
        raw_transaction: Some(vec![1, 2, 3]),
        effects: Some("effects".to_string()),
        events: Some("events".to_string()),
        object_changes: Some("object changes".to_string()),
        balance_changes: Some("balance changes".to_string()),
        timestamp_ms: Some(1234),
        checkpoint: Some(56),
    }
}

fn tx_options(bits: u8) -> SuiTransactionBlockResponseOptions {
    SuiTransactionBlockResponseOptions {
        show_input: bits & 1 != 0,
        show_raw_input: bits & 2 != 0,
        show_effects: bits & 4 != 0,
        show_events: bits & 8 != 0,
        show_object_changes: bits & 16 != 0,
        show_balance_changes: bits & 32 != 0,
    }
}

fn object() -> StoredObject {
    StoredObject {
        reference: ObjectRef {
            object_id: ObjectID([3; 32]),
            version: 11,
            digest: ObjectDigest([4; 32]),
        },
        type_: "0x2::coin::Coin<0x2::sui::SUI>".to_string(),
        owner: Owner::AddressOwner(SuiAddress([5; 32])),
        previous_transaction: TransactionDigest::new([6; 32]),
        storage_rebate: 77,
        display: "display".to_string(),
        content: "content".to_string(),
        bcs: vec![8, 9],
    }
}

fn object_options(bits: u8) -> SuiObjectDataOptions {
    SuiObjectDataOptions {
        show_type: bits & 1 != 0,
        show_owner: bits & 2 != 0,
        show_previous_transaction: bits & 4 != 0,
        show_display: bits & 8 != 0,
        show_content: bits & 16 != 0,
        show_bcs: bits & 32 != 0,
        show_storage_rebate: bits & 64 != 0,
    }
}

#[test]
fn default_options_show_nothing() {
    assert_eq!(SuiTransactionBlockResponseOptions::default(), tx_options(0));
    assert_eq!(SuiTransactionBlockResponseOptions::new(), tx_options(0));
    assert_eq!(SuiTransactionBlockResponseOptions::or_default(None), tx_options(0));
    assert_eq!(
        SuiTransactionBlockResponseOptions::or_default(Some(tx_options(5))),
        tx_options(5)
    );
    assert_eq!(SuiObjectDataOptions::default(), object_options(0));
    assert_eq!(SuiObjectDataOptions::new(), object_options(0));
    assert_eq!(SuiObjectDataOptions::or_default(None), object_options(0));
    assert_eq!(SuiObjectDataOptions::or_default(Some(object_options(9))), object_options(9));
}

#[test]
fn shown_keeps_a_part_only_under_a_set_flag() {
    assert_eq!(shown(true, Some(5)), Some(5));
    assert_eq!(shown(false, Some(5)), None);
    assert_eq!(shown(true, None::<u8>), None);
    assert_eq!(shown(false, None::<u8>), None);
}

#[test]
fn no_flag_leaves_only_what_no_flag_governs() {
    let shown_response = SuiTransactionBlockResponseWithOptions {
        response: full(),
        options: tx_options(0),
    }
    .into_response();
    assert_eq!(
        shown_response,
        SuiTransactionBlockResponse {
            digest: TransactionDigest::new([9; 32]),
            transaction: None,
            raw_transaction: None,
            effects: None,
            events: None,
            object_changes: None,
            balance_changes: None,
            timestamp_ms: Some(1234),
            checkpoint: Some(56),
        }
    );
}

#[test]
fn every_flag_leaves_the_response_as_composed() {
    let shown_response = SuiTransactionBlockResponseWithOptions {
        response: full(),
        options: tx_options(63),
    }
    .into_response();
    assert_eq!(shown_response, full());
}

#[test]
fn an_unset_flag_hides_its_part_under_every_combination() {
    for bits in 0u8..64 {
        let options = tx_options(bits);
        let shown_response = SuiTransactionBlockResponseWithOptions {
            response: full(),
            options,
        }
        .into_response();
        assert_eq!(shown_response.transaction.is_some(), options.show_input);
        assert_eq!(shown_response.raw_transaction.is_some(), options.show_raw_input);
        assert_eq!(shown_response.effects.is_some(), options.show_effects);
        assert_eq!(shown_response.events.is_some(), options.show_events);
        assert_eq!(shown_response.object_changes.is_some(), options.show_object_changes);
        assert_eq!(shown_response.balance_changes.is_some(), options.show_balance_changes);
        assert_eq!(shown_response.digest, full().digest);
        assert_eq!(shown_response.timestamp_ms, Some(1234));
        assert_eq!(shown_response.checkpoint, Some(56));
    }
}

#[test]
fn an_empty_part_is_not_an_absent_part() {
    let mut response = full();
    response.effects = Some(String::new());
    response.raw_transaction = Some(Vec::new());
    response.events = None;
    let shown_response = SuiTransactionBlockResponseWithOptions {
        response,
        options: tx_options(63),
    }
    .into_response();
    assert_eq!(shown_response.effects, Some(String::new()));
    assert_eq!(shown_response.raw_transaction, Some(Vec::new()));
    assert_eq!(shown_response.events, None);
}

#[test]
fn showing_twice_is_showing_once() {
    for bits in [0u8, 5, 42, 63] {
        let options = tx_options(bits);
        let once = SuiTransactionBlockResponseWithOptions {
            response: full(),
            options,
        }
        .into_response();
        let twice = SuiTransactionBlockResponseWithOptions {
            response: once.clone(),
            options,
        }
        .into_response();
        assert_eq!(twice, once);
    }
}

#[test]
fn object_without_flags_is_its_reference() {
    let data = SuiObjectData::compose(object(), object_options(0));
    assert_eq!(
        data,
        SuiObjectData {
            object_id: ObjectID([3; 32]),
            version: 11,
            digest: ObjectDigest([4; 32]),
            type_: None,
            owner: None,
            previous_transaction: None,
            storage_rebate: None,
            display: None,
            content: None,
            bcs: None,
        }
    );
}

#[test]
fn object_with_every_flag_shows_every_part() {
    let data = SuiObjectData::compose(object(), object_options(127));
    assert_eq!(
        data,
        SuiObjectData {
            object_id: ObjectID([3; 32]),
            version: 11,
            digest: ObjectDigest([4; 32]),
            type_: Some("0x2::coin::Coin<0x2::sui::SUI>".to_string()),
            owner: Some(Owner::AddressOwner(SuiAddress([5; 32]))),
            previous_transaction: Some(TransactionDigest::new([6; 32])),
            storage_rebate: Some(77),
            display: Some("display".to_string()),
            content: Some("content".to_string()),
            bcs: Some(vec![8, 9]),
        }
    );
}

#[test]
fn an_unset_object_flag_hides_its_part_under_every_combination() {
    for bits in 0u8..128 {
        let options = object_options(bits);
        let data = SuiObjectData::compose(object(), options);
        assert_eq!(data.type_.is_some(), options.show_type);
        assert_eq!(data.owner.is_some(), options.show_owner);
        assert_eq!(data.previous_transaction.is_some(), options.show_previous_transaction);
        assert_eq!(data.display.is_some(), options.show_display);
        assert_eq!(data.content.is_some(), options.show_content);
        assert_eq!(data.bcs.is_some(), options.show_bcs);
        assert_eq!(data.storage_rebate.is_some(), options.show_storage_rebate);
        assert_eq!(data.object_id, ObjectID([3; 32]));
        assert_eq!(data.version, 11);
    }
}

#[test]
fn a_missing_object_is_an_answer() {
    let response = SuiObjectResponse::compose(
        ObjectRead::NotExists(ObjectID([1; 32])),
        object_options(127),
    );
    assert_eq!(
        response,
        SuiObjectResponse {
            data: None,
            error: Some(SuiObjectResponseError::NotExists { object_id: ObjectID([1; 32]) }),
        }
    );
}

#[test]
fn a_deleted_object_is_an_answer() {
    let reference = ObjectRef {
        object_id: ObjectID([1; 32]),
        version: 4,
        digest: ObjectDigest([2; 32]),
    };
    let response = SuiObjectResponse::compose(ObjectRead::Deleted(reference), object_options(0));
    assert_eq!(
        response,
        SuiObjectResponse {
            data: None,
            error: Some(SuiObjectResponseError::Deleted {
                object_id: ObjectID([1; 32]),
                version: 4,
                digest: ObjectDigest([2; 32]),
            }),
        }
    );
}

#[test]
fn a_live_object_is_composed_under_the_options() {
    let response = SuiObjectResponse::compose(ObjectRead::Exists(object()), object_options(2));
    assert_eq!(response.error, None);
    assert_eq!(response.data, Some(SuiObjectData::compose(object(), object_options(2))));
    assert_eq!(
        response.data.unwrap().owner,
        Some(Owner::AddressOwner(SuiAddress([5; 32])))
    );
}

#[test]
fn duplicate_copies_every_field() {
    let row = StoredTransaction {
        transaction_digest: "key".to_string(),
        sender: "sender".to_string(),
        checkpoint_sequence_number: -3,
        timestamp_ms: 99,
        transaction_content: "content".to_string(),
        transaction_effects_content: "effects".to_string(),
    };
    assert_eq!(row.duplicate(), row);
    assert_eq!(row.clone(), row);
}

#[test]
fn only_a_bad_argument_is_the_callers_fault() {
    assert_eq!(
        RpcError::from_indexer(IndexerError::InvalidArgumentError("a".to_string())),
        RpcError::InvalidArgument("a".to_string())
    );
    assert_eq!(
        RpcError::from_indexer(IndexerError::NotFound("n".to_string())),
        RpcError::NotFound("n".to_string())
    );
    assert_eq!(
        RpcError::from_indexer(IndexerError::PostgresReadError("b".to_string())),
        RpcError::Internal("b".to_string())
    );
    assert_eq!(
        RpcError::from_indexer(IndexerError::SerdeError("c".to_string())),
        RpcError::Internal("c".to_string())
    );
    assert_eq!(
        RpcError::from_indexer(IndexerError::UncategorizedError("d".to_string())),
        RpcError::Internal("d".to_string())
    );
}

#[test]
fn base58_of_a_digest() {
    assert_eq!(
        TransactionDigest::new([0; 32]).base58_encode(),
        "11111111111111111111111111111111"
    );
    assert_eq!(
        TransactionDigest::new([1; 32]).base58_encode(),
        "4vJ9JU1bJJE96FWSJKvHsmmFADCg4gpZQff4P3bkLKi"
    );
    assert_eq!(
        TransactionDigest::new([255; 32]).base58_encode(),
        "JEKNVnkbo3jma5nREBBJCDoXFVeKkD56V3xKrvRmWxFG"
    );
    let mut last_one = [0u8; 32];
    last_one[31] = 1;
    assert_eq!(
        TransactionDigest::new(last_one).base58_encode(),
        "11111111111111111111111111111112"
    );
}
