//! The records of the local store and the responses composed from them.
//!
//! The optional parts of a response are `Option`s: a part that the caller did not
//! ask for is `None`, which differs from a part that is there and empty.

use crate::base_types::{CheckpointDigest, ObjectDigest, ObjectID, SuiAddress, TransactionDigest};
use crate::options::{SuiObjectDataOptions, SuiTransactionBlockResponseOptions};
use vstd::prelude::*;

verus! {

/// A transaction as the local store files it, under its Base58 digest.
#[derive(Debug, PartialEq, Eq)]
pub struct StoredTransaction {
    pub transaction_digest: String,
    pub sender: String,
    pub checkpoint_sequence_number: i64,
    pub timestamp_ms: i64,
    pub transaction_content: String,
    pub transaction_effects_content: String,
}

impl StoredTransaction {
    /// A second copy of the record.
    pub fn duplicate(&self) -> (copy: Self)
        ensures
            copy == *self,
    {
        StoredTransaction {
            transaction_digest: self.transaction_digest.clone(),
            sender: self.sender.clone(),
            checkpoint_sequence_number: self.checkpoint_sequence_number,
            timestamp_ms: self.timestamp_ms,
            transaction_content: self.transaction_content.clone(),
            transaction_effects_content: self.transaction_effects_content.clone(),
        }
    }
}

impl Clone for StoredTransaction {
    fn clone(&self) -> (copy: Self)
        ensures
            copy == *self,
    {
        self.duplicate()
    }
}

/// A transaction as a caller receives it.
#[derive(Clone, Debug, PartialEq, Eq)]
pub struct SuiTransactionBlockResponse {
    pub digest: TransactionDigest,
    /// The transaction's input; under `show_input`.
    pub transaction: Option<String>,
    /// The serialised input; under `show_raw_input`.
    pub raw_transaction: Option<Vec<u8>>,
    /// Under `show_effects`.
    pub effects: Option<String>,
    /// Under `show_events`.
    pub events: Option<String>,
    /// Under `show_object_changes`.
    pub object_changes: Option<String>,
    /// Under `show_balance_changes`.
    pub balance_changes: Option<String>,
    pub timestamp_ms: Option<u64>,
    pub checkpoint: Option<u64>,
}

/// What `part` shows under a flag: itself where the flag is set, nothing where it is not.
pub open spec fn spec_shown<T>(flag: bool, part: Option<T>) -> Option<T> {
    if flag {
        part
    } else {
        None
    }
}

/// Keeps an optional part only where its flag is set.
pub fn shown<T>(flag: bool, part: Option<T>) -> (kept: Option<T>)
    ensures
        kept == spec_shown(flag, part),
{
    if flag {
        part
    } else {
        None
    }
}

/// A response together with the options under which it is to be shown.
#[derive(Clone, Debug, PartialEq, Eq)]
pub struct SuiTransactionBlockResponseWithOptions {
    pub response: SuiTransactionBlockResponse,
    pub options: SuiTransactionBlockResponseOptions,
}

impl SuiTransactionBlockResponseWithOptions {
    /// The response as the options show it: every part whose flag is unset is
    /// absent, every other part is as it was composed.
    pub open spec fn spec_into_response(self) -> SuiTransactionBlockResponse {
        SuiTransactionBlockResponse {
            digest: self.response.digest,
            transaction: spec_shown(self.options.show_input, self.response.transaction),
            raw_transaction: spec_shown(self.options.show_raw_input, self.response.raw_transaction),
            effects: spec_shown(self.options.show_effects, self.response.effects),
            events: spec_shown(self.options.show_events, self.response.events),
            object_changes: spec_shown(
                self.options.show_object_changes,
                self.response.object_changes,
            ),
            balance_changes: spec_shown(
                self.options.show_balance_changes,
                self.response.balance_changes,
            ),
            timestamp_ms: self.response.timestamp_ms,
            checkpoint: self.response.checkpoint,
        }
    }

    /// Applies the options to the composed response.
    pub fn into_response(self) -> (shown_response: SuiTransactionBlockResponse)
        ensures
            shown_response == self.spec_into_response(),
            !self.options.show_input ==> shown_response.transaction is None,
            !self.options.show_raw_input ==> shown_response.raw_transaction is None,
            !self.options.show_effects ==> shown_response.effects is None,
            !self.options.show_events ==> shown_response.events is None,
            !self.options.show_object_changes ==> shown_response.object_changes is None,
            !self.options.show_balance_changes ==> shown_response.balance_changes is None,
    {
        let response = self.response;
        let options = self.options;
        SuiTransactionBlockResponse {
            digest: response.digest,
            transaction: shown(options.show_input, response.transaction),
            raw_transaction: shown(options.show_raw_input, response.raw_transaction),
            effects: shown(options.show_effects, response.effects),
            events: shown(options.show_events, response.events),
            object_changes: shown(options.show_object_changes, response.object_changes),
            balance_changes: shown(options.show_balance_changes, response.balance_changes),
            timestamp_ms: response.timestamp_ms,
            checkpoint: response.checkpoint,
        }
    }
}

/// Option-gated suppression: a part whose flag is unset is absent from the
/// response that is shown, whatever was composed; every other part, and what
/// no flag governs, is as it was composed.
pub proof fn lemma_unset_flag_hides_part(
    response: SuiTransactionBlockResponse,
    options: SuiTransactionBlockResponseOptions,
)
    ensures
        ({
            let shown_response = (SuiTransactionBlockResponseWithOptions {
                response,
                options,
            }).spec_into_response();
            &&& !options.show_input ==> shown_response.transaction is None
            &&& !options.show_raw_input ==> shown_response.raw_transaction is None
            &&& !options.show_effects ==> shown_response.effects is None
            &&& !options.show_events ==> shown_response.events is None
            &&& !options.show_object_changes ==> shown_response.object_changes is None
            &&& !options.show_balance_changes ==> shown_response.balance_changes is None
            &&& options.show_input ==> shown_response.transaction == response.transaction
            &&& options.show_raw_input ==> shown_response.raw_transaction
                == response.raw_transaction
            &&& options.show_effects ==> shown_response.effects == response.effects
            &&& options.show_events ==> shown_response.events == response.events
            &&& options.show_object_changes ==> shown_response.object_changes
                == response.object_changes
            &&& options.show_balance_changes ==> shown_response.balance_changes
                == response.balance_changes
            &&& shown_response.digest == response.digest
            &&& shown_response.timestamp_ms == response.timestamp_ms
            &&& shown_response.checkpoint == response.checkpoint
        }),
{
}

/// Showing a response twice under the same options is showing it once.
pub proof fn lemma_showing_is_idempotent(
    response: SuiTransactionBlockResponse,
    options: SuiTransactionBlockResponseOptions,
)
    ensures
        ({
            let once = (SuiTransactionBlockResponseWithOptions {
                response,
                options,
            }).spec_into_response();
            (SuiTransactionBlockResponseWithOptions {
                response: once,
                options,
            }).spec_into_response() == once
        }),
{
}

/// Version, id and digest of one state of an object.
#[derive(Clone, Copy, Debug, PartialEq, Eq)]
pub struct ObjectRef {
    pub object_id: ObjectID,
    pub version: u64,
    pub digest: ObjectDigest,
}

/// Who may use an object.
#[derive(Clone, Copy, Debug, PartialEq, Eq)]
pub enum Owner {
    AddressOwner(SuiAddress),
    ObjectOwner(SuiAddress),
    Shared { initial_shared_version: u64 },
    Immutable,
}

/// An object as the local store files it.
#[derive(Clone, Debug, PartialEq, Eq)]
pub struct StoredObject {
    pub reference: ObjectRef,
    pub type_: String,
    pub owner: Owner,
    pub previous_transaction: TransactionDigest,
    pub storage_rebate: u64,
    pub display: String,
    pub content: String,
    pub bcs: Vec<u8>,
}

/// What the local store knows of an object id.
#[derive(Clone, Debug, PartialEq, Eq)]
pub enum ObjectRead {
    /// No object ever had this id.
    NotExists(ObjectID),
    /// The object is live.
    Exists(StoredObject),
    /// The object was deleted in this version.
    Deleted(ObjectRef),
}

/// An object as a caller receives it.
#[derive(Clone, Debug, PartialEq, Eq)]
pub struct SuiObjectData {
    pub object_id: ObjectID,
    pub version: u64,
    pub digest: ObjectDigest,
    /// Under `show_type`.
    pub type_: Option<String>,
    /// Under `show_owner`.
    pub owner: Option<Owner>,
    /// Under `show_previous_transaction`.
    pub previous_transaction: Option<TransactionDigest>,
    /// Under `show_storage_rebate`.
    pub storage_rebate: Option<u64>,
    /// Under `show_display`.
    pub display: Option<String>,
    /// Under `show_content`.
    pub content: Option<String>,
    /// Under `show_bcs`.
    pub bcs: Option<Vec<u8>>,
}

/// Why a response carries no object. Neither is an error of the call.
#[derive(Clone, Copy, Debug, PartialEq, Eq)]
pub enum SuiObjectResponseError {
    NotExists { object_id: ObjectID },
    Deleted { object_id: ObjectID, version: u64, digest: ObjectDigest },
}

/// The answer to an object lookup: the object, or why there is none.
#[derive(Clone, Debug, PartialEq, Eq)]
pub struct SuiObjectResponse {
    pub data: Option<SuiObjectData>,
    pub error: Option<SuiObjectResponseError>,
}

/// The live object `object` as `options` show it.
pub open spec fn spec_object_data(object: StoredObject, options: SuiObjectDataOptions)
    -> SuiObjectData {
    SuiObjectData {
        object_id: object.reference.object_id,
        version: object.reference.version,
        digest: object.reference.digest,
        type_: spec_shown(options.show_type, Some(object.type_)),
        owner: spec_shown(options.show_owner, Some(object.owner)),
        previous_transaction: spec_shown(
            options.show_previous_transaction,
            Some(object.previous_transaction),
        ),
        storage_rebate: spec_shown(options.show_storage_rebate, Some(object.storage_rebate)),
        display: spec_shown(options.show_display, Some(object.display)),
        content: spec_shown(options.show_content, Some(object.content)),
        bcs: spec_shown(options.show_bcs, Some(object.bcs)),
    }
}

/// The answer that the store's finding `read` makes under `options`.
pub open spec fn spec_object_response(read: ObjectRead, options: SuiObjectDataOptions)
    -> SuiObjectResponse {
    match read {
        ObjectRead::NotExists(object_id) => SuiObjectResponse {
            data: None,
            error: Some(SuiObjectResponseError::NotExists { object_id }),
        },
        ObjectRead::Exists(object) => SuiObjectResponse {
            data: Some(spec_object_data(object, options)),
            error: None,
        },
        ObjectRead::Deleted(reference) => SuiObjectResponse {
            data: None,
            error: Some(
                SuiObjectResponseError::Deleted {
                    object_id: reference.object_id,
                    version: reference.version,
                    digest: reference.digest,
                },
            ),
        },
    }
}

/// Option-gated suppression for objects: a part whose flag is unset is absent
/// from the composed object, though the store holds it.
pub proof fn lemma_unset_flag_hides_object_part(
    object: StoredObject,
    options: SuiObjectDataOptions,
)
    ensures
        ({
            let data = spec_object_data(object, options);
            &&& !options.show_type ==> data.type_ is None
            &&& !options.show_owner ==> data.owner is None
            &&& !options.show_previous_transaction ==> data.previous_transaction is None
            &&& !options.show_storage_rebate ==> data.storage_rebate is None
            &&& !options.show_display ==> data.display is None
            &&& !options.show_content ==> data.content is None
            &&& !options.show_bcs ==> data.bcs is None
        }),
{
}

impl SuiObjectData {
    /// Composes a live object under the caller's options.
    pub fn compose(object: StoredObject, options: SuiObjectDataOptions) -> (data: Self)
        ensures
            data == spec_object_data(object, options),
            !options.show_type ==> data.type_ is None,
            !options.show_owner ==> data.owner is None,
            !options.show_previous_transaction ==> data.previous_transaction is None,
            !options.show_storage_rebate ==> data.storage_rebate is None,
            !options.show_display ==> data.display is None,
            !options.show_content ==> data.content is None,
            !options.show_bcs ==> data.bcs is None,
    {
        SuiObjectData {
            object_id: object.reference.object_id,
            version: object.reference.version,
            digest: object.reference.digest,
            type_: shown(options.show_type, Some(object.type_)),
            owner: shown(options.show_owner, Some(object.owner)),
            previous_transaction: shown(
                options.show_previous_transaction,
                Some(object.previous_transaction),
            ),
            storage_rebate: shown(options.show_storage_rebate, Some(object.storage_rebate)),
            display: shown(options.show_display, Some(object.display)),
            content: shown(options.show_content, Some(object.content)),
            bcs: shown(options.show_bcs, Some(object.bcs)),
        }
    }
}

impl SuiObjectResponse {
    /// Composes the answer to an object lookup. An id without a live object
    /// gives an answer that says so, not an error.
    pub fn compose(read: ObjectRead, options: SuiObjectDataOptions) -> (response: Self)
        ensures
            response == spec_object_response(read, options),
    {
        match read {
            ObjectRead::NotExists(object_id) => SuiObjectResponse {
                data: None,
                error: Some(SuiObjectResponseError::NotExists { object_id }),
            },
            ObjectRead::Exists(object) => SuiObjectResponse {
                data: Some(SuiObjectData::compose(object, options)),
                error: None,
            },
            ObjectRead::Deleted(reference) => SuiObjectResponse {
                data: None,
                error: Some(
                    SuiObjectResponseError::Deleted {
                        object_id: reference.object_id,
                        version: reference.version,
                        digest: reference.digest,
                    },
                ),
            },
        }
    }
}

/// How a caller names a checkpoint.
#[derive(Clone, Copy, Debug, PartialEq, Eq)]
pub enum CheckpointId {
    SequenceNumber(u64),
    Digest(CheckpointDigest),
}

/// A checkpoint as the local store files it and as a caller receives it.
#[derive(Clone, Debug, PartialEq, Eq)]
pub struct Checkpoint {
    pub epoch: u64,
    pub sequence_number: u64,
    pub digest: CheckpointDigest,
    pub network_total_transactions: u64,
    pub previous_digest: Option<CheckpointDigest>,
    pub timestamp_ms: u64,
    pub transactions: Vec<TransactionDigest>,
}

/// One entry of a request for past versions of objects.
#[derive(Clone, Copy, Debug, PartialEq, Eq)]
pub struct SuiGetPastObjectRequest {
    pub object_id: ObjectID,
    pub version: u64,
}

} // verus!
