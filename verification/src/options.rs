//! The flags by which a caller selects the optional parts of a response.
//! A flag that is not given counts as unset.

use vstd::prelude::*;

verus! {

/// Which optional parts of an object the caller asks for.
#[derive(Clone, Copy, Debug, PartialEq, Eq, Structural)]
pub struct SuiObjectDataOptions {
    pub show_type: bool,
    pub show_owner: bool,
    pub show_previous_transaction: bool,
    pub show_display: bool,
    pub show_content: bool,
    pub show_bcs: bool,
    pub show_storage_rebate: bool,
}

impl SuiObjectDataOptions {
    /// No optional part at all.
    pub open spec fn spec_default() -> Self {
        SuiObjectDataOptions {
            show_type: false,
            show_owner: false,
            show_previous_transaction: false,
            show_display: false,
            show_content: false,
            show_bcs: false,
            show_storage_rebate: false,
        }
    }

    /// The options that a caller means who gives none.
    pub open spec fn spec_or_default(options: Option<Self>) -> Self {
        match options {
            Some(given) => given,
            None => Self::spec_default(),
        }
    }

    pub fn new() -> (options: Self)
        ensures
            options == Self::spec_default(),
    {
        SuiObjectDataOptions {
            show_type: false,
            show_owner: false,
            show_previous_transaction: false,
            show_display: false,
            show_content: false,
            show_bcs: false,
            show_storage_rebate: false,
        }
    }

    pub fn or_default(options: Option<Self>) -> (chosen: Self)
        ensures
            chosen == Self::spec_or_default(options),
    {
        match options {
            Some(given) => given,
            None => Self::new(),
        }
    }
}

impl Default for SuiObjectDataOptions {
    fn default() -> (options: Self)
        ensures
            options == Self::spec_default(),
    {
        Self::new()
    }
}

/// Which optional parts of a transaction the caller asks for.
#[derive(Clone, Copy, Debug, PartialEq, Eq, Structural)]
pub struct SuiTransactionBlockResponseOptions {
    pub show_input: bool,
    pub show_raw_input: bool,
    pub show_effects: bool,
    pub show_events: bool,
    pub show_object_changes: bool,
    pub show_balance_changes: bool,
}

impl SuiTransactionBlockResponseOptions {
    /// No optional part at all.
    pub open spec fn spec_default() -> Self {
        SuiTransactionBlockResponseOptions {
            show_input: false,
            show_raw_input: false,
            show_effects: false,
            show_events: false,
            show_object_changes: false,
            show_balance_changes: false,
        }
    }

    /// The options that a caller means who gives none.
    pub open spec fn spec_or_default(options: Option<Self>) -> Self {
        match options {
            Some(given) => given,
            None => Self::spec_default(),
        }
    }

    pub fn new() -> (options: Self)
        ensures
            options == Self::spec_default(),
    {
        SuiTransactionBlockResponseOptions {
            show_input: false,
            show_raw_input: false,
            show_effects: false,
            show_events: false,
            show_object_changes: false,
            show_balance_changes: false,
        }
    }

    pub fn or_default(options: Option<Self>) -> (chosen: Self)
        ensures
            chosen == Self::spec_or_default(options),
    {
        match options {
            Some(given) => given,
            None => Self::new(),
        }
    }
}

impl Default for SuiTransactionBlockResponseOptions {
    fn default() -> (options: Self)
        ensures
            options == Self::spec_default(),
    {
        Self::new()
    }
}

} // verus!
