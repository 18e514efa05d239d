//! The read surface and the registry of the methods that the local store may answer.

use vstd::prelude::*;
use vstd::string::*;

verus! {

/// The operations of the read surface: a closed list.
#[derive(Clone, Copy, Debug, PartialEq, Eq, Hash, Structural)]
pub enum Method {
    GetObject,
    MultiGetObjects,
    GetTotalTransactionBlocks,
    GetTransactionBlock,
    MultiGetTransactionBlocks,
    TryGetPastObject,
    TryMultiGetPastObjects,
    GetLatestCheckpointSequenceNumber,
    GetCheckpoint,
    GetCheckpoints,
    GetEvents,
}

impl Method {
    /// The name under which the registry lists the method once the local store
    /// may answer it. A method without such a name has no local path: whatever
    /// the registry holds, it is forwarded.
    pub open spec fn spec_migration_name(self) -> Option<Seq<char>> {
        match self {
            Method::GetObject => Some("get_object_with_options"@),
            Method::GetTotalTransactionBlocks => Some("get_total_transaction_number"@),
            Method::GetTransactionBlock => Some("get_transaction"@),
            Method::MultiGetTransactionBlocks => Some("multi_get_transactions_with_options"@),
            Method::GetLatestCheckpointSequenceNumber => Some(
                "get_latest_checkpoint_sequence_number"@,
            ),
            Method::GetCheckpoint => Some("get_checkpoint"@),
            Method::MultiGetObjects => None,
            Method::TryGetPastObject => None,
            Method::TryMultiGetPastObjects => None,
            Method::GetCheckpoints => None,
            Method::GetEvents => None,
        }
    }

    /// True of the methods that are forwarded whatever the registry holds.
    pub open spec fn always_upstream(self) -> bool {
        self.spec_migration_name() is None
    }

    pub fn migration_name(self) -> (name: Option<&'static str>)
        ensures
            name is Some == self.spec_migration_name() is Some,
            name matches Some(text) ==> self.spec_migration_name() == Some(text@),
    {
        match self {
            Method::GetObject => Some("get_object_with_options"),
            Method::GetTotalTransactionBlocks => Some("get_total_transaction_number"),
            Method::GetTransactionBlock => Some("get_transaction"),
            Method::MultiGetTransactionBlocks => Some("multi_get_transactions_with_options"),
            Method::GetLatestCheckpointSequenceNumber => Some(
                "get_latest_checkpoint_sequence_number",
            ),
            Method::GetCheckpoint => Some("get_checkpoint"),
            Method::MultiGetObjects => None,
            Method::TryGetPastObject => None,
            Method::TryMultiGetPastObjects => None,
            Method::GetCheckpoints => None,
            Method::GetEvents => None,
        }
    }
}

/// The set of names that a list of method names holds.
pub open spec fn names_of(methods: Seq<String>) -> Set<Seq<char>> {
    Set::new(|name: Seq<char>| exists|i: int| 0 <= i < methods.len() && (#[trigger] methods[i])@ == name)
}

/// The names of the methods that are answered from the local store. It is made
/// once and never changed; membership is looked up at every call.
#[derive(Clone, Debug)]
pub struct MigrationRegistry {
    methods: Vec<String>,
}

impl View for MigrationRegistry {
    type V = Set<Seq<char>>;

    closed spec fn view(&self) -> Set<Seq<char>> {
        names_of(self.methods@)
    }
}

impl MigrationRegistry {
    /// The registry of the names in `methods`. A name may occur more than once
    /// and need not name a method of the surface.
    pub fn new(methods: Vec<String>) -> (registry: Self)
        ensures
            registry@ == names_of(methods@),
    {
        MigrationRegistry { methods }
    }

    /// True where `method` is listed. A name that is not listed, known or not,
    /// is not migrated.
    pub fn is_migrated(&self, method: &str) -> (migrated: bool)
        ensures
            migrated == self@.contains(method@),
    {
        let name = method.to_owned();
        let mut i: usize = 0;
        while i < self.methods.len()
            invariant
                i <= self.methods.len(),
                name@ == method@,
                forall|k: int| 0 <= k < i ==> (#[trigger] self.methods@[k])@ != method@,
            decreases self.methods.len() - i,
        {
            if self.methods[i] == name {
                return true;
            }
            i = i + 1;
        }
        false
    }
}

/// The entry of a method in the table by which calls are dispatched.
#[derive(Clone, Copy, Debug, PartialEq, Eq, Structural)]
pub enum Dispatch {
    /// The method is migrated: the local store answers.
    Local,
    /// The method is not migrated yet: the upstream node answers.
    Upstream,
    /// The method has no local path: the upstream node answers, whatever the
    /// registry lists.
    AlwaysUpstream,
}

/// The entry of `method` in the table that the registry `migrated` makes.
pub open spec fn spec_dispatch_entry(migrated: Set<Seq<char>>, method: Method) -> Dispatch {
    match method.spec_migration_name() {
        Some(name) => if migrated.contains(name) {
            Dispatch::Local
        } else {
            Dispatch::Upstream
        },
        None => Dispatch::AlwaysUpstream,
    }
}

/// The collaborator that answers a call.
#[derive(Clone, Copy, Debug, PartialEq, Eq, Structural)]
pub enum Route {
    /// The upstream node; the call is forwarded as it came.
    Upstream,
    /// The local store.
    Local,
}

/// Where a call of `method` goes under the registry `migrated`.
pub open spec fn spec_route(migrated: Set<Seq<char>>, method: Method) -> Route {
    match method.spec_migration_name() {
        Some(name) => if migrated.contains(name) {
            Route::Local
        } else {
            Route::Upstream
        },
        None => Route::Upstream,
    }
}

impl MigrationRegistry {
    /// The entry of `method` in the dispatch table.
    pub fn dispatch(&self, method: Method) -> (entry: Dispatch)
        ensures
            entry == spec_dispatch_entry(self@, method),
            (entry == Dispatch::Local) == (spec_route(self@, method) == Route::Local),
    {
        match method.migration_name() {
            Some(name) => if self.is_migrated(name) {
                Dispatch::Local
            } else {
                Dispatch::Upstream
            },
            None => Dispatch::AlwaysUpstream,
        }
    }

    /// Decides, for this one call, who answers `method`.
    pub fn route(&self, method: Method) -> (route: Route)
        ensures
            route == spec_route(self@, method),
    {
        match method.migration_name() {
            Some(name) => if self.is_migrated(name) {
                Route::Local
            } else {
                Route::Upstream
            },
            None => Route::Upstream,
        }
    }
}

/// Pass-through transparency, the decision: a method whose name the registry
/// does not list is answered upstream. A name that is no method's name does
/// not change where any method goes.
pub proof fn lemma_unlisted_method_goes_upstream(migrated: Set<Seq<char>>, method: Method)
    requires
        forall|name: Seq<char>|
            method.spec_migration_name() == Some(name) ==> !migrated.contains(name),
    ensures
        spec_route(migrated, method) == Route::Upstream,
{
}

/// A listed method is answered from the local store.
pub proof fn lemma_listed_method_goes_local(migrated: Set<Seq<char>>, method: Method)
    requires
        method.spec_migration_name() matches Some(name) && migrated.contains(name),
    ensures
        spec_route(migrated, method) == Route::Local,
{
}

/// No registry makes a method without a local path local.
pub proof fn lemma_always_upstream(migrated: Set<Seq<char>>, method: Method)
    requires
        method.always_upstream(),
    ensures
        spec_route(migrated, method) == Route::Upstream,
{
}

} // verus!
