//! The gas objects that exist when the network starts: which ids the accounts
//! of a configuration get, with which gas value, and in which order they are
//! listed.
//!
//! An id is planned once. An itemized object of an account is left out where a
//! range of an earlier account has taken its id; within the account the last
//! object of an id decides its value. An id of a range is left out where the
//! account has it already or a range has taken it. The objects of an account
//! are listed in the order of their ids.

use crate::base_types::{
    id_space, lemma_words, lemma_words_order, words_of, words_value, IdError, ObjectID, SuiAddress,
};
use crate::crypto::{get_key_pair_from_rng, spec_address, AccountKeyPair, ED25519_FLAG};
use crate::genesis_config::{AccountConfig, GenesisConfig, ObjectConfig, ObjectConfigRange};
use std::collections::BTreeMap;
use std::collections::BTreeSet;
use vstd::prelude::*;
use vstd::std_specs::btree::*;
use vstd::std_specs::cmp::OrdSpec;
use vstd::std_specs::iter::IteratorSpec;

verus! {

/// A gas object that exists when the network starts.
#[derive(Clone, Copy, Debug, PartialEq, Eq)]
pub struct GasObject {
    pub id: ObjectID,
    pub owner: SuiAddress,
    pub gas_value: u64,
}

/// The plan of the itemized objects of an account: the gas value of each id,
/// numbered as the id's bytes denote, where `taken` holds the ids that the
/// ranges of earlier accounts have taken.
pub open spec fn plan_itemized(objects: Seq<ObjectConfig>, taken: Set<nat>) -> Map<nat, u64>
    decreases objects.len(),
{
    if objects.len() == 0 {
        Map::empty()
    } else {
        let plan = plan_itemized(objects.drop_last(), taken);
        let object = objects.last();
        if taken.contains(object.object_id.value()) {
            plan
        } else {
            plan.insert(object.object_id.value(), object.gas_value)
        }
    }
}

/// True of the ids that a row of `count` ids from `first` on adds to `plan`:
/// those of the row that neither the plan nor `taken` holds.
pub open spec fn row_adds(
    plan: Map<nat, u64>,
    taken: Set<nat>,
    first: nat,
    count: nat,
    id: nat,
) -> bool {
    first <= id < first + count && !plan.contains_key(id) && !taken.contains(id)
}

/// The plan after a row of `count` ids from `first` on, each of the value `gas`.
pub open spec fn plan_after_row(
    plan: Map<nat, u64>,
    taken: Set<nat>,
    first: nat,
    count: nat,
    gas: u64,
) -> Map<nat, u64> {
    Map::new(
        |id: nat| plan.contains_key(id) || row_adds(plan, taken, first, count, id),
        |id: nat|
            if plan.contains_key(id) {
                plan[id]
            } else {
                gas
            },
    )
}

/// The taken ids after a row of `count` ids from `first` on.
pub open spec fn taken_after_row(plan: Map<nat, u64>, taken: Set<nat>, first: nat, count: nat) -> Set<
    nat,
> {
    Set::new(|id: nat| taken.contains(id) || row_adds(plan, taken, first, count, id))
}

/// The plan and the taken ids after the ranges `ranges`, one after the other.
pub open spec fn plan_ranges(
    plan: Map<nat, u64>,
    taken: Set<nat>,
    ranges: Seq<ObjectConfigRange>,
) -> (Map<nat, u64>, Set<nat>)
    decreases ranges.len(),
{
    if ranges.len() == 0 {
        (plan, taken)
    } else {
        let before = plan_ranges(plan, taken, ranges.drop_last());
        let range = ranges.last();
        (
            plan_after_row(
                before.0,
                before.1,
                range.offset.value(),
                range.count as nat,
                range.gas_value,
            ),
            taken_after_row(before.0, before.1, range.offset.value(), range.count as nat),
        )
    }
}

/// The ranges of an account; an account that names none has none.
pub open spec fn ranges_of(account: AccountConfig) -> Seq<ObjectConfigRange> {
    match account.gas_object_ranges {
        Some(ranges) => ranges@,
        None => Seq::empty(),
    }
}

/// The plan of an account and the taken ids behind it, where `taken` holds the
/// ids that were taken before it.
pub open spec fn plan_account(account: AccountConfig, taken: Set<nat>) -> (Map<nat, u64>, Set<nat>) {
    plan_ranges(plan_itemized(account.gas_objects@, taken), taken, ranges_of(account))
}

/// The ids that the ranges of the first `i` accounts have taken.
pub open spec fn taken_before(accounts: Seq<AccountConfig>, i: nat) -> Set<nat>
    decreases i,
{
    if i == 0 {
        Set::empty()
    } else {
        plan_account(accounts[i - 1], taken_before(accounts, (i - 1) as nat)).1
    }
}

/// The plan of account `i`.
pub open spec fn plan_of(accounts: Seq<AccountConfig>, i: int) -> Map<nat, u64> {
    plan_account(accounts[i], taken_before(accounts, i as nat)).0
}

/// True of a range that does not pass the last id.
pub open spec fn range_fits(range: ObjectConfigRange) -> bool {
    range.count == 0 || range.offset.value() + range.count - 1 < id_space()
}

/// True where every range of `ranges` fits.
pub open spec fn ranges_fit(ranges: Seq<ObjectConfigRange>) -> bool {
    forall|j: int| 0 <= j < ranges.len() ==> range_fits(#[trigger] ranges[j])
}

/// True where every range of every account fits.
pub open spec fn all_ranges_fit(accounts: Seq<AccountConfig>) -> bool {
    forall|i: int| 0 <= i < accounts.len() ==> ranges_fit(ranges_of(#[trigger] accounts[i]))
}

/// True where `objects` lists the plan `plan` for `owner`: every planned id
/// once, with its value, in the order of the ids.
pub open spec fn is_listing(objects: Seq<GasObject>, plan: Map<nat, u64>, owner: SuiAddress) -> bool {
    &&& forall|a: int, b: int|
        0 <= a < b < objects.len() ==> (#[trigger] objects[a]).id.value() < (
        #[trigger] objects[b]).id.value()
    &&& forall|a: int|
        0 <= a < objects.len() ==> {
            &&& (#[trigger] objects[a]).owner == owner
            &&& plan.contains_key(objects[a].id.value())
            &&& plan[objects[a].id.value()] == objects[a].gas_value
        }
    &&& forall|id: nat| #[trigger]
        plan.contains_key(id) ==> exists|a: int|
            0 <= a < objects.len() && (#[trigger] objects[a]).id.value() == id
}

/// No id is listed twice for an account, and two objects of a listing with
/// the same id are the same object.
pub proof fn lemma_listing_ids_differ(
    objects: Seq<GasObject>,
    plan: Map<nat, u64>,
    owner: SuiAddress,
    a: int,
    b: int,
)
    requires
        is_listing(objects, plan, owner),
        0 <= a < objects.len(),
        0 <= b < objects.len(),
        a != b,
    ensures
        objects[a].id.value() != objects[b].id.value(),
        objects[a].id != objects[b].id,
{
    if a < b {
        assert(objects[a].id.value() < objects[b].id.value());
    } else {
        assert(objects[b].id.value() < objects[a].id.value());
    }
}

/// True where `cuts` cuts `objects` into the listings of the accounts: the
/// objects from `cuts[i]` up to `cuts[i + 1]` list the plan of account `i` for
/// `owners[i]`.
pub open spec fn cuts_preload(
    cuts: Seq<int>,
    objects: Seq<GasObject>,
    accounts: Seq<AccountConfig>,
    owners: Seq<SuiAddress>,
) -> bool {
    &&& cuts.len() == accounts.len() + 1
    &&& cuts[0] == 0
    &&& cuts[accounts.len() as int] == objects.len()
    &&& forall|i: int|
        0 <= i < accounts.len() ==> 0 <= #[trigger] cuts[i] <= cuts[i + 1] <= objects.len()
            && is_listing(objects.subrange(cuts[i], cuts[i + 1]), plan_of(accounts, i), owners[i])
}

/// True where `objects` is the preload of `accounts` for `owners`: the
/// listings of the accounts, one after the other.
#[verifier::opaque]
pub open spec fn is_preload(
    objects: Seq<GasObject>,
    accounts: Seq<AccountConfig>,
    owners: Seq<SuiAddress>,
) -> bool {
    exists|cuts: Seq<int>| cuts_preload(cuts, objects, accounts, owners)
}

/// True where the ordered map `map` holds the plan `plan`: an entry under the
/// two words of each planned id, with the id and its value.
#[verifier::opaque]
spec fn map_holds(map: Map<(u128, u128), (ObjectID, u64)>, plan: Map<nat, u64>) -> bool {
    &&& forall|key: (u128, u128)| #[trigger]
        map.contains_key(key) ==> {
            &&& plan.contains_key(words_value(key))
            &&& plan[words_value(key)] == map[key].1
            &&& map[key].0.value() == words_value(key)
        }
    &&& forall|id: nat| #[trigger]
        plan.contains_key(id) ==> id < id_space() && map.contains_key(words_of(id))
}

/// True where the ordered set `set` holds the ids `taken`, each as its two words.
#[verifier::opaque]
spec fn set_holds(set: Set<(u128, u128)>, taken: Set<nat>) -> bool {
    &&& forall|key: (u128, u128)| #[trigger] set.contains(key) ==> taken.contains(words_value(key))
    &&& forall|id: nat| #[trigger] taken.contains(id) ==> id < id_space() && set.contains(
        words_of(id),
    )
}

/// Pairs of 128-bit words are ordered as the standard library orders tuples.
proof fn lemma_key_order()
    ensures
        vstd::laws_cmp::obeys_cmp::<(u128, u128)>(),
        key_obeys_cmp_spec::<(u128, u128)>(),
{
    broadcast use vstd::laws_cmp::group_laws_cmp;
    broadcast use vstd::std_specs::btree::group_btree_axioms;

}

/// Keys that an ordered map hands out in its order are ordered by their numbers.
proof fn lemma_increasing_keys(keys: Seq<(u128, u128)>)
    requires
        increasing_seq(keys),
    ensures
        forall|i: int, j: int|
            0 <= i < j < keys.len() ==> words_value(#[trigger] keys[i]) < words_value(
                #[trigger] keys[j],
            ),
{
    broadcast use vstd::laws_cmp::group_laws_cmp;
    broadcast use vstd::std_specs::btree::group_btree_axioms;

    lemma_key_order();
    axiom_increasing_seq_meaning::<(u128, u128)>(keys);
    assert forall|i: int, j: int| 0 <= i < j < keys.len() implies words_value(
        #[trigger] keys[i],
    ) < words_value(#[trigger] keys[j]) by {
        assert(keys[i].cmp_spec(&keys[j]) is Less);
        lemma_words_order(keys[i], keys[j]);
    }
}

/// True where the plan holds `id`.
fn plan_contains(
    map: &BTreeMap<(u128, u128), (ObjectID, u64)>,
    id: &ObjectID,
    Ghost(plan): Ghost<Map<nat, u64>>,
) -> (held: bool)
    requires
        map_holds(map@, plan),
    ensures
        held == plan.contains_key(id.value()),
{
    let key = id.to_words();
    proof {
        reveal(map_holds);
        lemma_key_order();
        lemma_words(key, id.value());
    }
    let held = map.contains_key(&key);
    proof {
        broadcast use vstd::std_specs::btree::group_btree_axioms;

        assert(held == map@.contains_key(key));
    }
    held
}

/// Plans `id` with the value `gas`; an earlier value of the id is replaced.
fn plan_insert(
    map: &mut BTreeMap<(u128, u128), (ObjectID, u64)>,
    id: ObjectID,
    gas: u64,
    Ghost(plan): Ghost<Map<nat, u64>>,
)
    requires
        map_holds(old(map)@, plan),
    ensures
        map_holds(final(map)@, plan.insert(id.value(), gas)),
{
    let key = id.to_words();
    proof {
        reveal(map_holds);
        lemma_key_order();
    }
    map.insert(key, (id, gas));
    proof {
        let after = plan.insert(id.value(), gas);
        assert forall|other: (u128, u128)| #[trigger] map@.contains_key(other) implies {
            &&& after.contains_key(words_value(other))
            &&& after[words_value(other)] == map@[other].1
            &&& map@[other].0.value() == words_value(other)
        } by {
            lemma_words_order(other, key);
            if other != key {
                assert(old(map)@.contains_key(other));
            }
        }
        assert forall|number: nat| #[trigger] after.contains_key(number) implies number
            < id_space() && map@.contains_key(words_of(number)) by {
            lemma_words(key, number);
            if number != id.value() {
                assert(plan.contains_key(number));
            }
        }
    }
}

/// True where `taken` holds `id`.
fn taken_contains(set: &BTreeSet<(u128, u128)>, id: &ObjectID, Ghost(taken): Ghost<Set<nat>>) -> (held:
    bool)
    requires
        set_holds(set@, taken),
    ensures
        held == taken.contains(id.value()),
{
    let key = id.to_words();
    proof {
        reveal(set_holds);
        lemma_key_order();
        lemma_words(key, id.value());
    }
    let held = set.contains(&key);
    proof {
        broadcast use vstd::std_specs::btree::group_btree_axioms;

        assert(held == set@.contains(key));
    }
    held
}

/// Takes `id`.
fn taken_insert(set: &mut BTreeSet<(u128, u128)>, id: ObjectID, Ghost(taken): Ghost<Set<nat>>)
    requires
        set_holds(old(set)@, taken),
    ensures
        set_holds(final(set)@, taken.insert(id.value())),
{
    let key = id.to_words();
    proof {
        reveal(set_holds);
        lemma_key_order();
    }
    set.insert(key);
    proof {
        let after = taken.insert(id.value());
        assert forall|other: (u128, u128)| #[trigger] set@.contains(other) implies after.contains(
            words_value(other),
        ) by {
            if other != key {
                assert(old(set)@.contains(other));
            }
        }
        assert forall|number: nat| #[trigger] after.contains(number) implies number < id_space()
            && set@.contains(words_of(number)) by {
            lemma_words(key, number);
            if number != id.value() {
                assert(taken.contains(number));
            }
        }
    }
}

/// The empty map holds the empty plan, the empty set holds no id.
proof fn lemma_nothing_planned()
    ensures
        map_holds(Map::empty(), Map::empty()),
        set_holds(Set::empty(), Set::empty()),
{
    reveal(map_holds);
    reveal(set_holds);
}

/// Plans the itemized objects of an account.
fn add_itemized(
    objects: &Vec<ObjectConfig>,
    set: &BTreeSet<(u128, u128)>,
    Ghost(taken): Ghost<Set<nat>>,
) -> (map: BTreeMap<(u128, u128), (ObjectID, u64)>)
    requires
        set_holds(set@, taken),
    ensures
        map_holds(map@, plan_itemized(objects@, taken)),
{
    let mut map: BTreeMap<(u128, u128), (ObjectID, u64)> = BTreeMap::new();
    let mut i: usize = 0;
    proof {
        lemma_nothing_planned();
        assert(objects@.take(0) =~= Seq::<ObjectConfig>::empty());
    }
    while i < objects.len()
        invariant
            i <= objects.len(),
            set_holds(set@, taken),
            map_holds(map@, plan_itemized(objects@.take(i as int), taken)),
        decreases objects.len() - i,
    {
        let object = objects[i];
        proof {
            assert(objects@.take(i + 1).drop_last() =~= objects@.take(i as int));
            assert(objects@.take(i + 1).last() == object);
        }
        if !taken_contains(set, &object.object_id, Ghost(taken)) {
            plan_insert(
                &mut map,
                object.object_id,
                object.gas_value,
                Ghost(plan_itemized(objects@.take(i as int), taken)),
            );
        }
        i = i + 1;
    }
    assert(objects@.take(objects.len() as int) =~= objects@);
    map
}

/// A row of no id changes nothing.
proof fn lemma_row_start(plan: Map<nat, u64>, taken: Set<nat>, first: nat, gas: u64)
    ensures
        plan_after_row(plan, taken, first, 0, gas) == plan,
        taken_after_row(plan, taken, first, 0) == taken,
{
    assert(plan_after_row(plan, taken, first, 0, gas) =~= plan);
    assert(taken_after_row(plan, taken, first, 0) =~= taken);
}

/// A row that is longer by one id adds that id where it is free, and nothing else.
proof fn lemma_row_step(plan: Map<nat, u64>, taken: Set<nat>, first: nat, k: nat, gas: u64)
    ensures
        ({
            let id = first + k;
            let plan_now = plan_after_row(plan, taken, first, k, gas);
            let taken_now = taken_after_row(plan, taken, first, k);
            let free = !plan_now.contains_key(id) && !taken_now.contains(id);
            &&& free ==> plan_after_row(plan, taken, first, k + 1, gas) == plan_now.insert(id, gas)
            &&& free ==> taken_after_row(plan, taken, first, k + 1) == taken_now.insert(id)
            &&& !free ==> plan_after_row(plan, taken, first, k + 1, gas) == plan_now
            &&& !free ==> taken_after_row(plan, taken, first, k + 1) == taken_now
        }),
{
    let id = first + k;
    let plan_now = plan_after_row(plan, taken, first, k, gas);
    let taken_now = taken_after_row(plan, taken, first, k);
    let plan_next = plan_after_row(plan, taken, first, k + 1, gas);
    let taken_next = taken_after_row(plan, taken, first, k + 1);
    if !plan_now.contains_key(id) && !taken_now.contains(id) {
        assert(plan_next =~= plan_now.insert(id, gas));
        assert(taken_next =~= taken_now.insert(id));
    } else {
        assert(plan_next =~= plan_now);
        assert(taken_next =~= taken_now);
    }
}

/// Plans a row of ids.
fn add_row(
    map: &mut BTreeMap<(u128, u128), (ObjectID, u64)>,
    set: &mut BTreeSet<(u128, u128)>,
    range: &ObjectConfigRange,
    Ghost(plan): Ghost<Map<nat, u64>>,
    Ghost(taken): Ghost<Set<nat>>,
) -> (outcome: Result<(), IdError>)
    requires
        map_holds(old(map)@, plan),
        set_holds(old(set)@, taken),
    ensures
        outcome is Ok == range_fits(*range),
        outcome is Ok ==> map_holds(
            final(map)@,
            plan_after_row(plan, taken, range.offset.value(), range.count as nat, range.gas_value),
        ),
        outcome is Ok ==> set_holds(
            final(set)@,
            taken_after_row(plan, taken, range.offset.value(), range.count as nat),
        ),
{
    let ids = match ObjectID::in_range(range.offset, range.count) {
        Ok(ids) => ids,
        Err(error) => {
            return Err(error);
        },
    };
    let ghost first = range.offset.value();
    let gas = range.gas_value;
    let mut k: usize = 0;
    proof {
        lemma_row_start(plan, taken, first, gas);
    }
    while k < ids.len()
        invariant
            k <= ids.len(),
            ids.len() == range.count,
            first == range.offset.value(),
            gas == range.gas_value,
            forall|i: int| 0 <= i < ids.len() ==> (#[trigger] ids@[i]).value() == first + i,
            map_holds(map@, plan_after_row(plan, taken, first, k as nat, gas)),
            set_holds(set@, taken_after_row(plan, taken, first, k as nat)),
        decreases ids.len() - k,
    {
        let id = ids[k];
        let ghost plan_now = plan_after_row(plan, taken, first, k as nat, gas);
        let ghost taken_now = taken_after_row(plan, taken, first, k as nat);
        proof {
            assert(id.value() == first + k);
            lemma_row_step(plan, taken, first, k as nat, gas);
        }
        if !plan_contains(map, &id, Ghost(plan_now)) && !taken_contains(set, &id, Ghost(taken_now)) {
            plan_insert(map, id, gas, Ghost(plan_now));
            taken_insert(set, id, Ghost(taken_now));
        }
        k = k + 1;
    }
    Ok(())
}

/// Plans the ranges of an account, one after the other.
fn add_ranges(
    map: &mut BTreeMap<(u128, u128), (ObjectID, u64)>,
    set: &mut BTreeSet<(u128, u128)>,
    ranges: &Vec<ObjectConfigRange>,
    Ghost(plan): Ghost<Map<nat, u64>>,
    Ghost(taken): Ghost<Set<nat>>,
) -> (outcome: Result<(), IdError>)
    requires
        map_holds(old(map)@, plan),
        set_holds(old(set)@, taken),
    ensures
        outcome is Ok == ranges_fit(ranges@),
        outcome is Ok ==> map_holds(final(map)@, plan_ranges(plan, taken, ranges@).0),
        outcome is Ok ==> set_holds(final(set)@, plan_ranges(plan, taken, ranges@).1),
{
    let mut j: usize = 0;
    assert(ranges@.take(0) =~= Seq::<ObjectConfigRange>::empty());
    while j < ranges.len()
        invariant
            j <= ranges.len(),
            ranges_fit(ranges@.take(j as int)),
            map_holds(map@, plan_ranges(plan, taken, ranges@.take(j as int)).0),
            set_holds(set@, plan_ranges(plan, taken, ranges@.take(j as int)).1),
        decreases ranges.len() - j,
    {
        let ghost before = plan_ranges(plan, taken, ranges@.take(j as int));
        proof {
            assert(ranges@.take(j + 1).drop_last() =~= ranges@.take(j as int));
            assert(ranges@.take(j + 1).last() == ranges@[j as int]);
        }
        match add_row(map, set, &ranges[j], Ghost(before.0), Ghost(before.1)) {
            Ok(()) => {},
            Err(error) => {
                assert(!range_fits(ranges@[j as int]));
                return Err(error);
            },
        }
        proof {
            assert forall|i: int| 0 <= i < j + 1 implies range_fits(
                #[trigger] ranges@.take(j + 1)[i],
            ) by {
                if i < j {
                    assert(ranges@.take(j as int)[i] == ranges@.take(j + 1)[i]);
                }
            }
        }
        j = j + 1;
    }
    assert(ranges@.take(ranges.len() as int) =~= ranges@);
    Ok(())
}

/// Lists a plan for its owner, behind the objects that are listed already.
fn list_plan(
    map: &BTreeMap<(u128, u128), (ObjectID, u64)>,
    owner: SuiAddress,
    objects: &mut Vec<GasObject>,
    Ghost(plan): Ghost<Map<nat, u64>>,
)
    requires
        map_holds(map@, plan),
    ensures
        final(objects)@.len() >= old(objects)@.len(),
        final(objects)@.subrange(0, old(objects)@.len() as int) == old(objects)@,
        is_listing(
            final(objects)@.subrange(old(objects)@.len() as int, final(objects)@.len() as int),
            plan,
            owner,
        ),
{
    proof {
        reveal(map_holds);
        lemma_key_order();
        broadcast use vstd::std_specs::btree::group_btree_axioms;

    }
    let ghost start = objects@.len() as int;
    let entries = map.iter();
    let ghost all = entries.remaining();
    for entry in it: entries
        invariant
            it.seq() == all,
            start == old(objects)@.len(),
            objects@.len() == start + it.index(),
            objects@.subrange(0, start) == old(objects)@,
            forall|a: int|
                0 <= a < it.index() ==> {
                    &&& (#[trigger] objects@[start + a]).id == (*all[a].1).0
                    &&& objects@[start + a].gas_value == (*all[a].1).1
                    &&& objects@[start + a].owner == owner
                },
    {
        let ghost before = objects@;
        let (_, planned) = entry;
        objects.push(GasObject { id: planned.0, owner, gas_value: planned.1 });
        proof {
            assert(objects@.subrange(0, start) =~= before.subrange(0, start));
            assert forall|a: int| 0 <= a < it.index() + 1 implies {
                &&& (#[trigger] objects@[start + a]).id == (*all[a].1).0
                &&& objects@[start + a].gas_value == (*all[a].1).1
                &&& objects@[start + a].owner == owner
            } by {
                if a < it.index() {
                    assert(objects@[start + a] == before[start + a]);
                }
            }
        }
    }
    proof {
        let listed = objects@.subrange(start, objects@.len() as int);
        let keys = all.map_values(|entry: (&(u128, u128), &(ObjectID, u64))| *entry.0);
        lemma_increasing_keys(keys);
        assert forall|a: int| 0 <= a < listed.len() implies {
            &&& (#[trigger] listed[a]).owner == owner
            &&& plan.contains_key(listed[a].id.value())
            &&& plan[listed[a].id.value()] == listed[a].gas_value
            &&& listed[a].id.value() == words_value(keys[a])
        } by {
            assert(listed[a] == objects@[start + a]);
            assert(map@.contains_key(*all[a].0));
            assert(map@[*all[a].0] == *all[a].1);
            assert(keys[a] == *all[a].0);
        }
        assert forall|a: int, b: int| 0 <= a < b < listed.len() implies (
        #[trigger] listed[a]).id.value() < (#[trigger] listed[b]).id.value() by {
            assert(words_value(keys[a]) < words_value(keys[b]));
        }
        assert forall|id: nat| #[trigger] plan.contains_key(id) implies exists|a: int|
            0 <= a < listed.len() && (#[trigger] listed[a]).id.value() == id by {
            let key = words_of(id);
            lemma_words(key, id);
            assert(map@.contains_key(key));
            assert(all.contains((&key, &map@[key])));
            let a = choose|a: int| 0 <= a < all.len() && all[a] == (&key, &map@[key]);
            assert(keys[a] == key);
            assert(listed[a].id.value() == id);
        }
    }
}

/// The number of accounts without an address among the first `i` accounts.
pub open spec fn fresh_before(accounts: Seq<AccountConfig>, i: nat) -> nat
    decreases i,
{
    if i == 0 {
        0
    } else if accounts[i - 1].address is None {
        fresh_before(accounts, (i - 1) as nat) + 1
    } else {
        fresh_before(accounts, (i - 1) as nat)
    }
}

/// True where `owners` are the owners of the accounts and `keys` the keys
/// that were made for them: an account with an address is owned by it; an
/// account without one is owned by the address of a key of its own, and the
/// keys stand in the order of these accounts.
pub open spec fn is_ownership(
    accounts: Seq<AccountConfig>,
    keys: Seq<AccountKeyPair>,
    owners: Seq<SuiAddress>,
) -> bool {
    &&& owners.len() == accounts.len()
    &&& keys.len() == fresh_before(accounts, accounts.len())
    &&& forall|i: int|
        0 <= i < accounts.len() ==> match (#[trigger] accounts[i]).address {
            Some(address) => owners[i] == address,
            None => {
                let key = keys[fresh_before(accounts, i as nat) as int];
                &&& fresh_before(accounts, i as nat) < keys.len()
                &&& key.wf()
                &&& owners[i].0@ == spec_address(ED25519_FLAG, key.public@)
            },
        }
}

/// True where `keys` and `objects` are what the accounts start with: for some
/// owners of the accounts, the keys that were made for them and the preload
/// of the accounts.
pub open spec fn is_generated(
    accounts: Seq<AccountConfig>,
    keys: Seq<AccountKeyPair>,
    objects: Seq<GasObject>,
) -> bool {
    exists|owners: Seq<SuiAddress>|
        #![trigger is_ownership(accounts, keys, owners)]
        is_ownership(accounts, keys, owners) && is_preload(objects, accounts, owners)
}

impl GenesisConfig {
    /// The owners of the accounts. An account without an address gets a fresh
    /// key, drawn from `rng`, and is owned by the address of that key; the
    /// keys are handed out in the order of these accounts.
    pub fn account_owners(&self, rng: &mut rand::rngs::StdRng) -> (made: (
        Vec<AccountKeyPair>,
        Vec<SuiAddress>,
    ))
        ensures
            is_ownership(self.accounts@, made.0@, made.1@),
    {
        let mut keys: Vec<AccountKeyPair> = Vec::new();
        let mut owners: Vec<SuiAddress> = Vec::new();
        let mut i: usize = 0;
        while i < self.accounts.len()
            invariant
                i <= self.accounts.len(),
                owners@.len() == i,
                keys@.len() == fresh_before(self.accounts@, i as nat),
                forall|k: int|
                    0 <= k < i ==> match (#[trigger] self.accounts@[k]).address {
                        Some(address) => owners@[k] == address,
                        None => {
                            let key = keys@[fresh_before(self.accounts@, k as nat) as int];
                            &&& fresh_before(self.accounts@, k as nat) < keys@.len()
                            &&& key.wf()
                            &&& owners@[k].0@ == spec_address(ED25519_FLAG, key.public@)
                        },
                    },
            decreases self.accounts.len() - i,
        {
            let ghost keys_before = keys@;
            let ghost owners_before = owners@;
            match self.accounts[i].address {
                Some(address) => {
                    owners.push(address);
                },
                None => {
                    let (address, key) = get_key_pair_from_rng(rng);
                    keys.push(key);
                    owners.push(address);
                },
            }
            proof {
                lemma_fresh_before_grows(self.accounts@, i as nat);
                assert forall|k: int| 0 <= k < i + 1 implies match (
                #[trigger] self.accounts@[k]).address {
                    Some(address) => owners@[k] == address,
                    None => {
                        let key = keys@[fresh_before(self.accounts@, k as nat) as int];
                        &&& fresh_before(self.accounts@, k as nat) < keys@.len()
                        &&& key.wf()
                        &&& owners@[k].0@ == spec_address(ED25519_FLAG, key.public@)
                    },
                } by {
                    if k < i {
                        assert(owners@[k] == owners_before[k]);
                        if self.accounts@[k].address is None {
                            let rank = fresh_before(self.accounts@, k as nat) as int;
                            assert(rank < keys_before.len());
                            assert(keys@[rank] == keys_before[rank]);
                        }
                    }
                }
            }
            i = i + 1;
        }
        (keys, owners)
    }

    /// The gas objects that exist at the start, for the owners `owners` of the
    /// accounts: the listing of each account's plan, account after account.
    ///
    /// It fails where a range of an account passes the last id, and only there.
    pub fn preload_objects(&self, owners: &Vec<SuiAddress>) -> (result: Result<
        Vec<GasObject>,
        IdError,
    >)
        requires
            owners@.len() == self.accounts@.len(),
        ensures
            result is Ok == all_ranges_fit(self.accounts@),
            result matches Ok(objects) ==> is_preload(objects@, self.accounts@, owners@),
    {
        let mut set: BTreeSet<(u128, u128)> = BTreeSet::new();
        let mut objects: Vec<GasObject> = Vec::new();
        let ghost mut cuts: Seq<int> = seq![0int];
        let mut i: usize = 0;
        proof {
            lemma_nothing_planned();
        }
        while i < self.accounts.len()
            invariant
                i <= self.accounts.len(),
                owners@.len() == self.accounts@.len(),
                set_holds(set@, taken_before(self.accounts@, i as nat)),
                cuts.len() == i + 1,
                cuts[0] == 0,
                cuts[i as int] == objects@.len(),
                forall|j: int| 0 <= j < i ==> ranges_fit(ranges_of(#[trigger] self.accounts@[j])),
                forall|j: int|
                    0 <= j < i ==> 0 <= #[trigger] cuts[j] <= cuts[j + 1] <= objects@.len()
                        && is_listing(
                        objects@.subrange(cuts[j], cuts[j + 1]),
                        plan_of(self.accounts@, j),
                        owners@[j],
                    ),
            decreases self.accounts.len() - i,
        {
            let account = &self.accounts[i];
            let ghost taken = taken_before(self.accounts@, i as nat);
            let ghost itemized = plan_itemized(account.gas_objects@, taken);
            let mut map = add_itemized(&account.gas_objects, &set, Ghost(taken));
            match &account.gas_object_ranges {
                Some(ranges) => {
                    match add_ranges(&mut map, &mut set, ranges, Ghost(itemized), Ghost(taken)) {
                        Ok(()) => {},
                        Err(error) => {
                            assert(!ranges_fit(ranges_of(self.accounts@[i as int])));
                            return Err(error);
                        },
                    }
                },
                None => {
                    assert(ranges_of(*account).len() == 0);
                },
            }
            let ghost before = objects@;
            let ghost cuts_before = cuts;
            list_plan(&map, owners[i], &mut objects, Ghost(plan_of(self.accounts@, i as int)));
            proof {
                cuts = cuts.push(objects@.len() as int);
                assert forall|j: int| 0 <= j < i + 1 implies 0 <= #[trigger] cuts[j] <= cuts[j
                    + 1] <= objects@.len() && is_listing(
                    objects@.subrange(cuts[j], cuts[j + 1]),
                    plan_of(self.accounts@, j),
                    owners@[j],
                ) by {
                    if j < i {
                        assert(cuts[j] == cuts_before[j]);
                        assert(cuts[j + 1] == cuts_before[j + 1]);
                        assert(objects@.subrange(cuts[j], cuts[j + 1]) =~= objects@.subrange(
                            0,
                            before.len() as int,
                        ).subrange(cuts[j], cuts[j + 1]));
                    } else {
                        assert(cuts[j] == before.len());
                    }
                }
            }
            i = i + 1;
        }
        proof {
            reveal(is_preload);
            assert(cuts_preload(cuts, objects@, self.accounts@, owners@));
        }
        Ok(objects)
    }

    /// The keys and the gas objects with which the accounts start.
    ///
    /// An account without an address gets a fresh key, drawn from `rng`; the
    /// keys are returned in the order of these accounts. The objects are the
    /// listing of each account's plan for its owner, account after account.
    /// It fails where a range of an account passes the last id, and only there.
    pub fn generate_accounts(&self, rng: &mut rand::rngs::StdRng) -> (result: Result<
        (Vec<AccountKeyPair>, Vec<GasObject>),
        IdError,
    >)
        ensures
            result is Ok == all_ranges_fit(self.accounts@),
            result matches Ok(made) ==> is_generated(self.accounts@, made.0@, made.1@),
    {
        let (keys, owners) = self.account_owners(rng);
        match self.preload_objects(&owners) {
            Ok(objects) => {
                let ghost witness = owners@;
                let made = (keys, objects);
                assert(is_ownership(self.accounts@, made.0@, witness) && is_preload(
                    made.1@,
                    self.accounts@,
                    witness,
                ));
                Ok(made)
            },
            Err(error) => Err(error),
        }
    }
}

/// Counting one account more counts it where it has no address.
proof fn lemma_fresh_before_grows(accounts: Seq<AccountConfig>, i: nat)
    ensures
        fresh_before(accounts, i + 1) == fresh_before(accounts, i) + if accounts[i as int].address
            is None {
            1nat
        } else {
            0nat
        },
        forall|k: nat| k <= i ==> fresh_before(accounts, k) <= fresh_before(accounts, i),
    decreases i,
{
    if i > 0 {
        lemma_fresh_before_grows(accounts, (i - 1) as nat);
    }
}

} // verus!
