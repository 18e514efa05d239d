//! Batch lookups: the rows that the store returns for a set of keys are put
//! back into the order in which the caller asked, and the batch is answered
//! whole or not at all.

use crate::errors::IndexerError;
use crate::options::SuiTransactionBlockResponseOptions;
use crate::types::{
    StoredTransaction, SuiTransactionBlockResponse, SuiTransactionBlockResponseWithOptions,
};
use vstd::prelude::*;

verus! {

/// True where `rows` holds a record filed under `key`.
pub open spec fn has_row(rows: Seq<StoredTransaction>, key: Seq<char>) -> bool {
    exists|i: int| 0 <= i < rows.len() && (#[trigger] rows[i]).transaction_digest@ == key
}

/// True where `rows[i]` is the first record filed under `key`.
pub open spec fn is_first_row(rows: Seq<StoredTransaction>, key: Seq<char>, i: int) -> bool {
    &&& 0 <= i < rows.len()
    &&& rows[i].transaction_digest@ == key
    &&& forall|j: int| 0 <= j < i ==> (#[trigger] rows[j]).transaction_digest@ != key
}

/// The first record filed under `key`, where there is one.
pub open spec fn find_row(rows: Seq<StoredTransaction>, key: Seq<char>) -> Option<
    StoredTransaction,
> {
    if has_row(rows, key) {
        Some(rows[choose|i: int| is_first_row(rows, key, i)])
    } else {
        None
    }
}

/// The records of the requested keys in the order of the request: one for each
/// position of `keys` whose key has a record, none for the others.
pub open spec fn aligned(keys: Seq<Seq<char>>, rows: Seq<StoredTransaction>) -> Seq<
    StoredTransaction,
> {
    keys.filter_map(|key: Seq<char>| find_row(rows, key))
}

/// Looks `key` up among the rows that the store returned.
pub fn find_transaction<'a>(rows: &'a Vec<StoredTransaction>, key: &String) -> (found: Option<
    &'a StoredTransaction,
>)
    ensures
        found is Some == has_row(rows@, key@),
        found matches Some(row) ==> find_row(rows@, key@) == Some(*row),
{
    let mut i: usize = 0;
    while i < rows.len()
        invariant
            i <= rows.len(),
            forall|j: int| 0 <= j < i ==> (#[trigger] rows@[j]).transaction_digest@ != key@,
        decreases rows.len() - i,
    {
        if rows[i].transaction_digest == *key {
            proof {
                assert(is_first_row(rows@, key@, i as int));
                let c = choose|c: int| is_first_row(rows@, key@, c);
                assert(c == i) by {
                    if c < i {
                        assert(rows@[c].transaction_digest@ != key@);
                    }
                    if i < c {
                        assert(rows@[i as int].transaction_digest@ != key@);
                    }
                }
            }
            return Some(&rows[i]);
        }
        i = i + 1;
    }
    None
}

/// Puts the rows into the order of the request (see `aligned`).
pub fn reorder_transactions(keys: &Vec<String>, rows: &Vec<StoredTransaction>) -> (ordered: Vec<
    StoredTransaction,
>)
    ensures
        ordered@ == aligned(keys.deep_view(), rows@),
{
    let ghost pick = |key: Seq<char>| find_row(rows@, key);
    let ghost wanted = keys.deep_view();
    let mut ordered: Vec<StoredTransaction> = Vec::new();
    let mut i: usize = 0;
    assert(wanted.take(0).filter_map(pick) =~= Seq::<StoredTransaction>::empty());
    while i < keys.len()
        invariant
            i <= keys.len(),
            wanted == keys.deep_view(),
            wanted.len() == keys.len(),
            pick == |key: Seq<char>| find_row(rows@, key),
            ordered@ == wanted.take(i as int).filter_map(pick),
        decreases keys.len() - i,
    {
        proof {
            wanted.lemma_filter_map_take_succ(pick, i as int);
            assert(wanted[i as int] == keys@[i as int]@);
        }
        match find_transaction(rows, &keys[i]) {
            Some(row) => {
                ordered.push(row.duplicate());
                assert(ordered@ =~= wanted.take(i as int).filter_map(pick) + seq![*row]);
            },
            None => {
                assert(ordered@ =~= wanted.take(i as int).filter_map(pick)
                    + Seq::<StoredTransaction>::empty());
            },
        }
        i = i + 1;
    }
    assert(wanted.take(keys.len() as int) =~= wanted);
    ordered
}

/// The message of the failure that a batch with inconsistent rows ends in.
pub open spec fn count_changed_message() -> Seq<char> {
    "Transaction count changed after reorder, this should never happen."@
}

/// True where the rows are consistent with the request: the store returned as
/// many rows as the lookup of each requested key finds.
pub open spec fn rows_consistent(keys: Seq<Seq<char>>, rows: Seq<StoredTransaction>) -> bool {
    aligned(keys, rows).len() == rows.len()
}

/// Aligns the rows of a batch with the request, or fails the whole batch.
///
/// The rows come back in the order of the request. Where their number differs
/// from the number of rows that the store returned, the batch fails with a read
/// error and no row is handed out.
pub fn align_transactions(keys: &Vec<String>, rows: Vec<StoredTransaction>) -> (result: Result<
    Vec<StoredTransaction>,
    IndexerError,
>)
    ensures
        result is Ok == rows_consistent(keys.deep_view(), rows@),
        result matches Ok(ordered) ==> ordered@ == aligned(keys.deep_view(), rows@),
        result matches Err(error) ==> error matches IndexerError::PostgresReadError(message)
            && message@ == count_changed_message(),
{
    let ordered = reorder_transactions(keys, &rows);
    if ordered.len() != rows.len() {
        return Err(
            IndexerError::PostgresReadError(
                "Transaction count changed after reorder, this should never happen.".to_owned(),
            ),
        );
    }
    Ok(ordered)
}

/// What a batch of compositions comes to under `options`: the first failure in
/// the order of the request where one failed, else every response, each as the
/// options show it.
pub open spec fn spec_join(
    results: Seq<Result<SuiTransactionBlockResponse, IndexerError>>,
    options: SuiTransactionBlockResponseOptions,
) -> Result<Seq<SuiTransactionBlockResponse>, IndexerError>
    decreases results.len(),
{
    if results.len() == 0 {
        Ok(Seq::empty())
    } else {
        match spec_join(results.drop_last(), options) {
            Err(error) => Err(error),
            Ok(head) => match results.last() {
                Err(error) => Err(error),
                Ok(response) => Ok(
                    head.push(
                        (SuiTransactionBlockResponseWithOptions {
                            response,
                            options,
                        }).spec_into_response(),
                    ),
                ),
            },
        }
    }
}

/// Joins the compositions of a batch: all of them, or the first failure.
pub fn join_composed(
    results: Vec<Result<SuiTransactionBlockResponse, IndexerError>>,
    options: SuiTransactionBlockResponseOptions,
) -> (joined: Result<Vec<SuiTransactionBlockResponse>, IndexerError>)
    ensures
        match spec_join(results@, options) {
            Ok(responses) => joined matches Ok(list) && list@ == responses,
            Err(error) => joined == Err::<Vec<SuiTransactionBlockResponse>, IndexerError>(error),
        },
{
    let ghost all = results@;
    let mut responses: Vec<SuiTransactionBlockResponse> = Vec::new();
    assert(all.take(0) =~= Seq::empty());
    for item in it: results
        invariant
            it.seq() == all,
            spec_join(all.take(it.index() as int), options) == Ok::<
                Seq<SuiTransactionBlockResponse>,
                IndexerError,
            >(responses@),
    {
        proof {
            let k = it.index() as int;
            assert(all.take(k + 1).drop_last() =~= all.take(k));
            assert(all.take(k + 1).last() == item);
        }
        match item {
            Err(error) => {
                proof {
                    lemma_join_fails_for_good(all, options, it.index() as int + 1);
                }
                return Err(error);
            },
            Ok(response) => {
                let shown = (SuiTransactionBlockResponseWithOptions {
                    response,
                    options,
                }).into_response();
                responses.push(shown);
            },
        }
    }
    assert(all.take(all.len() as int) =~= all);
    Ok(responses)
}

/// Once a prefix of the batch has failed, the batch fails with that failure.
proof fn lemma_join_fails_for_good(
    results: Seq<Result<SuiTransactionBlockResponse, IndexerError>>,
    options: SuiTransactionBlockResponseOptions,
    k: int,
)
    requires
        0 <= k <= results.len(),
        spec_join(results.take(k), options) is Err,
    ensures
        spec_join(results, options) == spec_join(results.take(k), options),
    decreases results.len() - k,
{
    if k == results.len() {
        assert(results.take(k) =~= results);
    } else {
        assert(results.take(k + 1).drop_last() =~= results.take(k));
        lemma_join_fails_for_good(results, options, k + 1);
    }
}

/// True where `results[k]` is the first composition that failed.
pub open spec fn is_first_failure(
    results: Seq<Result<SuiTransactionBlockResponse, IndexerError>>,
    k: int,
) -> bool {
    &&& 0 <= k < results.len()
    &&& results[k] is Err
    &&& forall|j: int| 0 <= j < k ==> (#[trigger] results[j]) is Ok
}

/// All or nothing. A batch whose compositions all succeeded comes to as many
/// responses, in the same order, each as the options show it; a batch with a
/// failed composition comes to the first failure and to no response.
pub proof fn lemma_join_all_or_nothing(
    results: Seq<Result<SuiTransactionBlockResponse, IndexerError>>,
    options: SuiTransactionBlockResponseOptions,
)
    ensures
        match spec_join(results, options) {
            Ok(list) => {
                &&& list.len() == results.len()
                &&& forall|i: int|
                    0 <= i < results.len() ==> ((#[trigger] results[i]) matches Ok(response)
                        && list[i] == (SuiTransactionBlockResponseWithOptions {
                        response,
                        options,
                    }).spec_into_response())
            },
            Err(error) => exists|k: int|
                is_first_failure(results, k) && results[k] == Err::<
                    SuiTransactionBlockResponse,
                    IndexerError,
                >(error),
        },
    decreases results.len(),
{
    if results.len() > 0 {
        let head = results.drop_last();
        lemma_join_all_or_nothing(head, options);
        match spec_join(head, options) {
            Ok(list) => {
                match results.last() {
                    Ok(response) => {
                        let shown = (SuiTransactionBlockResponseWithOptions {
                            response,
                            options,
                        }).spec_into_response();
                        let whole = list.push(shown);
                        assert(spec_join(results, options) == Ok::<
                            Seq<SuiTransactionBlockResponse>,
                            IndexerError,
                        >(whole));
                        assert forall|i: int| 0 <= i < results.len() implies ((
                        #[trigger] results[i]) matches Ok(response) && whole[i] == (
                        SuiTransactionBlockResponseWithOptions {
                            response,
                            options,
                        }).spec_into_response()) by {
                            if i < head.len() {
                                assert(results[i] == head[i]);
                                assert(whole[i] == list[i]);
                            }
                        }
                    },
                    Err(error) => {
                        assert forall|j: int| 0 <= j < results.len() - 1 implies (
                        #[trigger] results[j]) is Ok by {
                            assert(results[j] == head[j]);
                        }
                        assert(is_first_failure(results, results.len() - 1));
                    },
                }
            },
            Err(error) => {
                let k = choose|k: int|
                    is_first_failure(head, k) && head[k] == Err::<
                        SuiTransactionBlockResponse,
                        IndexerError,
                    >(error);
                assert forall|j: int| 0 <= j < k implies (#[trigger] results[j]) is Ok by {
                    assert(results[j] == head[j]);
                }
                assert(results[k] == head[k]);
                assert(is_first_failure(results, k));
            },
        }
    }
}

/// The requested keys that have a record among `rows`, in the order of the request.
pub open spec fn present_keys(keys: Seq<Seq<char>>, rows: Seq<StoredTransaction>) -> Seq<
    Seq<char>,
> {
    keys.filter(|key: Seq<char>| has_row(rows, key))
}

/// True where no two rows are filed under the same key.
pub open spec fn rows_distinct(rows: Seq<StoredTransaction>) -> bool {
    forall|i: int, j: int|
        0 <= i < j < rows.len() ==> (#[trigger] rows[i]).transaction_digest@ != (
        #[trigger] rows[j]).transaction_digest@
}

/// The aligned rows follow the requested keys that have a record, position by
/// position: the row at position `i` is the record of the `i`-th such key.
pub proof fn lemma_aligned_follows_request(keys: Seq<Seq<char>>, rows: Seq<StoredTransaction>)
    ensures
        aligned(keys, rows).len() == present_keys(keys, rows).len(),
        forall|i: int|
            0 <= i < aligned(keys, rows).len() ==> {
                &&& (#[trigger] aligned(keys, rows)[i]).transaction_digest@ == present_keys(
                    keys,
                    rows,
                )[i]
                &&& find_row(rows, present_keys(keys, rows)[i]) == Some(aligned(keys, rows)[i])
                &&& rows.contains(aligned(keys, rows)[i])
            },
    decreases keys.len(),
{
    reveal(Seq::filter);
    let pick = |key: Seq<char>| find_row(rows, key);
    let pred = |key: Seq<char>| has_row(rows, key);
    if keys.len() > 0 {
        let head = keys.drop_last();
        let key = keys.last();
        lemma_aligned_follows_request(head, rows);
        assert(aligned(head, rows) == head.filter_map(pick));
        assert(present_keys(head, rows) == head.filter(pred));
        if has_row(rows, key) {
            let c = choose|c: int| is_first_row(rows, key, c);
            lemma_first_row_exists(rows, key);
            let row = rows[c];
            assert(pick(key) == Some(row));
            assert(aligned(keys, rows) =~= aligned(head, rows) + seq![row]);
            assert(present_keys(keys, rows) =~= present_keys(head, rows).push(key));
        } else {
            assert(pick(key) is None);
            assert(aligned(keys, rows) =~= aligned(head, rows));
            assert(present_keys(keys, rows) =~= present_keys(head, rows));
        }
    }
}

/// A key that has a record has a first record.
proof fn lemma_first_row_exists(rows: Seq<StoredTransaction>, key: Seq<char>)
    requires
        has_row(rows, key),
    ensures
        exists|c: int| is_first_row(rows, key, c),
{
    let i = choose|i: int| 0 <= i < rows.len() && (#[trigger] rows[i]).transaction_digest@ == key;
    lemma_first_row_before(rows, key, i);
}

/// A key with a record at `i` has a first record, at `i` or before it.
proof fn lemma_first_row_before(rows: Seq<StoredTransaction>, key: Seq<char>, i: int)
    requires
        0 <= i < rows.len(),
        rows[i].transaction_digest@ == key,
    ensures
        exists|c: int| is_first_row(rows, key, c),
    decreases i,
{
    if forall|j: int| 0 <= j < i ==> (#[trigger] rows[j]).transaction_digest@ != key {
        assert(is_first_row(rows, key, i));
    } else {
        let j = choose|j: int| 0 <= j < i && (#[trigger] rows[j]).transaction_digest@ == key;
        lemma_first_row_before(rows, key, j);
    }
}

/// Dropping elements keeps a sequence free of duplicates.
proof fn lemma_filter_no_duplicates<A>(s: Seq<A>, pred: spec_fn(A) -> bool)
    requires
        s.no_duplicates(),
    ensures
        s.filter(pred).no_duplicates(),
    decreases s.len(),
{
    reveal(Seq::filter);
    if s.len() > 0 {
        let head = s.drop_last();
        lemma_filter_no_duplicates(head, pred);
        if pred(s.last()) {
            let kept = head.filter(pred);
            if kept.contains(s.last()) {
                head.lemma_filter_contains_rev(pred, s.last());
                let k = choose|k: int| 0 <= k < head.len() && head[k] == s.last();
                assert(s[k] == s[s.len() - 1]);
            }
            assert forall|i: int, j: int|
                0 <= i < kept.push(s.last()).len() && 0 <= j < kept.push(s.last()).len() && i
                    != j implies kept.push(s.last())[i] != kept.push(s.last())[j] by {
                if i == kept.len() {
                    if kept[j] == s.last() {
                        assert(kept.contains(s.last()));
                    }
                } else if j == kept.len() {
                    if kept[i] == s.last() {
                        assert(kept.contains(s.last()));
                    }
                }
            }
        }
    }
}

/// Where the request names no key twice, and the store returned one row for
/// each requested key that it holds and no other row, the rows are consistent
/// with the request: the store holds as many of the keys as it returned rows.
proof fn lemma_one_row_per_key_is_consistent(
    keys: Seq<Seq<char>>,
    rows: Seq<StoredTransaction>,
)
    requires
        keys.no_duplicates(),
        rows_distinct(rows),
        forall|i: int| 0 <= i < rows.len() ==> keys.contains((#[trigger] rows[i]).transaction_digest@),
    ensures
        present_keys(keys, rows).len() == rows.len(),
        rows_consistent(keys, rows),
{
    let pred = |key: Seq<char>| has_row(rows, key);
    let present = keys.filter(pred);
    let filed = rows.map_values(|row: StoredTransaction| row.transaction_digest@);
    lemma_filter_no_duplicates(keys, pred);
    assert(filed.no_duplicates());
    assert forall|key: Seq<char>| present.to_set().contains(key) == filed.to_set().contains(
        key,
    ) by {
        if present.contains(key) {
            let k = choose|k: int| 0 <= k < present.len() && present[k] == key;
            keys.lemma_filter_pred(pred, k);
            let i = choose|i: int|
                0 <= i < rows.len() && (#[trigger] rows[i]).transaction_digest@ == key;
            assert(filed[i] == key);
        }
        if filed.contains(key) {
            let i = choose|i: int| 0 <= i < filed.len() && filed[i] == key;
            assert(rows[i].transaction_digest@ == key);
            assert(has_row(rows, key));
            let k = choose|k: int| 0 <= k < keys.len() && keys[k] == key;
            keys.lemma_filter_contains(pred, k);
        }
    }
    assert(present.to_set() =~= filed.to_set());
    present.unique_seq_to_set();
    filed.unique_seq_to_set();
    lemma_aligned_follows_request(keys, rows);
}

/// Order preservation under partial absence. Where the request names no key
/// twice, and the store returned one row for each requested key that it holds
/// and no other, the batch succeeds with as many rows as the store holds of the
/// keys, and the row at each position is the record of the key that stands at
/// that position among the requested keys that the store holds.
pub proof fn lemma_order_preserved(keys: Seq<Seq<char>>, rows: Seq<StoredTransaction>)
    requires
        keys.no_duplicates(),
        rows_distinct(rows),
        forall|i: int| 0 <= i < rows.len() ==> keys.contains((#[trigger] rows[i]).transaction_digest@),
    ensures
        rows_consistent(keys, rows),
        aligned(keys, rows).len() == present_keys(keys, rows).len(),
        aligned(keys, rows).len() == rows.len(),
        forall|i: int|
            0 <= i < aligned(keys, rows).len() ==> {
                &&& (#[trigger] aligned(keys, rows)[i]).transaction_digest@ == present_keys(
                    keys,
                    rows,
                )[i]
                &&& rows.contains(aligned(keys, rows)[i])
            },
{
    lemma_one_row_per_key_is_consistent(keys, rows);
    lemma_aligned_follows_request(keys, rows);
}

/// Fail-fast on an integrity violation. Where the request names no key twice
/// and the number of rows that the store returned differs from the number of
/// distinct requested keys that have a row, the rows are not consistent with
/// the request, so the batch fails and hands out no row.
pub proof fn lemma_count_mismatch_fails(keys: Seq<Seq<char>>, rows: Seq<StoredTransaction>)
    requires
        keys.no_duplicates(),
        rows.len() != present_keys(keys, rows).to_set().len(),
    ensures
        !rows_consistent(keys, rows),
{
    let pred = |key: Seq<char>| has_row(rows, key);
    lemma_filter_no_duplicates(keys, pred);
    present_keys(keys, rows).unique_seq_to_set();
    lemma_aligned_follows_request(keys, rows);
}

} // verus!
