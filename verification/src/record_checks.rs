//! Record-by-record validation of a file whose records share a run id and carry a unique key.

use vstd::prelude::*;

use crate::checks::contains_text;
use crate::error::{is_error_at, Located, ModelError};

verus! {

/// A record that is validated on its own, given the run id of the file's first record and
/// whether its key already occurred earlier in the file.
pub trait ValidatedRecord: Sized {
    /// The key that no two records of a file may share.
    spec fn unique_key(&self) -> Seq<char>;

    /// The record's run id.
    spec fn run_view(&self) -> Seq<char>;

    /// The code of the first check the record fails, or `None`.
    spec fn record_error(&self, first_run: Option<Seq<char>>, duplicate: bool) -> Option<Seq<char>>;

    fn key_text(&self) -> (k: &String)
        ensures
            k@ == self.unique_key(),
    ;

    fn run_text(&self) -> (k: &String)
        ensures
            k@ == self.run_view(),
    ;

    fn check_record(located: &Located<Self>, first_run: &Option<String>, duplicate: bool) -> (r: Result<
        (),
        ModelError,
    >)
        ensures
            match located.value.record_error(
                match first_run {
                    Some(s) => Some(s@),
                    None => None,
                },
                duplicate,
            ) {
                None => r is Ok,
                Some(code) => r matches Err(e) && is_error_at(e, *located, code),
            },
    ;
}

/// The error code of the record at `i`, checked against the records before it.
pub open spec fn error_at_index<T: ValidatedRecord>(records: Seq<Located<T>>, i: int) -> Option<Seq<char>> {
    records[i].value.record_error(
        if i == 0 {
            None
        } else {
            Some(records[0].value.run_view())
        },
        exists|j: int| 0 <= j < i && #[trigger] records[j].value.unique_key() == records[i].value.unique_key(),
    )
}

/// Every record passes its checks.
pub open spec fn all_records_valid<T: ValidatedRecord>(records: Seq<Located<T>>) -> bool {
    forall|i: int| 0 <= i < records.len() ==> error_at_index(records, i) is None
}

/// The error is that of the first record that fails its checks, at that record.
pub open spec fn reports_first_error<T: ValidatedRecord>(records: Seq<Located<T>>, e: ModelError) -> bool {
    exists|i: int|
        0 <= i < records.len() && (forall|j: int| 0 <= j < i ==> error_at_index(records, j) is None)
            && (#[trigger] error_at_index(records, i)) is Some && is_error_at(
            e,
            records[i],
            error_at_index(records, i)->0,
        )
}

/// Checks every record in order and reports the first failure at its record.
pub fn validate_records<T: ValidatedRecord>(records: &Vec<Located<T>>) -> (r: Result<(), ModelError>)
    ensures
        match r {
            Ok(()) => all_records_valid(records@),
            Err(e) => reports_first_error(records@, e),
        },
{
    let mut first_run: Option<String> = None;
    let mut seen: Vec<String> = Vec::new();
    let mut i: usize = 0;
    while i < records.len()
        invariant
            0 <= i <= records@.len(),
            forall|j: int| 0 <= j < i ==> error_at_index(records@, j) is None,
            seen@.len() == i,
            forall|k: int| 0 <= k < i ==> (#[trigger] seen@[k])@ == records@[k].value.unique_key(),
            i == 0 ==> first_run is None,
            i > 0 ==> (first_run is Some && first_run->0@ == records@[0].value.run_view()),
        decreases records.len() - i,
    {
        let located = &records[i];
        let key = located.value.key_text();
        let duplicate = contains_text(&seen, key);
        assert(duplicate == exists|j: int| 0 <= j < i && #[trigger] records@[j].value.unique_key() == records@[i as int].value.unique_key()) by {
            if duplicate {
                let k = choose|k: int| 0 <= k < seen@.len() && (#[trigger] seen@[k])@ == key@;
                assert(records@[k].value.unique_key() == records@[i as int].value.unique_key());
            }
            if exists|j: int| 0 <= j < i && #[trigger] records@[j].value.unique_key() == records@[i as int].value.unique_key() {
                let j = choose|j: int| 0 <= j < i && #[trigger] records@[j].value.unique_key() == records@[i as int].value.unique_key();
                assert(seen@[j]@ == records@[j].value.unique_key());
            }
        }
        match T::check_record(located, &first_run, duplicate) {
            Ok(()) => {},
            Err(e) => {
                assert(error_at_index(records@, i as int) is Some);
                return Err(e);
            },
        }
        if i == 0 {
            first_run = Some(located.value.run_text().clone());
        }
        seen.push(key.clone());
        i = i + 1;
    }
    Ok(())
}

} // verus!

verus! {

/// The first error among the checks at positions below `n`.
pub open spec fn first_error_upto(check: spec_fn(int) -> Option<Seq<char>>, n: int) -> Option<Seq<char>>
    decreases n,
{
    if n <= 0 {
        None
    } else if first_error_upto(check, n - 1) is Some {
        first_error_upto(check, n - 1)
    } else {
        check(n - 1)
    }
}

/// Once a check fails, later positions do not change the first error.
pub proof fn lemma_first_error_stable(check: spec_fn(int) -> Option<Seq<char>>, n: int, m: int)
    requires
        0 <= n <= m,
        first_error_upto(check, n) is Some,
    ensures
        first_error_upto(check, m) == first_error_upto(check, n),
    decreases m - n,
{
    if m > n {
        lemma_first_error_stable(check, n, m - 1);
    }
}

} // verus!
