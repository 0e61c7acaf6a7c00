//! Transactional batches: the caller's statements wrapped in `BEGIN` and
//! `END`, and the reading of the batch's outcome, in which the bookkeeping
//! steps stay invisible.
use vstd::prelude::*;

use crate::error::{DecodeError, Error};
use crate::proto::{BatchResult, BatchResultView};
use crate::result::{result_set_of, ResultSet, ResultSetView};
use crate::statement::{Statement, StatementView};

verus! {

/// What a transactional batch comes to.
pub enum BatchOutcome {
    /// The result sets of the caller's statements, in order.
    Results(Seq<ResultSetView>),
    /// The first statement that failed, with the database's message.
    Failed(Seq<char>),
    /// A step of the caller's statements came back with neither a result
    /// nor an error.
    Missing(int),
}

/// The statement that opens a transactional batch.
pub open spec fn begin_view() -> StatementView {
    StatementView { sql: "BEGIN"@, args: Seq::empty() }
}

/// The statement that closes a transactional batch.
pub open spec fn end_view() -> StatementView {
    StatementView { sql: "END"@, args: Seq::empty() }
}

/// The first position at or after `i` that holds something.
pub open spec fn first_some_from<T>(s: Seq<Option<T>>, i: int) -> Option<int>
    decreases s.len() - i,
{
    if i < 0 || i >= s.len() {
        None
    } else if s[i] is Some {
        Some(i)
    } else {
        first_some_from(s, i + 1)
    }
}

/// The first position at or after `i` that holds nothing.
pub open spec fn first_none_from<T>(s: Seq<Option<T>>, i: int) -> Option<int>
    decreases s.len() - i,
{
    if i < 0 || i >= s.len() {
        None
    } else if s[i] is None {
        Some(i)
    } else {
        first_none_from(s, i + 1)
    }
}

/// The steps of a wrapped batch that stand for the caller's statements:
/// all but the first (`BEGIN`) and the last (`END`).
pub open spec fn inner_steps<T>(s: Seq<T>) -> Seq<T> {
    if s.len() >= 2 {
        s.subrange(1, s.len() - 1)
    } else {
        Seq::empty()
    }
}

/// The outcome of a wrapped batch: the first error after `BEGIN` wins;
/// otherwise every step of the caller's statements must hold a result.
pub open spec fn batch_outcome_spec(b: BatchResultView) -> BatchOutcome {
    match first_some_from(b.step_errors, 1) {
        Some(k) => BatchOutcome::Failed(b.step_errors[k]->Some_0),
        None => match first_none_from(inner_steps(b.step_results), 0) {
            Some(k) => BatchOutcome::Missing(k + 1),
            None => BatchOutcome::Results(
                inner_steps(b.step_results).map_values(
                    |o: Option<crate::proto::StmtResultView>| result_set_of(o->Some_0),
                ),
            ),
        },
    }
}

/// Whether an executable result is the outcome `o`.
pub open spec fn realizes(r: Result<Vec<ResultSet>, Error>, o: BatchOutcome) -> bool {
    match o {
        BatchOutcome::Results(s) => r matches Ok(v) && v@.map_values(|x: ResultSet| x@) == s,
        BatchOutcome::Failed(m) => r matches Err(Error::Statement(e)) && e@ == m,
        BatchOutcome::Missing(k) => r matches Err(Error::Decode(DecodeError::MissingResult { step }))
            && step == k,
    }
}

/// Wraps the caller's statements as `[BEGIN, ...stmts, END]`.
pub fn transaction_statements(stmts: Vec<Statement>) -> (r: Vec<Statement>)
    requires
        stmts@.len() + 2 <= usize::MAX,
    ensures
        r@.len() == stmts@.len() + 2,
        r@[0]@ == begin_view(),
        r@[r@.len() - 1]@ == end_view(),
        r@.subrange(1, r@.len() - 1) == stmts@,
{
    let mut stmts = stmts;
    let ghost caller = stmts@;
    let mut r: Vec<Statement> = Vec::new();
    r.push(Statement::new("BEGIN"));
    r.append(&mut stmts);
    r.push(Statement::new("END"));
    assert(r@.subrange(1, r@.len() - 1) =~= caller);
    r
}

/// Reads the outcome of a wrapped batch: the first step error after `BEGIN`
/// becomes the one error of the call; otherwise the result sets of the
/// caller's statements, without those of `BEGIN` and `END`.
pub fn batch_outcome(b: &BatchResult) -> (r: Result<Vec<ResultSet>, Error>)
    ensures
        realizes(r, batch_outcome_spec(b@)),
{
    let ghost errs = b@.step_errors;
    let mut i: usize = 1;
    while i < b.step_errors.len()
        invariant
            1 <= i <= b.step_errors@.len() || (i == 1 && b.step_errors@.len() == 0),
            errs == b@.step_errors,
            first_some_from(errs, 1) == first_some_from(errs, i as int),
        decreases b.step_errors@.len() - i,
    {
        match &b.step_errors[i] {
            Some(e) => {
                return Err(Error::Statement(e.message.clone()));
            },
            None => {},
        }
        i = i + 1;
    }
    assert(first_some_from(errs, i as int) is None);
    let ghost inner = inner_steps(b@.step_results);
    let n = b.step_results.len();
    let mut out: Vec<ResultSet> = Vec::new();
    if n >= 2 {
        let mut j: usize = 1;
        while j < n - 1
            invariant
                n == b.step_results@.len(),
                n >= 2,
                1 <= j <= n - 1,
                inner == inner_steps(b@.step_results),
                first_some_from(b@.step_errors, 1) is None,
                inner.len() == n - 2,
                first_none_from(inner, 0) == first_none_from(inner, j - 1),
                out@.len() == j - 1,
                forall|k: int|
                    0 <= k < j - 1 ==> #[trigger] out@[k]@ == result_set_of(inner[k]->Some_0),
            decreases n - j,
        {
            assert(inner[j - 1] == b@.step_results[j as int]);
            match &b.step_results[j] {
                Some(res) => {
                    out.push(ResultSet::from_stmt_result(res));
                },
                None => {
                    assert(first_none_from(inner, j - 1) == Some((j - 1) as int));
                    return Err(Error::Decode(DecodeError::MissingResult { step: j }));
                },
            }
            j = j + 1;
        }
        assert(first_none_from(inner, (n - 2) as int) is None);
        assert(out@.map_values(|x: ResultSet| x@) =~= inner.map_values(
            |o: Option<crate::proto::StmtResultView>| result_set_of(o->Some_0),
        ));
    } else {
        assert(inner =~= Seq::<Option<crate::proto::StmtResultView>>::empty());
        assert(out@.map_values(|x: ResultSet| x@) =~= inner.map_values(
            |o: Option<crate::proto::StmtResultView>| result_set_of(o->Some_0),
        ));
    }
    Ok(out)
}

/// Reads the outcome of a batch of one statement: its result set, or the
/// database's error for it.
pub fn statement_outcome(b: &BatchResult) -> (r: Result<ResultSet, Error>)
    ensures
        (b@.step_results.len() >= 1 && b@.step_errors.len() >= 1) ==> match (
            b@.step_results[0],
            b@.step_errors[0],
        ) {
            (Some(x), None) => r matches Ok(rs) && rs@ == result_set_of(x),
            (None, Some(m)) => r matches Err(Error::Statement(e)) && e@ == m,
            _ => r == Err::<ResultSet, Error>(Error::Decode(DecodeError::MissingResult { step: 0 })),
        },
        !(b@.step_results.len() >= 1 && b@.step_errors.len() >= 1) ==> r == Err::<ResultSet, Error>(
            Error::Decode(DecodeError::MissingResult { step: 0 }),
        ),
{
    if b.step_results.len() == 0 || b.step_errors.len() == 0 {
        return Err(Error::Decode(DecodeError::MissingResult { step: 0 }));
    }
    match (&b.step_results[0], &b.step_errors[0]) {
        (Some(x), None) => Ok(ResultSet::from_stmt_result(x)),
        (None, Some(e)) => Err(Error::Statement(e.message.clone())),
        _ => Err(Error::Decode(DecodeError::MissingResult { step: 0 })),
    }
}

proof fn lemma_first_some_at<T>(s: Seq<Option<T>>, i: int, k: int)
    requires
        0 <= i <= k < s.len(),
        s[k] is Some,
        forall|j: int| i <= j < k ==> #[trigger] s[j] is None,
    ensures
        first_some_from(s, i) == Some(k),
    decreases k - i,
{
    if i < k {
        lemma_first_some_at(s, i + 1, k);
    }
}

proof fn lemma_first_some_none<T>(s: Seq<Option<T>>, i: int)
    requires
        0 <= i,
        forall|j: int| i <= j < s.len() ==> #[trigger] s[j] is None,
    ensures
        first_some_from(s, i) is None,
    decreases s.len() - i,
{
    if i < s.len() {
        lemma_first_some_none(s, i + 1);
    }
}

proof fn lemma_first_none_none<T>(s: Seq<Option<T>>, i: int)
    requires
        0 <= i,
        forall|j: int| i <= j < s.len() ==> #[trigger] s[j] is Some,
    ensures
        first_none_from(s, i) is None,
    decreases s.len() - i,
{
    if i < s.len() {
        lemma_first_none_none(s, i + 1);
    }
}

/// A transactional batch of `n` statements in which every statement and the
/// closing `END` succeed yields exactly `n` result sets, the i-th being the
/// result of the i-th statement; nothing of `BEGIN` or `END` shows.
pub proof fn lemma_batch_yields_one_result_per_statement(b: BatchResultView, n: nat)
    requires
        b.well_formed(),
        b.step_results.len() == n + 2,
        forall|i: int| 1 <= i < n + 2 ==> #[trigger] b.step_errors[i] is None,
    ensures
        batch_outcome_spec(b) matches BatchOutcome::Results(s) && s.len() == n && forall|i: int|
            0 <= i < n ==> #[trigger] s[i] == result_set_of(b.step_results[i + 1]->Some_0),
{
    lemma_first_some_none(b.step_errors, 1);
    let inner = inner_steps(b.step_results);
    assert forall|j: int| 0 <= j < inner.len() implies #[trigger] inner[j] is Some by {
        assert(inner[j] == b.step_results[j + 1]);
        assert(b.step_errors[j + 1] is None);
    }
    lemma_first_none_none(inner, 0);
}

/// When the caller's statement at step `k` (step 0 being `BEGIN`) is the
/// first to fail, the transactional batch yields that statement's error
/// alone, and no result list.
pub proof fn lemma_batch_fails_on_first_error(b: BatchResultView, k: int)
    requires
        1 <= k < b.step_errors.len(),
        b.step_errors[k] is Some,
        forall|j: int| 1 <= j < k ==> #[trigger] b.step_errors[j] is None,
    ensures
        batch_outcome_spec(b) == BatchOutcome::Failed(b.step_errors[k]->Some_0),
{
    lemma_first_some_at(b.step_errors, 1, k);
}

} // verus!
