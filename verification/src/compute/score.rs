//! Scores for a batch of queries against a resident corpus.
//!
//! A value rather than a bare `Vec` so the shape travels with the numbers —
//! a flat buffer of `queries * rows` scores is trivially indexed wrongly,
//! and the mistake would rank every query against the wrong row.
use crate::compute::corpus::Corpus;
use crate::compute::error::{count_of, number, Error};
use crate::text::decimal;
use vstd::prelude::*;

verus! {

/// Scores for a batch: `queries` rows of `rows` scores each, query-major.
#[derive(Debug, Clone)]
pub struct Scores<T> {
    values: Vec<T>,
    queries: usize,
    rows: usize,
}

impl<T> Scores<T> {
    /// The buffer holds exactly `queries * rows` scores.
    pub closed spec fn wf(&self) -> bool {
        self.values@.len() == self.queries * self.rows
    }

    /// Every score, query-major.
    pub closed spec fn values(&self) -> Seq<T> {
        self.values@
    }

    /// How many queries were scored.
    pub closed spec fn query_count(&self) -> nat {
        self.queries as nat
    }

    /// How many rows each query was scored against.
    pub closed spec fn row_count(&self) -> nat {
        self.rows as nat
    }

    /// Wrap a computed buffer with the shape that makes it readable.
    pub fn new(values: Vec<T>, queries: usize, rows: usize) -> (scores: Scores<T>)
        requires
            values@.len() == queries * rows,
        ensures
            scores.wf(),
            scores.values() == values@,
            scores.query_count() == queries,
            scores.row_count() == rows,
    {
        Scores { values, queries, rows }
    }

    /// Scores for `queries` queries against no rows at all — the shape a
    /// batch scored against an empty corpus would have had.
    pub fn empty(queries: usize) -> (scores: Scores<T>)
        ensures
            scores.wf(),
            scores.values() == Seq::<T>::empty(),
            scores.query_count() == queries,
            scores.row_count() == 0,
    {
        let scores = Scores { values: Vec::new(), queries, rows: 0 };
        assert(scores.values@ =~= Seq::<T>::empty());
        scores
    }

    /// Scores for one query, in row order; `None` past the last query.
    ///
    /// With no rows at all every query's scores are the empty slice.
    pub fn row(&self, query: usize) -> (scores: Option<&[T]>)
        requires
            self.wf(),
            query * self.row_count() > usize::MAX || query * self.row_count() + self.row_count()
                <= usize::MAX,
        ensures
            (self.row_count() == 0 || query < self.query_count()) ==> (scores matches Some(s)
                && s@ == self.values().subrange(
                query * self.row_count(),
                query * self.row_count() + self.row_count(),
            )),
            !(self.row_count() == 0 || query < self.query_count()) ==> scores is None,
    {
        let len = self.values.len();
        proof {
            lemma_row_bounds(query as int, self.queries as int, self.rows as int);
        }
        let start = match query.checked_mul(self.rows) {
            Some(start) => start,
            None => return None,
        };
        let end = start + self.rows;
        if end <= len {
            Some(vstd::slice::slice_subrange(self.values.as_slice(), start, end))
        } else {
            None
        }
    }

    /// How many queries were scored.
    pub fn queries(&self) -> (n: usize)
        ensures
            n == self.query_count(),
    {
        self.queries
    }

    /// How many rows each query was scored against.
    pub fn rows(&self) -> (n: usize)
        ensures
            n == self.row_count(),
    {
        self.rows
    }

    /// Every score, query-major.
    pub fn as_slice(&self) -> (values: &[T])
        ensures
            values@ == self.values(),
    {
        self.values.as_slice()
    }
}

impl<T> Corpus<T> {
    /// What scoring `count` queries, given as `queries`, comes to before
    /// anything reaches the device: the scores outright for an empty batch,
    /// a refusal for a buffer that is not `count * dim` values, and `None`
    /// for a batch the device is to score in one dispatch.
    ///
    /// The shape is checked here because the device runtime aborts the
    /// process on a shape it cannot use rather than returning an error.
    pub fn check_batch(&self, queries: &[T], count: usize) -> (checked: Result<
        Option<Scores<T>>,
        Error,
    >)
        requires
            count * self.width() <= usize::MAX,
        ensures
            count == 0 ==> (checked matches Ok(Some(s)) && s.wf() && s.values() == Seq::<
                T,
            >::empty() && s.query_count() == 0 && s.row_count() == self.row_count()),
            count != 0 && queries@.len() != count * self.width() ==> (checked matches Err(
                Error::ShapeMismatch { expected, actual },
            ) && expected@ == decimal((count * self.width()) as nat) + " floats"@ && actual@
                == decimal(queries@.len())),
            count != 0 && queries@.len() == count * self.width() ==> checked matches Ok(None),
    {
        if count == 0 {
            let scores = Scores::new(Vec::new(), 0, self.rows());
            assert(scores.values() =~= Seq::<T>::empty());
            return Ok(Some(scores));
        }
        let expected = count * self.dim();
        if queries.len() != expected {
            return Err(
                Error::ShapeMismatch {
                    expected: count_of(expected, " floats"),
                    actual: number(queries.len()),
                },
            );
        }
        Ok(None)
    }
}

/// Where query `q`'s scores end, against `n` queries of `r` rows.
proof fn lemma_row_bounds(q: int, n: int, r: int)
    by (nonlinear_arith)
    requires
        q >= 0,
        n >= 0,
        r >= 0,
    ensures
        r == 0 ==> q * r == 0,
        q < n ==> q * r + r <= n * r,
        q >= n && r > 0 ==> q * r + r > n * r,
        q * r >= 0,
{
}

} // verus!
