//! A corpus of vectors held on a device, and filling it in bounded pieces.
//!
//! Uploaded once and scored many times. Every vector is `dim` wide and
//! contiguous, so the layout is exactly that of a row-major `Vec` of
//! vectors. A corpus is only usable once every row has been written: an
//! unfilled buffer holds whatever the allocator left there, which would
//! score as though those rows were real data.
//!
//! The values live in device memory, which the tensor runtime writes; that
//! write is not part of this crate. The host keeps only the shape and how
//! far the filling has got. What the device is to hold is a model in ghost
//! state: the contracts say which values each row holds, and nothing here
//! stores them.
use crate::compute::backend::Backend;
use crate::compute::device::DeviceKind;
use crate::compute::error::{count_of, number, Error};
use crate::text::decimal;
use vstd::prelude::*;

verus! {

/// Bytes one element occupies on the device, which holds `f32`.
pub const ELEMENT_BYTES: usize = 4;

/// Vectors held in device memory, ready to score against.
pub struct Corpus<T> {
    backend: Backend,
    /// A model of the device's contents; no code here writes them.
    values: Ghost<Seq<T>>,
    rows: usize,
    dim: usize,
}

/// A device corpus being filled row by row.
pub struct Staged<T> {
    backend: Backend,
    /// A model of the rows written to the device so far.
    values: Ghost<Seq<T>>,
    rows: usize,
    dim: usize,
    filled: usize,
}

/// What the native runtime made of a request for device memory.
#[derive(Debug, Clone, Copy, PartialEq, Eq, Structural)]
pub enum AllocationOutcome {
    /// The memory was granted.
    Granted,
    /// No context could be created to describe the tensor.
    ContextRefused,
    /// The tensor or its storage could not be allocated.
    StorageRefused,
}

/// Whether a `rows` by `dim` corpus can be described at all: neither
/// extent is zero, and its size in device bytes is addressable.
pub open spec fn describable(rows: nat, dim: nat) -> bool {
    rows > 0 && dim > 0 && rows * dim * 4 <= usize::MAX
}

impl<T> Corpus<T> {
    #[verifier::type_invariant]
    spec fn filled(self) -> bool {
        &&& describable(self.rows as nat, self.dim as nat)
        &&& self.values@.len() == self.rows * self.dim
    }

    /// The resident vectors, row after row.
    pub closed spec fn values(&self) -> Seq<T> {
        self.values@
    }

    /// How many vectors are resident.
    pub closed spec fn row_count(&self) -> nat {
        self.rows as nat
    }

    /// The width every vector shares.
    pub closed spec fn width(&self) -> nat {
        self.dim as nat
    }

    /// The device the corpus lives on.
    pub closed spec fn device_kind(&self) -> DeviceKind {
        self.backend@
    }

    /// How many vectors are resident.
    pub fn rows(&self) -> (n: usize)
        ensures
            n == self.row_count(),
    {
        self.rows
    }

    /// The width every vector shares.
    pub fn dim(&self) -> (n: usize)
        ensures
            n == self.width(),
    {
        self.dim
    }

    /// Bytes this corpus occupies on the device.
    pub fn bytes(&self) -> (n: usize)
        ensures
            n == self.row_count() * self.width() * 4,
    {
        proof {
            use_type_invariant(self);
        }
        self.rows * self.dim * ELEMENT_BYTES
    }

    /// The backend this corpus lives on.
    pub fn backend(&self) -> (backend: &Backend)
        ensures
            backend@ == self.device_kind(),
    {
        &self.backend
    }

    /// Device memory for `rows * dim` values, with nothing written to it
    /// yet, to be filled by [`Staged::push_rows`], on a runtime that grants
    /// it: [`Corpus::staged_with`] with [`AllocationOutcome::Granted`].
    pub fn staged(backend: Backend, rows: usize, dim: usize) -> (staged: Result<Staged<T>, Error>)
        requires
            rows * dim * 4 <= usize::MAX,
        ensures
            (rows == 0 || dim == 0) ==> (staged matches Err(Error::ShapeMismatch {
                expected,
                actual,
            }) && expected@ == "a non-empty corpus"@ && actual@ == decimal(rows as nat) + " x "@
                + decimal(dim as nat)),
            (rows != 0 && dim != 0) ==> (staged matches Ok(s) && s.wf() && s.row_count() == rows
                && s.width() == dim && s.filled_rows() == 0 && s.values() == Seq::<T>::empty()
                && s.device_kind() == backend@),
    {
        Self::staged_with(backend, rows, dim, AllocationOutcome::Granted)
    }

    /// Device memory for `rows * dim` values, given what the native runtime
    /// made of the request for it (`outcome`).
    ///
    /// The shape is checked before the runtime is asked: it aborts the
    /// process on an empty tensor rather than failing.
    pub fn staged_with(backend: Backend, rows: usize, dim: usize, outcome: AllocationOutcome) -> (staged:
        Result<Staged<T>, Error>)
        requires
            rows * dim * 4 <= usize::MAX,
        ensures
            (rows == 0 || dim == 0) ==> (staged matches Err(Error::ShapeMismatch {
                expected,
                actual,
            }) && expected@ == "a non-empty corpus"@ && actual@ == decimal(rows as nat) + " x "@
                + decimal(dim as nat)),
            (rows != 0 && dim != 0 && outcome == AllocationOutcome::ContextRefused) ==> staged
                == Err::<Staged<T>, Error>(Error::Allocation { bytes: 0 }),
            (rows != 0 && dim != 0 && outcome == AllocationOutcome::StorageRefused) ==> staged
                == Err::<Staged<T>, Error>(Error::Allocation { bytes: (rows * dim * 4) as usize }),
            (rows != 0 && dim != 0 && outcome == AllocationOutcome::Granted) ==> (staged matches Ok(
                s,
            ) && s.wf() && s.row_count() == rows && s.width() == dim && s.filled_rows() == 0
                && s.values() == Seq::<T>::empty() && s.device_kind() == backend@),
    {
        if rows == 0 || dim == 0 {
            let mut actual = number(rows);
            actual.append(" x ");
            crate::text::push_decimal(&mut actual, dim);
            return Err(
                Error::ShapeMismatch { expected: String::from_str("a non-empty corpus"), actual },
            );
        }
        match outcome {
            AllocationOutcome::ContextRefused => Err(Error::Allocation { bytes: 0 }),
            AllocationOutcome::StorageRefused => Err(
                Error::Allocation { bytes: rows * dim * ELEMENT_BYTES },
            ),
            AllocationOutcome::Granted => Ok(
                Staged { backend, values: Ghost(Seq::empty()), rows, dim, filled: 0 },
            ),
        }
    }

    /// Copy `vectors` — `rows * dim` values, each vector contiguous — onto
    /// the device behind `backend`, on a runtime that grants the memory:
    /// [`Corpus::upload_with`] with [`AllocationOutcome::Granted`].
    ///
    /// `rows * dim` must be a count the machine can hold; where it is the
    /// length of `vectors`, its size in device bytes is addressable too, as
    /// it always is for a slice of `f32`.
    pub fn upload(backend: Backend, vectors: &[T], rows: usize, dim: usize) -> (corpus: Result<
        Corpus<T>,
        Error,
    >)
        requires
            rows * dim <= usize::MAX,
            vectors@.len() == rows * dim ==> rows * dim * 4 <= usize::MAX,
        ensures
            vectors@.len() != rows * dim ==> (corpus matches Err(Error::ShapeMismatch {
                expected,
                actual,
            }) && expected@ == decimal((rows * dim) as nat) + " floats"@ && actual@ == decimal(
                vectors@.len(),
            )),
            vectors@.len() == rows * dim && (rows == 0 || dim == 0) ==> (corpus matches Err(
                Error::ShapeMismatch { expected, actual },
            ) && expected@ == "a non-empty corpus"@ && actual@ == decimal(rows as nat) + " x "@
                + decimal(dim as nat)),
            vectors@.len() == rows * dim && rows != 0 && dim != 0 ==> (corpus matches Ok(c)
                && c.values() == vectors@ && c.row_count() == rows && c.width() == dim
                && c.device_kind() == backend@),
    {
        Self::upload_with(backend, vectors, rows, dim, AllocationOutcome::Granted)
    }

    /// Copy `vectors` onto the device behind `backend`, given what the
    /// native runtime made of the request for memory (`outcome`).
    pub fn upload_with(
        backend: Backend,
        vectors: &[T],
        rows: usize,
        dim: usize,
        outcome: AllocationOutcome,
    ) -> (corpus: Result<Corpus<T>, Error>)
        requires
            rows * dim <= usize::MAX,
            vectors@.len() == rows * dim ==> rows * dim * 4 <= usize::MAX,
        ensures
            vectors@.len() != rows * dim ==> (corpus matches Err(Error::ShapeMismatch {
                expected,
                actual,
            }) && expected@ == decimal((rows * dim) as nat) + " floats"@ && actual@ == decimal(
                vectors@.len(),
            )),
            vectors@.len() == rows * dim && (rows == 0 || dim == 0) ==> (corpus matches Err(
                Error::ShapeMismatch { expected, actual },
            ) && expected@ == "a non-empty corpus"@ && actual@ == decimal(rows as nat) + " x "@
                + decimal(dim as nat)),
            vectors@.len() == rows * dim && rows != 0 && dim != 0 && outcome
                == AllocationOutcome::ContextRefused ==> corpus == Err::<Corpus<T>, Error>(
                Error::Allocation { bytes: 0 },
            ),
            vectors@.len() == rows * dim && rows != 0 && dim != 0 && outcome
                == AllocationOutcome::StorageRefused ==> corpus == Err::<Corpus<T>, Error>(
                Error::Allocation { bytes: (rows * dim * 4) as usize },
            ),
            vectors@.len() == rows * dim && rows != 0 && dim != 0 && outcome
                == AllocationOutcome::Granted ==> (corpus matches Ok(c) && c.values() == vectors@
                && c.row_count() == rows && c.width() == dim && c.device_kind() == backend@),
    {
        if vectors.len() != rows * dim {
            return Err(
                Error::ShapeMismatch {
                    expected: count_of(rows * dim, " floats"),
                    actual: number(vectors.len()),
                },
            );
        }
        let mut staged = Self::staged_with(backend, rows, dim, outcome)?;
        proof {
            vstd::arithmetic::div_mod::lemma_div_multiples_vanish(rows as int, dim as int);
            vstd::arithmetic::mul::lemma_mul_is_commutative(rows as int, dim as int);
            vstd::arithmetic::div_mod::lemma_mod_multiples_basic(rows as int, dim as int);
        }
        staged.push_rows(vectors)?;
        staged.finish()
    }
}

impl<T> Staged<T> {
    /// The buffer holds exactly the rows written so far.
    pub closed spec fn wf(&self) -> bool {
        &&& describable(self.rows as nat, self.dim as nat)
        &&& self.filled <= self.rows
        &&& self.values@.len() == self.filled * self.dim
    }

    /// The values written so far, row after row.
    pub closed spec fn values(&self) -> Seq<T> {
        self.values@
    }

    /// How many rows the finished corpus holds.
    pub closed spec fn row_count(&self) -> nat {
        self.rows as nat
    }

    /// The width every vector shares.
    pub closed spec fn width(&self) -> nat {
        self.dim as nat
    }

    /// Rows written so far, and therefore where the next write lands.
    pub closed spec fn filled_rows(&self) -> nat {
        self.filled as nat
    }

    /// The device the corpus is being built on.
    pub closed spec fn device_kind(&self) -> DeviceKind {
        self.backend@
    }

    /// The extents a well-formed staged corpus keeps: no more rows written
    /// than it holds, a non-zero width, an addressable size, and exactly the
    /// written rows' values.
    pub proof fn extents(&self)
        requires
            self.wf(),
        ensures
            self.filled_rows() <= self.row_count(),
            0 < self.width(),
            0 < self.row_count(),
            self.row_count() * self.width() * 4 <= usize::MAX,
            self.values().len() == self.filled_rows() * self.width(),
    {
    }

    /// The backend the corpus is being built on.
    pub fn backend(&self) -> (backend: &Backend)
        ensures
            backend@ == self.device_kind(),
    {
        &self.backend
    }

    /// The finished corpus, once every row has been written.
    ///
    /// Refuses a partially filled one rather than returning it: the
    /// unwritten tail would score as confident nonsense.
    pub fn finish(self) -> (corpus: Result<Corpus<T>, Error>)
        requires
            self.wf(),
        ensures
            self.filled_rows() == self.row_count() ==> (corpus matches Ok(c) && c.values()
                == self.values() && c.row_count() == self.row_count() && c.width() == self.width()
                && c.device_kind() == self.device_kind()),
            self.filled_rows() != self.row_count() ==> (corpus matches Err(Error::ShapeMismatch {
                expected,
                actual,
            }) && expected@ == decimal(self.row_count()) + " rows written"@ && actual@ == decimal(
                self.filled_rows(),
            )),
    {
        if self.filled == self.rows {
            Ok(Corpus { backend: self.backend, values: self.values, rows: self.rows, dim: self.dim })
        } else {
            Err(
                Error::ShapeMismatch {
                    expected: count_of(self.rows, " rows written"),
                    actual: number(self.filled),
                },
            )
        }
    }
}

impl<T> Staged<T> {
    /// Append `vectors` — a whole number of `dim`-wide rows — to the corpus.
    pub fn push_rows(&mut self, vectors: &[T]) -> (pushed: Result<(), Error>)
        requires
            old(self).wf(),
            old(self).filled_rows() + vectors@.len() / old(self).width() <= usize::MAX,
        ensures
            final(self).wf(),
            final(self).row_count() == old(self).row_count(),
            final(self).width() == old(self).width(),
            final(self).device_kind() == old(self).device_kind(),
            vectors@.len() % old(self).width() != 0 ==> (pushed matches Err(Error::ShapeMismatch {
                expected,
                actual,
            }) && expected@ == "a multiple of "@ + decimal(old(self).width()) + " floats"@
                && actual@ == decimal(vectors@.len()) && final(self).values() == old(self).values()
                && final(self).filled_rows() == old(self).filled_rows()),
            vectors@.len() % old(self).width() == 0 && old(self).filled_rows() + vectors@.len()
                / old(self).width() > old(self).row_count() ==> (pushed matches Err(
                Error::ShapeMismatch { expected, actual },
            ) && expected@ == "at most "@ + decimal(old(self).row_count()) + " rows"@ && actual@
                == decimal((old(self).filled_rows() + vectors@.len() / old(self).width()) as nat)
                && final(self).values() == old(self).values() && final(self).filled_rows() == old(
                self,
            ).filled_rows()),
            vectors@.len() % old(self).width() == 0 && old(self).filled_rows() + vectors@.len()
                / old(self).width() <= old(self).row_count() ==> (pushed is Ok && final(self).values()
                == old(self).values() + vectors@ && final(self).filled_rows() == old(
                self,
            ).filled_rows() + vectors@.len() / old(self).width()),
    {
        let dim = self.dim;
        let len = vectors.len();
        if len % dim != 0 {
            let mut expected = String::from_str("a multiple of ");
            crate::text::push_decimal(&mut expected, dim);
            expected.append(" floats");
            return Err(Error::ShapeMismatch { expected, actual: number(len) });
        }
        let rows = len / dim;
        proof {
            vstd::arithmetic::div_mod::lemma_fundamental_div_mod(len as int, dim as int);
            vstd::arithmetic::mul::lemma_mul_is_commutative(dim as int, rows as int);
        }
        if self.filled + rows > self.rows {
            let mut expected = String::from_str("at most ");
            crate::text::push_decimal(&mut expected, self.rows);
            expected.append(" rows");
            return Err(Error::ShapeMismatch { expected, actual: number(self.filled + rows) });
        }
        proof {
            vstd::arithmetic::mul::lemma_mul_is_distributive_add_other_way(
                dim as int,
                self.filled as int,
                rows as int,
            );
        }
        self.values = Ghost(self.values@ + vectors@);
        self.filled = self.filled + rows;
        Ok(())
    }
}

} // verus!
