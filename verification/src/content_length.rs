//! The size of a stream's resource, known or yet to be learnt.
//!
//! The size is held in one 64-bit cell that every copy of a stream
//! descriptor shares. Zero stands for "unknown". A size is learnt from a
//! `HEAD` answer and then offered to the cell, which takes it only while it
//! is still unknown: a size, once known, stays.

use vstd::prelude::*;
use std::sync::Arc;
use std::sync::atomic::AtomicU64;
use std::sync::atomic::Ordering;
use crate::error::Error;
use crate::fetch::{check_status, status_verdict};
use crate::header::{content_length_of, extract_content_length};
use crate::session::bytes_view;

verus! {

/// What the cell holds after a size was offered to it.
pub open spec fn cached_after(cached: u64, offered: u64) -> u64 {
    if cached == 0 {
        offered
    } else {
        cached
    }
}

/// What the cell holds after sizes were offered to it one after the other.
/// Offers from several callers reach the cell in some such order.
pub open spec fn cached_after_all(cached: u64, offers: Seq<u64>) -> u64
    decreases offers.len(),
{
    if offers.len() == 0 {
        cached
    } else {
        cached_after(cached_after_all(cached, offers.drop_last()), offers.last())
    }
}

/// A size that is known stays, whatever is offered afterwards.
pub proof fn lemma_known_size_stays(cached: u64, offers: Seq<u64>)
    requires
        cached != 0,
    ensures
        cached_after_all(cached, offers) == cached,
    decreases offers.len(),
{
    if offers.len() > 0 {
        lemma_known_size_stays(cached, offers.drop_last());
    }
}

/// However many callers resolve an unknown size at once, and in whatever
/// order their offers arrive, the cell ends with the one size that the
/// server reported to all of them.
pub proof fn lemma_offers_converge(offers: Seq<u64>, size: u64)
    requires
        offers.len() > 0,
        forall|i: int| 0 <= i < offers.len() ==> offers[i] == size,
    ensures
        cached_after_all(0, offers) == size,
    decreases offers.len(),
{
    let earlier = offers.drop_last();
    assert(offers[offers.len() - 1] == size);
    if earlier.len() > 0 {
        assert forall|i: int| 0 <= i < earlier.len() implies earlier[i] == size by {
            assert(earlier[i] == offers[i]);
        }
        lemma_offers_converge(earlier, size);
    }
}

/// What a caller does about the size, given what the cell holds.
#[derive(Clone, Copy, Debug, PartialEq, Eq, Structural)]
pub enum Lookup {
    /// The size is known: this is it, and no request is needed.
    Known(u64),
    /// The size is unknown: a `HEAD` request is to be sent.
    Ask,
}

/// What a caller does about the size, given what the cell holds.
pub open spec fn lookup_of(cached: u64) -> Lookup {
    if cached == 0 {
        Lookup::Ask
    } else {
        Lookup::Known(cached)
    }
}

/// Decides what to do about the size, given what the cell holds.
pub fn lookup(cached: u64) -> (answer: Lookup)
    ensures
        answer == lookup_of(cached),
{
    if cached == 0 {
        Lookup::Ask
    } else {
        Lookup::Known(cached)
    }
}

/// What came of a `HEAD` request.
#[derive(Debug, PartialEq, Eq)]
pub enum Head {
    /// The request could not be carried out.
    Failed,
    /// The request was answered: the status, and the raw value of the
    /// `Content-Length` header if the answer has one.
    Response { status: u16, content_length: Option<Vec<u8>> },
}

/// What came of a `HEAD` request, seen as plain values.
pub enum HeadView {
    Failed,
    Response { status: u16, content_length: Option<Seq<u8>> },
}

impl View for Head {
    type V = HeadView;

    open spec fn view(&self) -> HeadView {
        match *self {
            Head::Failed => HeadView::Failed,
            Head::Response { status, content_length } => HeadView::Response {
                status,
                content_length: bytes_view(content_length),
            },
        }
    }
}

/// The size that a `HEAD` outcome yields, or why it yields none: the
/// request must have been carried out and answered with a success status,
/// and the answer must hold a usable `Content-Length`.
pub open spec fn resolved(head: HeadView) -> Result<u64, Error> {
    match head {
        HeadView::Failed => Err(Error::Transport),
        HeadView::Response { status, content_length } => match status_verdict(status) {
            Ok(_) => content_length_of(content_length),
            Err(error) => Err(error),
        },
    }
}

/// Reads the size out of a `HEAD` outcome.
pub fn resolve(head: &Head) -> (size: Result<u64, Error>)
    ensures
        size == resolved(head@),
{
    match head {
        Head::Failed => Err(Error::Transport),
        Head::Response { status, content_length } => match check_status(*status) {
            Ok(_) => {
                let header: Option<&[u8]> = match content_length {
                    Some(value) => Some(value.as_slice()),
                    None => None,
                };
                extract_content_length(header)
            },
            Err(error) => Err(error),
        },
    }
}

/// `Arc::clone`: one more handle on the same cell.
#[verifier::external_body]
fn share(cell: &Arc<AtomicU64>) -> (shared: Arc<AtomicU64>)
    ensures
        shared == *cell,
{
    Arc::clone(cell)
}

/// The size that a cell is made with: the size given, or zero for none.
pub open spec fn starting_size(hint: Option<u64>) -> u64 {
    match hint {
        Some(size) => size,
        None => 0,
    }
}

/// What a lookup answers, given the size that the handle's cell was made
/// with and what the cell holds now. A size that the cell was made with
/// stays in it for good, so it is the answer without a look at the cell.
pub open spec fn answer_of(given: u64, cached: u64) -> Lookup {
    if given != 0 {
        Lookup::Known(given)
    } else {
        lookup_of(cached)
    }
}

/// The shared cell that holds a stream's size, and the size that the cell
/// was made with, where the handle knows it.
pub struct ContentLengthCache {
    cell: Arc<AtomicU64>,
    given: u64,
}

impl ContentLengthCache {
    /// The cell behind this handle.
    pub closed spec fn cell(&self) -> Arc<AtomicU64> {
        self.cell
    }

    /// The size that the cell was made with, as far as this handle knows
    /// it: zero where the cell was made without a size, and where the
    /// handle was put on a cell that existed already.
    pub closed spec fn given(&self) -> u64 {
        self.given
    }

    /// A cell of its own, holding the size if one is given. A given size of
    /// zero is the same as none.
    pub fn new(hint: Option<u64>) -> (cache: ContentLengthCache)
        ensures
            cache.given() == starting_size(hint),
    {
        let start = match hint {
            Some(size) => size,
            None => 0,
        };
        ContentLengthCache { cell: Arc::new(AtomicU64::new(start)), given: start }
    }

    /// A handle on a cell that exists already. What the cell was made with
    /// is not known to it.
    pub fn from_cell(cell: Arc<AtomicU64>) -> (cache: ContentLengthCache)
        ensures
            cache.cell() == cell,
            cache.given() == 0,
    {
        ContentLengthCache { cell, given: 0 }
    }

    /// The cell behind this handle.
    pub fn as_cell(&self) -> (cell: &Arc<AtomicU64>)
        ensures
            *cell == self.cell(),
    {
        &self.cell
    }

    /// One more handle on the same cell.
    pub fn share(&self) -> (shared: ContentLengthCache)
        ensures
            shared.cell() == self.cell(),
            shared.given() == self.given(),
    {
        ContentLengthCache { cell: share(&self.cell), given: self.given }
    }

    /// Says whether the size is known by now. A size that the cell was made
    /// with is known and is the answer. Else the cell is read: what it
    /// holds depends on every holder of a handle, and the answer is the one
    /// that `answer_of` gives for it; whatever it is, a known size is not zero.
    pub fn begin(&self) -> (answer: Lookup)
        ensures
            self.given() != 0 ==> answer == Lookup::Known(self.given()),
            exists|cached: u64| answer == #[trigger] answer_of(self.given(), cached),
            answer matches Lookup::Known(size) ==> size != 0,
    {
        if self.given != 0 {
            assert(Lookup::Known(self.given) == answer_of(self.given, 0));
            Lookup::Known(self.given)
        } else {
            let cached = self.cell.load(Ordering::SeqCst);
            assert(lookup_of(cached) == answer_of(self.given, cached));
            lookup(cached)
        }
    }

    /// Offers a size to the cell, which takes it if it holds none.
    pub fn offer(&self, size: u64) {
        let _ = self.cell.compare_exchange(0, size, Ordering::SeqCst, Ordering::SeqCst);
    }

    /// Ends a lookup that had to ask: reads the size out of the `HEAD`
    /// outcome, offers it to the cell, and returns it.
    pub fn finish(&self, head: &Head) -> (size: Result<u64, Error>)
        ensures
            size == resolved(head@),
    {
        let size = resolve(head);
        if let Ok(learnt) = size {
            self.offer(learnt);
        }
        size
    }
}

/// Whether two sizes, each read from a cell, are the same.
pub fn same_size(lhs: u64, rhs: u64) -> (same: bool)
    ensures
        same == (lhs == rhs),
{
    lhs == rhs
}

/// Whether two cells hold the same size at the moment. Both are read while
/// others may write them, so nothing lasting follows from the answer: it is
/// what `same_size` gives for the two sizes as they were read.
pub fn atomic_u64_is_eq(lhs: &Arc<AtomicU64>, rhs: &Arc<AtomicU64>) -> (same: bool) {
    same_size(lhs.load(Ordering::Acquire), rhs.load(Ordering::Acquire))
}

} // verus!
