//! A shrinkable, copy-free view over a region of a byte buffer.

use std::ops::Index;
use std::ops::Range;
use std::ops::RangeFrom;
use std::ops::RangeFull;
use std::ops::RangeInclusive;
use std::ops::RangeTo;
use vstd::prelude::*;

verus! {

/// Why a decode step could not be carried out.
#[derive(Clone, Copy, Debug, PartialEq, Eq, Structural)]
pub enum DecodeError {
    /// More bytes were asked for than the window still holds.
    InsufficientData,
}

/// One request to shrink a window, at its front or at its back.
#[derive(Clone, Copy, Debug, PartialEq, Eq, Structural)]
pub enum Shift {
    /// `shift_first` with this many bytes.
    First(usize),
    /// `shift_last` with this many bytes.
    Last(usize),
}

/// A view `[start, end)` into a borrowed buffer. The view only ever shrinks:
/// `shift_first` moves the start forward, `shift_last` moves the end back.
#[derive(Debug)]
pub struct Bytes<'a> {
    idx_first: usize,
    idx_last: usize,
    data: &'a [u8],
    no_print: bool,
}

impl<'a> Bytes<'a> {
    #[verifier::type_invariant]
    spec fn bounds_hold(self) -> bool {
        self.idx_first <= self.idx_last <= self.data@.len()
    }

    /// Offset of the first byte of the view within the buffer.
    pub closed spec fn start(&self) -> nat {
        self.idx_first as nat
    }

    /// Offset just past the last byte of the view within the buffer.
    pub closed spec fn end(&self) -> nat {
        self.idx_last as nat
    }

    /// The whole underlying buffer, of which the view is a part.
    pub closed spec fn buffer(&self) -> Seq<u8> {
        self.data@
    }

    /// Whether the window was marked as not to be printed.
    pub closed spec fn unprinted(&self) -> bool {
        self.no_print
    }

    /// The invariant of every window: `start <= end <= buffer.len()`.
    pub open spec fn wf(&self) -> bool {
        self.start() <= self.end() <= self.buffer().len()
    }

    /// The bytes that the window still holds.
    pub open spec fn view(&self) -> Seq<u8> {
        self.buffer().subrange(self.start() as int, self.end() as int)
    }

    /// The window with its start moved forward by `n` bytes.
    pub closed spec fn advanced(self, n: nat) -> Bytes<'a> {
        Bytes { idx_first: (self.idx_first + n) as usize, ..self }
    }

    /// The window with its end moved back by `n` bytes.
    pub closed spec fn truncated(self, n: nat) -> Bytes<'a> {
        Bytes { idx_last: (self.idx_last - n) as usize, ..self }
    }

    /// The window widened again to the whole buffer.
    pub closed spec fn rewound(self) -> Bytes<'a> {
        Bytes { idx_first: 0, idx_last: self.data@.len() as usize, ..self }
    }

    /// The window with the print mark set.
    pub closed spec fn marked(self) -> Bytes<'a> {
        Bytes { no_print: true, ..self }
    }

    /// The window over the bytes at offsets `start` up to `end` of the view,
    /// `end` left out.
    pub open spec fn spec_narrowed(self, start: nat, end: nat) -> Bytes<'a> {
        self.advanced(start).truncated((self@.len() - end) as nat)
    }

    /// What `shift_first(n)` makes of the window: the advanced window, or
    /// `InsufficientData` when fewer than `n` bytes are left.
    pub open spec fn spec_shift_first(self, n: nat) -> Result<Bytes<'a>, DecodeError> {
        if n <= self@.len() {
            Ok(self.advanced(n))
        } else {
            Err(DecodeError::InsufficientData)
        }
    }

    /// What `shift_last(n)` makes of the window: the truncated window, or
    /// `InsufficientData` when fewer than `n` bytes are left.
    pub open spec fn spec_shift_last(self, n: nat) -> Result<Bytes<'a>, DecodeError> {
        if n <= self@.len() {
            Ok(self.truncated(n))
        } else {
            Err(DecodeError::InsufficientData)
        }
    }

    /// The window after one request to shrink it: shrunk where the request
    /// can be met, unchanged where it fails.
    pub open spec fn spec_after(self, step: Shift) -> Bytes<'a> {
        match step {
            Shift::First(n) => match self.spec_shift_first(n as nat) {
                Ok(w) => w,
                Err(_) => self,
            },
            Shift::Last(n) => match self.spec_shift_last(n as nat) {
                Ok(w) => w,
                Err(_) => self,
            },
        }
    }

    /// The window after a sequence of requests to shrink it, each made of the
    /// window that the one before left.
    pub open spec fn spec_after_all(self, steps: Seq<Shift>) -> Bytes<'a>
        decreases steps.len(),
    {
        if steps.len() == 0 {
            self
        } else {
            self.spec_after_all(steps.drop_last()).spec_after(steps.last())
        }
    }

    /// Whatever requests are made of a window, and whether they succeed or
    /// fail, its bounds stay in order and within the buffer, its start never
    /// moves back, its end never moves forward, and its buffer stays the same.
    pub proof fn lemma_bounds_hold(self, steps: Seq<Shift>)
        requires
            self.wf(),
        ensures
            self.spec_after_all(steps).wf(),
            self.start() <= self.spec_after_all(steps).start(),
            self.spec_after_all(steps).end() <= self.end(),
            self.spec_after_all(steps).buffer() == self.buffer(),
            self.spec_after_all(steps).unprinted() == self.unprinted(),
        decreases steps.len(),
    {
        if steps.len() > 0 {
            let before = self.spec_after_all(steps.drop_last());
            self.lemma_bounds_hold(steps.drop_last());
            match steps.last() {
                Shift::First(n) => {
                    if n <= before@.len() {
                        before.lemma_advanced(n as nat);
                    }
                },
                Shift::Last(n) => {
                    if n <= before@.len() {
                        before.lemma_truncated(n as nat);
                    }
                },
            }
        }
    }

    /// A window is determined by its bounds, its buffer and its print mark.
    pub proof fn lemma_equal(self, other: Bytes<'a>)
        requires
            self.start() == other.start(),
            self.end() == other.end(),
            self.buffer() == other.buffer(),
            self.unprinted() == other.unprinted(),
        ensures
            self == other,
    {
        broadcast use vstd::slice::group_slice_axioms;

        assert(self.data =~= other.data);
    }

    /// Advancing by no more than what is left keeps the window well formed
    /// and drops exactly the first `n` bytes of the view.
    pub proof fn lemma_advanced(self, n: nat)
        requires
            self.wf(),
            n <= self@.len(),
        ensures
            self.advanced(n).wf(),
            self.advanced(n).start() == self.start() + n,
            self.advanced(n).end() == self.end(),
            self.advanced(n).buffer() == self.buffer(),
            self.advanced(n).unprinted() == self.unprinted(),
            self.advanced(n)@ == self@.skip(n as int),
    {
        vstd::slice::axiom_spec_len(self.data);
    }

    /// Truncating by no more than what is left keeps the window well formed
    /// and drops exactly the last `n` bytes of the view.
    pub proof fn lemma_truncated(self, n: nat)
        requires
            self.wf(),
            n <= self@.len(),
        ensures
            self.truncated(n).wf(),
            self.truncated(n).start() == self.start(),
            self.truncated(n).end() == self.end() - n,
            self.truncated(n).buffer() == self.buffer(),
            self.truncated(n).unprinted() == self.unprinted(),
            self.truncated(n)@ == self@.take(self@.len() - n),
    {
        vstd::slice::axiom_spec_len(self.data);
    }

    /// Narrowing to a range within the view gives a well-formed window over
    /// exactly the bytes of that range.
    pub proof fn lemma_narrowed(self, start: nat, end: nat)
        requires
            self.wf(),
            start <= end <= self@.len(),
        ensures
            self.spec_narrowed(start, end).wf(),
            self.spec_narrowed(start, end).start() == self.start() + start,
            self.spec_narrowed(start, end).end() == self.start() + end,
            self.spec_narrowed(start, end).buffer() == self.buffer(),
            self.spec_narrowed(start, end).unprinted() == self.unprinted(),
            self.spec_narrowed(start, end)@ == self@.subrange(start as int, end as int),
    {
        self.lemma_advanced(start);
        self.advanced(start).lemma_truncated((self@.len() - end) as nat);
    }

    /// Rewinding gives the view of the whole buffer.
    pub proof fn lemma_rewound(self)
        ensures
            self.rewound().wf(),
            self.rewound().start() == 0,
            self.rewound().end() == self.buffer().len(),
            self.rewound().buffer() == self.buffer(),
            self.rewound().unprinted() == self.unprinted(),
            self.rewound()@ == self.buffer(),
    {
        vstd::slice::axiom_spec_len(self.data);
    }

    /// Marking changes nothing but the print mark.
    pub proof fn lemma_marked(self)
        ensures
            self.marked().wf() == self.wf(),
            self.marked().start() == self.start(),
            self.marked().end() == self.end(),
            self.marked().buffer() == self.buffer(),
            self.marked().unprinted(),
            self.marked()@ == self@,
    {
    }

    /// Consuming `a` bytes and then `b` bytes is consuming `a + b` bytes at
    /// once: both ways succeed on the same windows and leave the same window.
    pub proof fn lemma_shift_first_composes(self, a: nat, b: nat)
        requires
            self.wf(),
        ensures
            self.spec_shift_first(a + b) == match self.spec_shift_first(a) {
                Ok(w) => w.spec_shift_first(b),
                Err(e) => Err(e),
            },
    {
        if a <= self@.len() {
            self.lemma_advanced(a);
            if b <= self.advanced(a)@.len() {
                self.advanced(a).lemma_advanced(b);
                self.lemma_advanced(a + b);
                self.advanced(a).advanced(b).lemma_equal(self.advanced(a + b));
            }
        }
    }

    /// Giving up `a` bytes and then `b` bytes is giving up `a + b` bytes at
    /// once: both ways succeed on the same windows and leave the same window.
    pub proof fn lemma_shift_last_composes(self, a: nat, b: nat)
        requires
            self.wf(),
        ensures
            self.spec_shift_last(a + b) == match self.spec_shift_last(a) {
                Ok(w) => w.spec_shift_last(b),
                Err(e) => Err(e),
            },
    {
        if a <= self@.len() {
            self.lemma_truncated(a);
            if b <= self.truncated(a)@.len() {
                self.truncated(a).lemma_truncated(b);
                self.lemma_truncated(a + b);
                self.truncated(a).truncated(b).lemma_equal(self.truncated(a + b));
            }
        }
    }

    /// A window over the whole of `slice`.
    pub fn from_slice(slice: &'a [u8]) -> (res: Self)
        ensures
            res.wf(),
            res.start() == 0,
            res.end() == slice@.len(),
            res.buffer() == slice@,
            !res.unprinted(),
            res@ == slice@,
    {
        Self { idx_first: 0, idx_last: slice.len(), data: slice, no_print: false }
    }

    /// The number of bytes that the window still holds.
    pub fn len(&self) -> (n: usize)
        ensures
            self.wf(),
            n == self@.len(),
            n == self.end() - self.start(),
    {
        proof {
            use_type_invariant(self);
        }
        self.idx_last - self.idx_first
    }

    /// The number of bytes of the whole buffer, inside the window or not.
    pub fn buffer_len(&self) -> (n: usize)
        ensures
            n == self.buffer().len(),
    {
        self.data.len()
    }

    /// A window of its own over the bytes at offsets `start` up to `end` of
    /// the view, `end` left out. This window stays as it is.
    pub fn narrowed(&self, start: usize, end: usize) -> (res: Bytes<'a>)
        requires
            start <= end <= self@.len(),
        ensures
            res == self.spec_narrowed(start as nat, end as nat),
            res.wf(),
            res.start() == self.start() + start,
            res.end() == self.start() + end,
            res.buffer() == self.buffer(),
            res.unprinted() == self.unprinted(),
            res@ == self@.subrange(start as int, end as int),
    {
        proof {
            use_type_invariant(self);
            self.lemma_narrowed(start as nat, end as nat);
        }
        let res = Bytes {
            idx_first: self.idx_first + start,
            idx_last: self.idx_first + end,
            data: self.data,
            no_print: self.no_print,
        };
        proof {
            res.lemma_equal(self.spec_narrowed(start as nat, end as nat));
        }
        res
    }

    /// Whether the window was marked as not to be printed.
    pub fn is_unprinted(&self) -> (b: bool)
        ensures
            b == self.unprinted(),
    {
        self.no_print
    }

    /// Consumes `byte_count` bytes from the front. When fewer are left the
    /// window stays as it was and the call fails.
    pub fn shift_first(&mut self, byte_count: usize) -> (res: Result<(), DecodeError>)
        ensures
            old(self).wf(),
            final(self).wf(),
            match old(self).spec_shift_first(byte_count as nat) {
                Ok(w) => res == Ok::<(), DecodeError>(()) && *final(self) == w,
                Err(e) => res == Err::<(), DecodeError>(e) && *final(self) == *old(self),
            },
            res is Ok ==> {
                &&& final(self).start() == old(self).start() + byte_count
                &&& final(self).end() == old(self).end()
                &&& final(self).buffer() == old(self).buffer()
                &&& final(self).unprinted() == old(self).unprinted()
                &&& final(self)@ == old(self)@.skip(byte_count as int)
            },
    {
        proof {
            use_type_invariant(&*self);
        }
        if byte_count <= self.idx_last - self.idx_first {
            proof {
                self.lemma_advanced(byte_count as nat);
            }
            self.idx_first = self.idx_first + byte_count;
            Ok(())
        } else {
            Err(DecodeError::InsufficientData)
        }
    }

    /// Gives up `byte_count` bytes at the back. When fewer are left the
    /// window stays as it was and the call fails.
    pub fn shift_last(&mut self, byte_count: usize) -> (res: Result<(), DecodeError>)
        ensures
            old(self).wf(),
            final(self).wf(),
            match old(self).spec_shift_last(byte_count as nat) {
                Ok(w) => res == Ok::<(), DecodeError>(()) && *final(self) == w,
                Err(e) => res == Err::<(), DecodeError>(e) && *final(self) == *old(self),
            },
            res is Ok ==> {
                &&& final(self).start() == old(self).start()
                &&& final(self).end() == old(self).end() - byte_count
                &&& final(self).buffer() == old(self).buffer()
                &&& final(self).unprinted() == old(self).unprinted()
                &&& final(self)@ == old(self)@.take(old(self)@.len() - byte_count)
            },
    {
        proof {
            use_type_invariant(&*self);
        }
        if byte_count <= self.idx_last - self.idx_first {
            proof {
                self.lemma_truncated(byte_count as nat);
            }
            self.idx_last = self.idx_last - byte_count;
            Ok(())
        } else {
            Err(DecodeError::InsufficientData)
        }
    }

    /// Carries out one request to shrink the window.
    pub fn shift(&mut self, step: Shift) -> (res: Result<(), DecodeError>)
        ensures
            final(self).wf(),
            *final(self) == old(self).spec_after(step),
            res is Ok <==> match step {
                Shift::First(n) => n <= old(self)@.len(),
                Shift::Last(n) => n <= old(self)@.len(),
            },
            res is Err ==> res == Err::<(), DecodeError>(DecodeError::InsufficientData)
                && *final(self) == *old(self),
    {
        match step {
            Shift::First(n) => self.shift_first(n),
            Shift::Last(n) => self.shift_last(n),
        }
    }

    /// Widens the window to the whole buffer again.
    pub fn reset(&mut self)
        ensures
            final(self).wf(),
            *final(self) == old(self).rewound(),
            final(self).start() == 0,
            final(self).end() == old(self).buffer().len(),
            final(self).buffer() == old(self).buffer(),
            final(self).unprinted() == old(self).unprinted(),
            final(self)@ == old(self).buffer(),
    {
        proof {
            use_type_invariant(&*self);
            self.lemma_rewound();
        }
        self.idx_first = 0;
        self.idx_last = self.data.len();
    }

    /// Marks the window as not to be printed.
    pub fn no_print(&mut self)
        ensures
            *final(self) == old(self).marked(),
            final(self).wf() == old(self).wf(),
            final(self).start() == old(self).start(),
            final(self).end() == old(self).end(),
            final(self).buffer() == old(self).buffer(),
            final(self).unprinted(),
            final(self)@ == old(self)@,
    {
        proof {
            use_type_invariant(&*self);
        }
        self.no_print = true;
    }
}

/// The empty window over an empty buffer.
impl<'a> Default for Bytes<'a> {
    fn default() -> (res: Self)
        ensures
            res.wf(),
            res.start() == 0,
            res.end() == 0,
            res.buffer() == Seq::<u8>::empty(),
            !res.unprinted(),
            res@ == Seq::<u8>::empty(),
    {
        let empty: &'a [u8] = &[];
        Bytes::from_slice(empty)
    }
}

/// The empty window over an empty buffer.
impl Default for &Bytes<'_> {
    fn default() -> (res: Self)
        ensures
            res.wf(),
            res.start() == 0,
            res.end() == 0,
            res.buffer() == Seq::<u8>::empty(),
            !res.unprinted(),
            res@ == Seq::<u8>::empty(),
    {
        &Bytes { idx_first: 0, idx_last: 0, data: &[], no_print: false }
    }
}

/// `std::ops::RangeFrom`, the type of `a..`: a record of its one public
/// field, `start`.
#[verifier::external_type_specification]
#[verifier::reject_recursive_types(Idx)]
pub struct ExRangeFrom<Idx>(std::ops::RangeFrom<Idx>);

/// `std::ops::RangeTo`, the type of `..b`: a record of its one public field,
/// `end`.
#[verifier::external_type_specification]
#[verifier::reject_recursive_types(Idx)]
pub struct ExRangeTo<Idx>(std::ops::RangeTo<Idx>);

/// `std::ops::RangeFull`, the type of `..`: a unit record.
#[verifier::external_type_specification]
pub struct ExRangeFull(std::ops::RangeFull);

/// `RangeInclusive::start` returns the lower bound that the range was made
/// with, as long as the range has not been iterated to exhaustion.
pub assume_specification<Idx>[ std::ops::RangeInclusive::<Idx>::start ](
    r: &std::ops::RangeInclusive<Idx>,
) -> (res: &Idx)
    ensures
        !r@.exhausted ==> *res == r@.start,
;

/// `RangeInclusive::end` returns the upper bound that the range was made
/// with, as long as the range has not been iterated to exhaustion.
pub assume_specification<Idx>[ std::ops::RangeInclusive::<Idx>::end ](
    r: &std::ops::RangeInclusive<Idx>,
) -> (res: &Idx)
    ensures
        !r@.exhausted ==> *res == r@.end,
;

/// `window[i]`: the byte at offset `i` from the start of the view.
impl<'a> Index<usize> for Bytes<'a> {
    type Output = u8;

    fn index(&self, index: usize) -> (out: &u8)
        ensures
            *out == self@[index as int],
    {
        proof {
            use_type_invariant(self);
        }
        &self.data[self.idx_first + index]
    }
}

impl<'a> vstd::std_specs::core::IndexSpecImpl<usize> for Bytes<'a> {
    open spec fn index_req(&self, index: &usize) -> bool {
        *index < self@.len()
    }
}

/// `window[a..b]`: the bytes at offsets `a` up to `b`, `b` left out.
impl<'a> Index<Range<usize>> for Bytes<'a> {
    type Output = [u8];

    fn index(&self, index: Range<usize>) -> (out: &[u8])
        ensures
            out@ == self@.subrange(index.start as int, index.end as int),
    {
        proof {
            use_type_invariant(self);
        }
        &self.data[self.idx_first + index.start..self.idx_first + index.end]
    }
}

impl<'a> vstd::std_specs::core::IndexSpecImpl<Range<usize>> for Bytes<'a> {
    open spec fn index_req(&self, index: &Range<usize>) -> bool {
        index.start <= index.end <= self@.len()
    }
}

/// `window[a..]`: the bytes from offset `a` to the end of the view.
impl<'a> Index<RangeFrom<usize>> for Bytes<'a> {
    type Output = [u8];

    fn index(&self, index: RangeFrom<usize>) -> (out: &[u8])
        ensures
            out@ == self@.skip(index.start as int),
    {
        proof {
            use_type_invariant(self);
        }
        &self.data[self.idx_first + index.start..self.idx_last]
    }
}

impl<'a> vstd::std_specs::core::IndexSpecImpl<RangeFrom<usize>> for Bytes<'a> {
    open spec fn index_req(&self, index: &RangeFrom<usize>) -> bool {
        index.start <= self@.len()
    }
}

/// `window[..b]`: the first `b` bytes of the view.
impl<'a> Index<RangeTo<usize>> for Bytes<'a> {
    type Output = [u8];

    fn index(&self, index: RangeTo<usize>) -> (out: &[u8])
        ensures
            out@ == self@.take(index.end as int),
    {
        proof {
            use_type_invariant(self);
        }
        &self.data[self.idx_first..self.idx_first + index.end]
    }
}

impl<'a> vstd::std_specs::core::IndexSpecImpl<RangeTo<usize>> for Bytes<'a> {
    open spec fn index_req(&self, index: &RangeTo<usize>) -> bool {
        index.end <= self@.len()
    }
}

/// `window[..]`: all the bytes of the view.
impl<'a> Index<RangeFull> for Bytes<'a> {
    type Output = [u8];

    fn index(&self, index: RangeFull) -> (out: &[u8])
        ensures
            out@ == self@,
    {
        proof {
            use_type_invariant(self);
        }
        &self.data[self.idx_first..self.idx_last]
    }
}

impl<'a> vstd::std_specs::core::IndexSpecImpl<RangeFull> for Bytes<'a> {
    open spec fn index_req(&self, index: &RangeFull) -> bool {
        true
    }
}

/// `window[a..=b]`: the bytes at offsets `a` up to `b`, `b` included.
impl<'a> Index<RangeInclusive<usize>> for Bytes<'a> {
    type Output = [u8];

    fn index(&self, index: RangeInclusive<usize>) -> (out: &[u8])
        ensures
            out@ == self@.subrange(index@.start as int, index@.end + 1),
    {
        proof {
            use_type_invariant(self);
        }
        let first = *index.start();
        let last = *index.end();
        &self.data[self.idx_first + first..self.idx_first + last + 1]
    }
}

impl<'a> vstd::std_specs::core::IndexSpecImpl<RangeInclusive<usize>> for Bytes<'a> {
    open spec fn index_req(&self, index: &RangeInclusive<usize>) -> bool {
        &&& !index@.exhausted
        &&& index@.start <= index@.end + 1
        &&& index@.end < self@.len()
    }
}

} // verus!
