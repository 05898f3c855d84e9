//! Diffing surface between the layouts and the device transport.
//!
//! Every color write to the device costs a hardware round trip, so the canvas
//! never talks to the device on [`Canvas::set`]: it stages the color and, on
//! [`Canvas::flush`], hands back writes for exactly the pads whose staged
//! color differs from the last committed one.  The caller performs the writes
//! and, once the transport has taken them, calls [`Canvas::commit`]; a failed
//! transport therefore never marks pads as committed.  [`Canvas::flush`]
//! combines the two steps for the common case where the caller sends the
//! writes unconditionally.
//!
//! Pads that were never staged are left untouched: a layout that cares about
//! a pad sets it on every draw.

use crate::model::Color;
use crate::model::PAD_COUNT;
use crate::model::Pad;
use vstd::prelude::*;

verus! {

/// What a [`Canvas`] holds: the last committed color of every pad (`None`
/// until a first commit) and the staged, not yet flushed color of every pad
/// (`None` where nothing is pending).  Both are indexed by [`Pad::code_spec`].
pub struct CanvasV {
    pub cache: Seq<Option<Color>>,
    pub staged: Seq<Option<Color>>,
}

/// Stateful diffing surface: tracks the last committed color per pad and the
/// colors staged since the last flush.
pub struct Canvas {
    cache: Vec<Option<Color>>,
    staged: Vec<Option<Color>>,
}

/// Pad `i` would be written by a flush: it has a staged color and that color
/// differs from the committed one.
pub open spec fn staged_differs(cache: Seq<Option<Color>>, staged: Seq<Option<Color>>, i: int) -> bool {
    staged[i] is Some && staged[i] != cache[i]
}

/// The writes a flush emits for pad codes below `n`, in increasing code
/// order: one write per differing staged pad, carrying the staged color.
pub open spec fn writes_upto(
    cache: Seq<Option<Color>>,
    staged: Seq<Option<Color>>,
    n: int,
) -> Seq<(Pad, Color)>
    decreases n,
{
    if n <= 0 {
        Seq::empty()
    } else {
        let rest = writes_upto(cache, staged, n - 1);
        if staged_differs(cache, staged, n - 1) {
            rest.push((Pad::from_code_spec(n - 1), staged[n - 1]->Some_0))
        } else {
            rest
        }
    }
}

/// The committed colors after a flush: staged colors win, pads without a
/// staged color keep their committed one.
pub open spec fn merged(cache: Seq<Option<Color>>, staged: Seq<Option<Color>>) -> Seq<
    Option<Color>,
> {
    Seq::new(cache.len(), |i: int| if staged[i] is Some {
        staged[i]
    } else {
        cache[i]
    })
}

/// A staged row with nothing pending.
pub open spec fn all_clear(staged: Seq<Option<Color>>) -> bool {
    staged.len() == PAD_COUNT && forall|i: int| 0 <= i < staged.len() ==> staged[i] is None
}

impl View for Canvas {
    type V = CanvasV;

    closed spec fn view(&self) -> CanvasV {
        CanvasV { cache: self.cache@, staged: self.staged@ }
    }
}

impl Canvas {
    /// Both rows cover every pad.
    pub open spec fn wf(self) -> bool {
        self@.cache.len() == PAD_COUNT && self@.staged.len() == PAD_COUNT
    }

    /// A canvas that has committed nothing and stages nothing.
    pub fn new() -> (c: Canvas)
        ensures
            c.wf(),
            forall|i: int| 0 <= i < PAD_COUNT ==> c@.cache[i] is None,
            all_clear(c@.staged),
    {
        let mut cache: Vec<Option<Color>> = Vec::new();
        let mut staged: Vec<Option<Color>> = Vec::new();
        let mut i: usize = 0;
        while i < PAD_COUNT
            invariant
                i <= PAD_COUNT,
                cache@.len() == i,
                staged@.len() == i,
                forall|j: int| 0 <= j < i ==> cache@[j] is None && staged@[j] is None,
            decreases PAD_COUNT - i,
        {
            cache.push(None);
            staged.push(None);
            i = i + 1;
        }
        Canvas { cache, staged }
    }

    /// Stage a color for a pad.  Staging the same pad again before a flush
    /// keeps only the latest value; nothing reaches the device here.
    pub fn set(&mut self, pad: Pad, color: Color)
        requires
            old(self).wf(),
            pad.wf(),
        ensures
            final(self).wf(),
            final(self)@.staged == old(self)@.staged.update(pad.code_spec(), Some(color)),
            final(self)@.cache == old(self)@.cache,
    {
        let code = pad.code();
        self.staged.set(code, Some(color));
    }

    /// The writes a flush would emit now, without committing anything.
    pub fn pending_writes(&self) -> (writes: Vec<(Pad, Color)>)
        requires
            self.wf(),
        ensures
            writes@ == writes_upto(self@.cache, self@.staged, PAD_COUNT as int),
    {
        let mut writes: Vec<(Pad, Color)> = Vec::new();
        let mut i: usize = 0;
        while i < PAD_COUNT
            invariant
                self.wf(),
                i <= PAD_COUNT,
                writes@ == writes_upto(self@.cache, self@.staged, i as int),
            decreases PAD_COUNT - i,
        {
            match self.staged[i] {
                Some(c) => {
                    let differs = match self.cache[i] {
                        Some(committed) => committed != c,
                        None => true,
                    };
                    if differs {
                        writes.push((Pad::from_code(i), c));
                    }
                },
                None => {},
            }
            i = i + 1;
        }
        writes
    }

    /// Commit the staged colors: the cache takes every staged color and the
    /// staged row is cleared.  Call this only once the transport has taken
    /// the pending writes.
    pub fn commit(&mut self)
        requires
            old(self).wf(),
        ensures
            final(self).wf(),
            final(self)@.cache == merged(old(self)@.cache, old(self)@.staged),
            all_clear(final(self)@.staged),
    {
        let mut i: usize = 0;
        while i < PAD_COUNT
            invariant
                old(self).wf(),
                self.wf(),
                i <= PAD_COUNT,
                forall|j: int|
                    0 <= j < i ==> self@.cache[j] == merged(old(self)@.cache, old(self)@.staged)[j],
                forall|j: int| 0 <= j < i ==> self@.staged[j] is None,
                forall|j: int|
                    i <= j < PAD_COUNT ==> self@.cache[j] == old(self)@.cache[j] && self@.staged[j]
                        == old(self)@.staged[j],
            decreases PAD_COUNT - i,
        {
            match self.staged[i] {
                Some(c) => {
                    self.cache.set(i, Some(c));
                },
                None => {},
            }
            self.staged.set(i, None);
            i = i + 1;
        }
        proof {
            assert(self@.cache =~= merged(old(self)@.cache, old(self)@.staged));
        }
    }

    /// Flush: return the writes for every changed staged pad, in increasing
    /// pad-code order, and commit the staged colors.
    pub fn flush(&mut self) -> (writes: Vec<(Pad, Color)>)
        requires
            old(self).wf(),
        ensures
            final(self).wf(),
            writes@ == writes_upto(old(self)@.cache, old(self)@.staged, PAD_COUNT as int),
            final(self)@.cache == merged(old(self)@.cache, old(self)@.staged),
            all_clear(final(self)@.staged),
    {
        let writes = self.pending_writes();
        self.commit();
        writes
    }
}

/// A flush of a canvas with nothing staged emits no writes.
pub proof fn lemma_flush_nothing_staged(cache: Seq<Option<Color>>, staged: Seq<Option<Color>>, n: int)
    requires
        forall|i: int| 0 <= i < n ==> staged[i] is None,
    ensures
        writes_upto(cache, staged, n) == Seq::<(Pad, Color)>::empty(),
    decreases n,
{
    if n > 0 {
        lemma_flush_nothing_staged(cache, staged, n - 1);
    }
}

/// If a single pad is the only one staged, a flush emits at most the one
/// write for it: exactly one, with the staged color, when that color differs
/// from the committed one, and none otherwise.
pub proof fn lemma_flush_single_staged(
    cache: Seq<Option<Color>>,
    staged: Seq<Option<Color>>,
    k: int,
    n: int,
)
    requires
        0 <= k,
        forall|i: int| 0 <= i < n && i != k ==> staged[i] is None,
    ensures
        k < n && staged_differs(cache, staged, k) ==> writes_upto(cache, staged, n) == seq![
            (Pad::from_code_spec(k), staged[k]->Some_0),
        ],
        !(k < n && staged_differs(cache, staged, k)) ==> writes_upto(cache, staged, n) == Seq::<
            (Pad, Color),
        >::empty(),
    decreases n,
{
    if n > 0 {
        lemma_flush_single_staged(cache, staged, k, n - 1);
        if k == n - 1 && staged_differs(cache, staged, k) {
            assert(writes_upto(cache, staged, n) =~= seq![
                (Pad::from_code_spec(k), staged[k]->Some_0),
            ]);
        }
    }
}

/// Setting one pad twice with two colors and then flushing a canvas that had
/// nothing else staged emits exactly one write for that pad, carrying the
/// color set last.
pub proof fn lemma_set_twice_then_flush(
    cache: Seq<Option<Color>>,
    staged: Seq<Option<Color>>,
    p: Pad,
    c1: Color,
    c2: Color,
)
    requires
        p.wf(),
        cache.len() == PAD_COUNT,
        all_clear(staged),
        cache[p.code_spec()] != Some(c2),
    ensures
        writes_upto(cache, staged.update(p.code_spec(), Some(c1)).update(p.code_spec(), Some(c2)),
            PAD_COUNT as int) == seq![(p, c2)],
{
    let staged2 = staged.update(p.code_spec(), Some(c1)).update(p.code_spec(), Some(c2));
    lemma_flush_single_staged(cache, staged2, p.code_spec(), PAD_COUNT as int);
    assert(Pad::from_code_spec(p.code_spec()) == p);
}

} // verus!
