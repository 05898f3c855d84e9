//! Logical identity and color vocabulary for the controller's lights.
//!
//! The device has an 8×8 grid of pads, a row of eight control buttons above
//! it, and a column of eight buttons beside it.  `Pad` names each light
//! logically; the raw device coordinates (column, row) are translated at the
//! boundary by [`Pad::from_raw`] and [`Pad::to_raw`], which are inverse to
//! each other, so that every physical light corresponds to exactly one `Pad`
//! value.

use vstd::prelude::*;

verus! {

/// Number of logical pads: 8 top, 8 side, 64 grid.
pub const PAD_COUNT: usize = 80;

/// A color a pad can show.  The mapping to device-native intensities is a
/// collaborator's concern; here the vocabulary is closed and pure.
#[derive(Clone, Copy, Debug, PartialEq, Eq, Structural)]
pub enum Color {
    Off,
    DimRed,
    Red,
    Orange,
    Amber,
    Yellow,
    Green,
    DimGreen,
}

/// One logical light on the controller.
#[derive(Clone, Copy, Debug, PartialEq, Eq, Structural)]
pub enum Pad {
    /// A button in the control row above the grid, `index` counted from the left.
    Top { index: u8 },
    /// A button in the column beside the grid, `index` counted from the top.
    Side { index: u8 },
    /// A grid pad at column `x`, row `y`, both counted from the top left.
    Grid { x: u8, y: u8 },
}

/// An input event, already translated to the logical pad vocabulary.
#[derive(Clone, Copy, Debug, PartialEq, Eq, Structural)]
pub enum Message {
    Press { pad: Pad },
    Release { pad: Pad },
}

impl Message {
    /// The pad the event names.
    pub open spec fn pad_spec(self) -> Pad {
        match self {
            Message::Press { pad } => pad,
            Message::Release { pad } => pad,
        }
    }

    /// The event names a real pad.
    pub open spec fn wf(self) -> bool {
        self.pad_spec().wf()
    }
}

impl Pad {
    /// All indices are within the 8-wide rows and columns.
    pub open spec fn wf(self) -> bool {
        match self {
            Pad::Top { index } => index < 8,
            Pad::Side { index } => index < 8,
            Pad::Grid { x, y } => x < 8 && y < 8,
        }
    }

    /// Dense numbering of the pads: top row first, then the side column,
    /// then the grid in row-major order.
    pub open spec fn code_spec(self) -> int {
        match self {
            Pad::Top { index } => index as int,
            Pad::Side { index } => 8 + index as int,
            Pad::Grid { x, y } => 16 + (y as int) * 8 + x as int,
        }
    }

    /// The dense code of this pad, in `0 .. PAD_COUNT`.
    pub fn code(self) -> (c: usize)
        requires
            self.wf(),
        ensures
            c == self.code_spec(),
            c < PAD_COUNT,
    {
        match self {
            Pad::Top { index } => index as usize,
            Pad::Side { index } => 8 + index as usize,
            Pad::Grid { x, y } => 16 + (y as usize) * 8 + x as usize,
        }
    }

    /// The pad with the given dense code.
    pub open spec fn from_code_spec(c: int) -> Pad {
        if c < 8 {
            Pad::Top { index: c as u8 }
        } else if c < 16 {
            Pad::Side { index: (c - 8) as u8 }
        } else {
            Pad::Grid { x: ((c - 16) % 8) as u8, y: ((c - 16) / 8) as u8 }
        }
    }

    /// Inverse of [`Pad::code`].
    pub fn from_code(c: usize) -> (p: Pad)
        requires
            c < PAD_COUNT,
        ensures
            p == Pad::from_code_spec(c as int),
            p.wf(),
            p.code_spec() == c,
    {
        if c < 8 {
            Pad::Top { index: c as u8 }
        } else if c < 16 {
            Pad::Side { index: (c - 8) as u8 }
        } else {
            let off = c - 16;
            Pad::Grid { x: (off % 8) as u8, y: (off / 8) as u8 }
        }
    }

    /// A raw device coordinate pair that corresponds to some light:
    /// a 9×9 frame without the unused top-right corner and with the grid
    /// shifted down by one row.
    pub open spec fn raw_wf(x: u8, y: u8) -> bool {
        x <= 8 && y <= 8 && !(x == 8 && y == 0)
    }

    pub open spec fn to_raw_spec(self) -> (u8, u8) {
        match self {
            Pad::Top { index } => (index, 0),
            Pad::Side { index } => (8, (index + 1) as u8),
            Pad::Grid { x, y } => (x, (y + 1) as u8),
        }
    }

    pub open spec fn from_raw_spec(x: u8, y: u8) -> Pad {
        if y == 0 {
            Pad::Top { index: x }
        } else if x == 8 {
            Pad::Side { index: (y - 1) as u8 }
        } else {
            Pad::Grid { x, y: (y - 1) as u8 }
        }
    }

    /// The raw device coordinates of this pad.
    pub fn to_raw(self) -> (r: (u8, u8))
        requires
            self.wf(),
        ensures
            r == self.to_raw_spec(),
            Pad::raw_wf(r.0, r.1),
            Pad::from_raw_spec(r.0, r.1) == self,
    {
        match self {
            Pad::Top { index } => (index, 0),
            Pad::Side { index } => (8, index + 1),
            Pad::Grid { x, y } => (x, y + 1),
        }
    }

    /// The logical pad at the given raw device coordinates: row 0 is the
    /// control row, column 8 the side column, the rest the grid with its
    /// rows offset by one.
    pub fn from_raw(x: u8, y: u8) -> (p: Pad)
        requires
            Pad::raw_wf(x, y),
        ensures
            p == Pad::from_raw_spec(x, y),
            p.wf(),
            p.to_raw_spec() == (x, y),
    {
        if y == 0 {
            Pad::Top { index: x }
        } else if x == 8 {
            Pad::Side { index: y - 1 }
        } else {
            Pad::Grid { x, y: y - 1 }
        }
    }
}

/// Translate a raw device event to a [`Message`]: `press` tells presses from
/// releases, `(x, y)` is the raw coordinate pair.
pub fn message_from_raw(press: bool, x: u8, y: u8) -> (m: Message)
    requires
        Pad::raw_wf(x, y),
    ensures
        m == (if press {
            Message::Press { pad: Pad::from_raw_spec(x, y) }
        } else {
            Message::Release { pad: Pad::from_raw_spec(x, y) }
        }),
        m.wf(),
{
    let pad = Pad::from_raw(x, y);
    if press {
        Message::Press { pad }
    } else {
        Message::Release { pad }
    }
}

/// The dense numbering is one-to-one on well-formed pads: two distinct pads
/// never share a code.
pub proof fn lemma_code_injective(p: Pad, q: Pad)
    requires
        p.wf(),
        q.wf(),
        p.code_spec() == q.code_spec(),
    ensures
        p == q,
{
    assert(Pad::from_code_spec(p.code_spec()) == p);
    assert(Pad::from_code_spec(q.code_spec()) == q);
}

/// Every code below `PAD_COUNT` is hit by exactly the pad
/// [`Pad::from_code_spec`] gives: the numbering is a bijection.
pub proof fn lemma_code_bijective(c: int)
    requires
        0 <= c < PAD_COUNT,
    ensures
        Pad::from_code_spec(c).wf(),
        Pad::from_code_spec(c).code_spec() == c,
{
}

/// The raw translation is a bijection between well-formed pads and the raw
/// coordinates of real lights.
pub proof fn lemma_raw_round_trip(p: Pad, x: u8, y: u8)
    requires
        p.wf(),
        Pad::raw_wf(x, y),
    ensures
        Pad::from_raw_spec(p.to_raw_spec().0, p.to_raw_spec().1) == p,
        Pad::from_raw_spec(x, y).to_raw_spec() == (x, y),
        Pad::from_raw_spec(x, y).wf(),
{
}

} // verus!
