//! The swappable owners of the grid: a static button grid, a single-value
//! bar, and a tabbed container that multiplexes children across the top row.
//!
//! The variant set is closed, so layouts are a tagged union rather than
//! trait objects; every operation is specified against a ghost model
//! ([`LayoutV`]) in which vectors appear as sequences.  Lifecycle: `show`
//! runs right before a layout becomes the active one, `conceal` right before it
//! stops being active, `update` takes the freshly sampled volume and says
//! whether a redraw is warranted, `input` handles one message and answers an
//! [`Action`], and `draw` stages the layout's full visual state on the
//! canvas.  Switching the selected tab does not run the children's
//! `show`/`conceal`: only the engine's stack operations do.

use crate::actions::Action;
use crate::actions::ActionV;
use crate::actions::BoundAction;
use crate::actions::Command;
use crate::bar::bar_color;
use crate::bar::bar_color_spec;
use crate::canvas::Canvas;
use crate::model::Color;
use crate::model::Message;
use crate::model::Pad;
use crate::volume::Volume;
use vstd::prelude::*;

verus! {

/// One bound pad of a button layout: its resting color and a dirty flag,
/// set when the binding changes and cleared by the next draw.
#[derive(Clone, Copy, Debug, PartialEq, Eq, Structural)]
pub struct Button {
    pub stale: bool,
    pub color: Color,
}

/// A binding: the pad, how it looks, and what a press of it answers.
pub type Binding = (Pad, Button, BoundAction);

/// A static grid of bound buttons.
pub struct ButtonLayout {
    pub bindings: Vec<Binding>,
}

/// Ghost model of [`ButtonLayout`].
pub struct ButtonLayoutV {
    pub bindings: Seq<Binding>,
}

/// Renders one scalar as a progress bar over the grid and lets a press set
/// it proportionally to the pressed position.
#[derive(Clone, Copy, Debug, PartialEq, Eq, Structural)]
pub struct ValueLayout {
    pub value: Volume,
    pub marker: Color,
    pub filled: Color,
    pub empty: Color,
}

/// A layout a tabbed container can hold.
pub enum ChildLayout {
    Buttons(ButtonLayout),
    Value(ValueLayout),
}

/// Ghost model of [`ChildLayout`].
pub enum ChildLayoutV {
    Buttons(ButtonLayoutV),
    Value(ValueLayout),
}

/// Multiplexes children across the top row: the selected tab's top pad is
/// lit bright, the other tabs' dim, and the body is the selected child.
pub struct TabbedLayout {
    pub tabs: Vec<ChildLayout>,
    pub selected: u8,
}

/// Ghost model of [`TabbedLayout`].
pub struct TabbedLayoutV {
    pub tabs: Seq<ChildLayoutV>,
    pub selected: int,
}

/// A swappable owner of the grid.
pub enum Layout {
    Buttons(ButtonLayout),
    Value(ValueLayout),
    Tabbed(TabbedLayout),
}

/// Ghost model of [`Layout`].
pub enum LayoutV {
    Buttons(ButtonLayoutV),
    Value(ValueLayout),
    Tabbed(TabbedLayoutV),
}

impl View for ButtonLayout {
    type V = ButtonLayoutV;

    open spec fn view(&self) -> ButtonLayoutV {
        ButtonLayoutV { bindings: self.bindings@ }
    }
}

impl View for ChildLayout {
    type V = ChildLayoutV;

    open spec fn view(&self) -> ChildLayoutV {
        match self {
            ChildLayout::Buttons(b) => ChildLayoutV::Buttons(b@),
            ChildLayout::Value(v) => ChildLayoutV::Value(*v),
        }
    }
}

impl View for TabbedLayout {
    type V = TabbedLayoutV;

    open spec fn view(&self) -> TabbedLayoutV {
        TabbedLayoutV {
            tabs: Seq::new(self.tabs@.len(), |i: int| self.tabs@[i]@),
            selected: self.selected as int,
        }
    }
}

impl View for Layout {
    type V = LayoutV;

    open spec fn view(&self) -> LayoutV {
        match self {
            Layout::Buttons(b) => LayoutV::Buttons(b@),
            Layout::Value(v) => LayoutV::Value(*v),
            Layout::Tabbed(t) => LayoutV::Tabbed(t@),
        }
    }
}

/// The binding a press of `pad` hits: the first one for that pad, or
/// nothing when the pad is unbound.
pub open spec fn lookup(bs: Seq<Binding>, pad: Pad) -> BoundAction
    decreases bs.len(),
{
    if bs.len() == 0 {
        BoundAction::Nothing
    } else if bs[0].0 == pad {
        bs[0].2
    } else {
        lookup(bs.drop_first(), pad)
    }
}

/// Some button still carries its dirty flag.
pub open spec fn any_stale(bs: Seq<Binding>) -> bool {
    exists|i: int| 0 <= i < bs.len() && #[trigger] bs[i].1.stale
}

/// The bindings with every dirty flag cleared.
pub open spec fn cleared(bs: Seq<Binding>) -> Seq<Binding> {
    Seq::new(bs.len(), |i: int| (bs[i].0, Button { stale: false, color: bs[i].1.color }, bs[i].2))
}

/// The color a draw of these bindings leaves on pad code `c`: that of the
/// last binding for the pad, or none when no binding names it.
pub open spec fn last_drawn(bs: Seq<Binding>, c: int) -> Option<Color>
    decreases bs.len(),
{
    if bs.len() == 0 {
        None
    } else if bs.last().0.code_spec() == c {
        Some(bs.last().1.color)
    } else {
        last_drawn(bs.drop_last(), c)
    }
}

impl ButtonLayoutV {
    /// Every bound pad is real, and no pad is bound twice.
    pub open spec fn wf(self) -> bool {
        &&& forall|i: int| 0 <= i < self.bindings.len() ==> (#[trigger] self.bindings[i]).0.wf()
        &&& forall|i: int, j: int|
            0 <= i < j < self.bindings.len() ==> (#[trigger] self.bindings[i]).0 != (
            #[trigger] self.bindings[j]).0
    }
}

impl ValueLayout {
    pub open spec fn wf(self) -> bool {
        self.value.wf()
    }
}

impl ChildLayoutV {
    pub open spec fn wf(self) -> bool {
        match self {
            ChildLayoutV::Buttons(b) => b.wf(),
            ChildLayoutV::Value(v) => v.wf(),
        }
    }

    /// The child leaves the top row to its container.
    pub open spec fn keeps_off_top(self) -> bool {
        match self {
            ChildLayoutV::Buttons(b) => forall|i: int|
                0 <= i < b.bindings.len() ==> !((#[trigger] b.bindings[i]).0 is Top),
            ChildLayoutV::Value(_) => true,
        }
    }
}

impl TabbedLayoutV {
    /// At least one tab, at most the eight the top row offers, a valid
    /// selection, and children that stay out of the tab row.
    pub open spec fn wf(self) -> bool {
        &&& 1 <= self.tabs.len() <= 8
        &&& 0 <= self.selected < self.tabs.len()
        &&& forall|i: int| 0 <= i < self.tabs.len() ==> (#[trigger] self.tabs[i]).wf()
        &&& forall|i: int| 0 <= i < self.tabs.len() ==> (#[trigger] self.tabs[i]).keeps_off_top()
    }
}

impl LayoutV {
    pub open spec fn wf(self) -> bool {
        match self {
            LayoutV::Buttons(b) => b.wf(),
            LayoutV::Value(v) => v.wf(),
            LayoutV::Tabbed(t) => t.wf(),
        }
    }
}

impl Layout {
    pub open spec fn wf(self) -> bool {
        self@.wf()
    }
}

/// What `show` does: a tabbed container resets its selection to the first
/// tab; the other variants carry no transient state to reset.
pub open spec fn show_model(l: LayoutV) -> LayoutV {
    match l {
        LayoutV::Tabbed(t) => LayoutV::Tabbed(TabbedLayoutV { tabs: t.tabs, selected: 0 }),
        _ => l,
    }
}

/// What `conceal` does: nothing, for every variant; it exists as the hook the
/// engine runs before a layout stops being active.
pub open spec fn conceal_model(l: LayoutV) -> LayoutV {
    l
}

/// What `update` does to a child and whether it asks for a redraw: a value
/// layout takes the sampled volume and reports whether it changed; a button
/// layout reports whether any button is still marked stale.
pub open spec fn child_update_model(c: ChildLayoutV, vol: Volume) -> (ChildLayoutV, bool) {
    match c {
        ChildLayoutV::Buttons(b) => (c, any_stale(b.bindings)),
        ChildLayoutV::Value(v) => (
            ChildLayoutV::Value(
                ValueLayout { value: vol, marker: v.marker, filled: v.filled, empty: v.empty },
            ),
            v.value != vol,
        ),
    }
}

/// What `update` does to a layout; a tabbed container forwards to its
/// selected child.
pub open spec fn update_model(l: LayoutV, vol: Volume) -> (LayoutV, bool) {
    match l {
        LayoutV::Buttons(b) => (l, any_stale(b.bindings)),
        LayoutV::Value(v) => (
            LayoutV::Value(
                ValueLayout { value: vol, marker: v.marker, filled: v.filled, empty: v.empty },
            ),
            v.value != vol,
        ),
        LayoutV::Tabbed(t) => {
            let (c2, changed) = child_update_model(t.tabs[t.selected], vol);
            (
                LayoutV::Tabbed(
                    TabbedLayoutV { tabs: t.tabs.update(t.selected, c2), selected: t.selected },
                ),
                changed,
            )
        },
    }
}

/// The action a press at a bar position answers: set the scalar to the
/// pressed grid position `y * 8 + x` out of 63; other pads do nothing.
pub open spec fn value_action_model(m: Message) -> ActionV {
    match m {
        Message::Press { pad } => match pad {
            Pad::Grid { x, y } => ActionV::Run(
                Command::SetVolume(
                    Volume { num: ((y as int) * 8 + (x as int)) as u32, den: 63u32 },
                ),
            ),
            _ => ActionV::Nothing,
        },
        Message::Release { .. } => ActionV::Nothing,
    }
}

/// The action a child answers to a message; no child mutates itself here.
pub open spec fn child_input_model(c: ChildLayoutV, m: Message) -> ActionV {
    match c {
        ChildLayoutV::Buttons(b) => match m {
            Message::Press { pad } => lookup(b.bindings, pad).to_action_spec(),
            Message::Release { .. } => ActionV::Nothing,
        },
        ChildLayoutV::Value(_) => value_action_model(m),
    }
}

/// What `input` does: the new layout and the action it answers.  A tabbed
/// container intercepts a press on a top pad whose index names a tab,
/// selects that tab and consumes the event; every other message is
/// forwarded unchanged to the selected child.
pub open spec fn input_model(l: LayoutV, m: Message) -> (LayoutV, ActionV) {
    match l {
        LayoutV::Buttons(b) => (l, child_input_model(ChildLayoutV::Buttons(b), m)),
        LayoutV::Value(_) => (l, value_action_model(m)),
        LayoutV::Tabbed(t) => match m {
            Message::Press { pad } => match pad {
                Pad::Top { index } => if (index as int) < t.tabs.len() {
                    (
                        LayoutV::Tabbed(TabbedLayoutV { tabs: t.tabs, selected: index as int }),
                        ActionV::Nothing,
                    )
                } else {
                    (l, child_input_model(t.tabs[t.selected], m))
                },
                _ => (l, child_input_model(t.tabs[t.selected], m)),
            },
            Message::Release { .. } => (l, child_input_model(t.tabs[t.selected], m)),
        },
    }
}

/// The color the tab row shows at top index `c`: the selected tab bright,
/// other tabs dim, the rest of the row off.
pub open spec fn tab_color(t: TabbedLayoutV, c: int) -> Color {
    if c == t.selected {
        Color::Green
    } else if c < t.tabs.len() {
        Color::DimGreen
    } else {
        Color::Off
    }
}

/// The color a draw of a child leaves on pad code `c`, or none where the
/// child does not touch the pad.
pub open spec fn child_drawn_at(c: ChildLayoutV, code: int) -> Option<Color> {
    match c {
        ChildLayoutV::Buttons(b) => last_drawn(b.bindings, code),
        ChildLayoutV::Value(v) => if 16 <= code < 80 {
            Some(bar_color_spec(code - 16, 63, v.value, v.marker, v.filled, v.empty))
        } else {
            None
        },
    }
}

/// The color a draw of a layout leaves on pad code `c`, or none where the
/// layout does not touch the pad.
pub open spec fn layout_drawn_at(l: LayoutV, code: int) -> Option<Color> {
    match l {
        LayoutV::Buttons(b) => last_drawn(b.bindings, code),
        LayoutV::Value(v) => if 16 <= code < 80 {
            Some(bar_color_spec(code - 16, 63, v.value, v.marker, v.filled, v.empty))
        } else {
            None
        },
        LayoutV::Tabbed(t) => if 0 <= code < 8 {
            Some(tab_color(t, code))
        } else {
            child_drawn_at(t.tabs[t.selected], code)
        },
    }
}

/// The staged row after a layout draws over `s`.
pub open spec fn draw_staged_model(l: LayoutV, s: Seq<Option<Color>>) -> Seq<Option<Color>> {
    Seq::new(s.len(), |c: int| match layout_drawn_at(l, c) {
        Some(col) => Some(col),
        None => s[c],
    })
}

/// What a draw does to the layout itself: button layouts clear their dirty
/// flags; nothing else changes.
pub open spec fn draw_layout_model(l: LayoutV) -> LayoutV {
    match l {
        LayoutV::Buttons(b) => LayoutV::Buttons(ButtonLayoutV { bindings: cleared(b.bindings) }),
        LayoutV::Value(_) => l,
        LayoutV::Tabbed(t) => {
            let c2 = match t.tabs[t.selected] {
                ChildLayoutV::Buttons(b) => ChildLayoutV::Buttons(
                    ButtonLayoutV { bindings: cleared(b.bindings) },
                ),
                ChildLayoutV::Value(_) => t.tabs[t.selected],
            };
            LayoutV::Tabbed(TabbedLayoutV { tabs: t.tabs.update(t.selected, c2), selected: t.selected })
        },
    }
}

/// A draw of bindings whose pads all sit outside the top row leaves every
/// top-row code untouched.
pub proof fn lemma_last_drawn_off_top(bs: Seq<Binding>, c: int)
    requires
        forall|i: int| 0 <= i < bs.len() ==> (#[trigger] bs[i]).0.wf(),
        forall|i: int| 0 <= i < bs.len() ==> !((#[trigger] bs[i]).0 is Top),
        0 <= c < 8,
    ensures
        last_drawn(bs, c) is None,
    decreases bs.len(),
{
    if bs.len() > 0 {
        assert(bs.last().0.code_spec() >= 8);
        assert(forall|i: int| 0 <= i < bs.drop_last().len() ==> bs.drop_last()[i] == bs[i]);
        lemma_last_drawn_off_top(bs.drop_last(), c);
    }
}

/// Clearing the dirty flags changes no bound color: a redraw of the same
/// bindings stages the same colors.
pub proof fn lemma_last_drawn_cleared(bs: Seq<Binding>, c: int)
    ensures
        last_drawn(cleared(bs), c) == last_drawn(bs, c),
    decreases bs.len(),
{
    if bs.len() > 0 {
        assert(cleared(bs).drop_last() =~= cleared(bs.drop_last()));
        lemma_last_drawn_cleared(bs.drop_last(), c);
    }
}

/// A draw changes nothing a further draw would stage differently.
pub proof fn lemma_drawn_at_stable(l: LayoutV, c: int)
    requires
        l.wf(),
    ensures
        layout_drawn_at(draw_layout_model(l), c) == layout_drawn_at(l, c),
{
    match l {
        LayoutV::Buttons(b) => {
            lemma_last_drawn_cleared(b.bindings, c);
        },
        LayoutV::Value(_) => {},
        LayoutV::Tabbed(t) => {
            match t.tabs[t.selected] {
                ChildLayoutV::Buttons(b) => {
                    lemma_last_drawn_cleared(b.bindings, c);
                },
                ChildLayoutV::Value(_) => {},
            }
        },
    }
}

/// Drawing is idempotent: a second draw of an unchanged layout stages
/// exactly the colors the first one staged, which is what lets the diffing
/// canvas turn an unchanged frame into zero device writes.
pub proof fn lemma_draw_idempotent(l: LayoutV, s: Seq<Option<Color>>)
    requires
        l.wf(),
    ensures
        draw_staged_model(draw_layout_model(l), draw_staged_model(l, s)) == draw_staged_model(l, s),
{
    let s1 = draw_staged_model(l, s);
    assert forall|c: int| 0 <= c < s1.len() implies draw_staged_model(
        draw_layout_model(l),
        s1,
    )[c] == s1[c] by {
        lemma_drawn_at_stable(l, c);
    }
    assert(draw_staged_model(draw_layout_model(l), s1) =~= s1);
}

/// Mutable access to one element of a vector.
pub(crate) fn elem_mut<T>(v: &mut Vec<T>, i: usize) -> (element: &mut T)
    requires
        i < old(v)@.len(),
    ensures
        *element == old(v)@[i as int],
        final(v)@ == old(v)@.update(i as int, *final(element)),
{
    &mut v[i]
}

impl ButtonLayout {
    /// The action bound to `pad`, or nothing when the pad is unbound.
    pub fn action_for(&self, pad: Pad) -> (b: BoundAction)
        ensures
            b == lookup(self@.bindings, pad),
    {
        proof {
            assert(self@.bindings.skip(0) =~= self@.bindings);
        }
        let mut i: usize = 0;
        while i < self.bindings.len()
            invariant
                i <= self.bindings@.len(),
                lookup(self@.bindings, pad) == lookup(self@.bindings.skip(i as int), pad),
            decreases self.bindings@.len() - i,
        {
            let (p, _b, a) = self.bindings[i];
            if p == pad {
                proof {
                    assert(self@.bindings.skip(i as int)[0] == self@.bindings[i as int]);
                }
                return a;
            }
            proof {
                assert(self@.bindings.skip(i as int).drop_first() =~= self@.bindings.skip(
                    i as int + 1));
            }
            i = i + 1;
        }
        proof {
            assert(self@.bindings.skip(self.bindings@.len() as int).len() == 0);
        }
        BoundAction::Nothing
    }

    /// Whether any button still carries its dirty flag.
    pub fn has_stale(&self) -> (b: bool)
        ensures
            b == any_stale(self@.bindings),
    {
        let mut i: usize = 0;
        while i < self.bindings.len()
            invariant
                i <= self.bindings@.len(),
                forall|j: int| 0 <= j < i ==> !(#[trigger] self@.bindings[j]).1.stale,
            decreases self.bindings@.len() - i,
        {
            if self.bindings[i].1.stale {
                proof {
                    assert(self@.bindings[i as int].1.stale);
                }
                return true;
            }
            i = i + 1;
        }
        false
    }

    /// Stage every bound pad's color and clear the dirty flags.
    pub fn draw(&mut self, canvas: &mut Canvas)
        requires
            old(self)@.wf(),
            old(canvas).wf(),
        ensures
            final(self)@.bindings == cleared(old(self)@.bindings),
            final(canvas).wf(),
            final(canvas)@.staged == draw_staged_model(
                LayoutV::Buttons(old(self)@),
                old(canvas)@.staged,
            ),
            final(canvas)@.cache == old(canvas)@.cache,
    {
        let ghost bs0 = old(self)@.bindings;
        let ghost s0 = old(canvas)@.staged;
        proof {
            assert(canvas@.staged =~= draw_staged_model(
                LayoutV::Buttons(ButtonLayoutV { bindings: bs0.take(0) }),
                s0,
            ));
        }
        let mut i: usize = 0;
        while i < self.bindings.len()
            invariant
                bs0 == old(self)@.bindings,
                s0 == old(canvas)@.staged,
                i <= bs0.len(),
                self.bindings@.len() == bs0.len(),
                old(self)@.wf(),
                canvas.wf(),
                s0.len() == old(canvas)@.staged.len(),
                canvas@.cache == old(canvas)@.cache,
                forall|j: int| i <= j < bs0.len() ==> self.bindings@[j] == bs0[j],
                forall|j: int| 0 <= j < i ==> self.bindings@[j] == cleared(bs0)[j],
                canvas@.staged == draw_staged_model(
                    LayoutV::Buttons(ButtonLayoutV { bindings: bs0.take(i as int) }),
                    s0,
                ),
            decreases bs0.len() - i,
        {
            let (p, b, a) = self.bindings[i];
            proof {
                assert(old(self)@.wf());
                assert((old(self)@.bindings[i as int]).0.wf());
                assert(p == bs0[i as int].0);
            }
            canvas.set(p, b.color);
            self.bindings.set(i, (p, Button { stale: false, color: b.color }, a));
            proof {
                assert(bs0.take(i as int + 1).drop_last() =~= bs0.take(i as int));
                assert(bs0.take(i as int + 1).last() == bs0[i as int]);
                assert(canvas@.staged =~= draw_staged_model(
                    LayoutV::Buttons(ButtonLayoutV { bindings: bs0.take(i as int + 1) }),
                    s0,
                ));
            }
            i = i + 1;
        }
        proof {
            assert(bs0.take(bs0.len() as int) =~= bs0);
            assert(self.bindings@ =~= cleared(bs0));
        }
    }
}

impl ValueLayout {
    /// Take the freshly sampled scalar; report whether it differed.
    pub fn update(&mut self, vol: Volume) -> (changed: bool)
        ensures
            *final(self) == (ValueLayout {
                value: vol,
                marker: old(self).marker,
                filled: old(self).filled,
                empty: old(self).empty,
            }),
            changed == (old(self).value != vol),
    {
        let changed = self.value != vol;
        self.value = vol;
        changed
    }

    /// The action a press answers: set the scalar to the pressed position.
    pub fn input(&self, m: Message) -> (a: Action)
        requires
            m.wf(),
        ensures
            a@ == value_action_model(m),
            a.wf(),
    {
        match m {
            Message::Press { pad } => match pad {
                Pad::Grid { x, y } => Action::Run(
                    Command::SetVolume(Volume::of_index(y * 8 + x, 63)),
                ),
                _ => Action::Nothing,
            },
            Message::Release { .. } => Action::Nothing,
        }
    }

    /// Stage the whole grid as a bar for the current scalar.
    pub fn draw(&self, canvas: &mut Canvas)
        requires
            self.wf(),
            old(canvas).wf(),
        ensures
            final(canvas).wf(),
            final(canvas)@.staged == draw_staged_model(LayoutV::Value(*self), old(canvas)@.staged),
            final(canvas)@.cache == old(canvas)@.cache,
    {
        let ghost s0 = old(canvas)@.staged;
        let mut idx: u8 = 0;
        while idx < 64
            invariant
                s0 == old(canvas)@.staged,
                idx <= 64,
                self.wf(),
                canvas.wf(),
                s0.len() == old(canvas)@.staged.len(),
                canvas@.cache == old(canvas)@.cache,
                forall|c: int|
                    16 <= c < 16 + idx ==> canvas@.staged[c] == Some(
                        bar_color_spec(c - 16, 63, self.value, self.marker, self.filled, self.empty),
                    ),
                forall|c: int| 0 <= c < 16 ==> canvas@.staged[c] == s0[c],
                forall|c: int| 16 + idx <= c < 80 ==> canvas@.staged[c] == s0[c],
            decreases 64 - idx,
        {
            let x = idx % 8;
            let y = idx / 8;
            let pad = Pad::Grid { x, y };
            let col = bar_color(idx, 63, self.value, self.marker, self.filled, self.empty);
            proof {
                assert(pad.code_spec() == 16 + idx);
            }
            canvas.set(pad, col);
            idx = idx + 1;
        }
        proof {
            assert(canvas@.staged =~= draw_staged_model(LayoutV::Value(*self), s0));
        }
    }
}

impl ChildLayout {
    /// Forwarded `update`: see [`child_update_model`].
    pub fn update(&mut self, vol: Volume) -> (changed: bool)
        ensures
            final(self)@ == child_update_model(old(self)@, vol).0,
            changed == child_update_model(old(self)@, vol).1,
    {
        match self {
            ChildLayout::Buttons(b) => b.has_stale(),
            ChildLayout::Value(v) => v.update(vol),
        }
    }

    /// Forwarded `input`: see [`child_input_model`].
    pub fn input(&self, m: Message) -> (a: Action)
        requires
            m.wf(),
        ensures
            a@ == child_input_model(self@, m),
            a.wf(),
    {
        match self {
            ChildLayout::Buttons(b) => match m {
                Message::Press { pad } => b.action_for(pad).to_action(),
                Message::Release { .. } => Action::Nothing,
            },
            ChildLayout::Value(v) => v.input(m),
        }
    }

    /// Forwarded `draw`: see [`child_drawn_at`].
    pub fn draw(&mut self, canvas: &mut Canvas)
        requires
            old(self)@.wf(),
            old(canvas).wf(),
        ensures
            final(self)@ == (match old(self)@ {
                ChildLayoutV::Buttons(b) => ChildLayoutV::Buttons(
                    ButtonLayoutV { bindings: cleared(b.bindings) },
                ),
                ChildLayoutV::Value(_) => old(self)@,
            }),
            final(canvas).wf(),
            final(canvas)@.staged.len() == old(canvas)@.staged.len(),
            forall|c: int|
                0 <= c < old(canvas)@.staged.len() ==> final(canvas)@.staged[c] == (
                match child_drawn_at(old(self)@, c) {
                    Some(col) => Some(col),
                    None => old(canvas)@.staged[c],
                }),
            final(canvas)@.cache == old(canvas)@.cache,
    {
        match self {
            ChildLayout::Buttons(b) => b.draw(canvas),
            ChildLayout::Value(v) => v.draw(canvas),
        }
    }
}

impl Layout {
    /// Runs right before this layout becomes the active one: a tabbed
    /// container resets its selection to the first tab.
    pub fn show(&mut self)
        ensures
            final(self)@ == show_model(old(self)@),
            old(self)@.wf() ==> final(self)@.wf(),
    {
        match self {
            Layout::Tabbed(t) => {
                t.selected = 0;
                proof {
                    assert(t@.tabs =~= old(self)@->Tabbed_0.tabs);
                }
            },
            _ => {},
        }
    }

    /// Runs right before this layout stops being active.  No variant holds
    /// a resource to release, so nothing changes.
    pub fn conceal(&mut self)
        ensures
            final(self)@ == conceal_model(old(self)@),
            *final(self) == *old(self),
    {
    }

    /// Take the freshly sampled volume; report whether a redraw is
    /// warranted.  A tabbed container forwards to its selected child.
    pub fn update(&mut self, vol: Volume) -> (changed: bool)
        requires
            old(self)@.wf(),
            vol.wf(),
        ensures
            final(self)@ == update_model(old(self)@, vol).0,
            changed == update_model(old(self)@, vol).1,
            final(self)@.wf(),
    {
        match self {
            Layout::Buttons(b) => b.has_stale(),
            Layout::Value(v) => v.update(vol),
            Layout::Tabbed(t) => {
                let sel = t.selected as usize;
                let child = elem_mut(&mut t.tabs, sel);
                let changed = child.update(vol);
                proof {
                    assert(t@.tabs =~= old(self)@->Tabbed_0.tabs.update(
                        old(self)@->Tabbed_0.selected,
                        child_update_model(
                            old(self)@->Tabbed_0.tabs[old(self)@->Tabbed_0.selected],
                            vol,
                        ).0,
                    ));
                }
                changed
            },
        }
    }

    /// Handle one message, answering the requested [`Action`].  A tabbed
    /// container intercepts a press on a top pad that names a tab: it
    /// selects that tab and consumes the event; anything else is forwarded
    /// unchanged to the selected child.
    pub fn input(&mut self, m: Message) -> (a: Action)
        requires
            old(self)@.wf(),
            m.wf(),
        ensures
            final(self)@ == input_model(old(self)@, m).0,
            a@ == input_model(old(self)@, m).1,
            final(self)@.wf(),
            a.wf(),
    {
        match self {
            Layout::Buttons(b) => match m {
                Message::Press { pad } => b.action_for(pad).to_action(),
                Message::Release { .. } => Action::Nothing,
            },
            Layout::Value(v) => v.input(m),
            Layout::Tabbed(t) => {
                let forward: bool = match m {
                    Message::Press { pad: Pad::Top { index } } => {
                        if (index as usize) < t.tabs.len() {
                            t.selected = index;
                            proof {
                                assert(t@.tabs =~= old(self)@->Tabbed_0.tabs);
                            }
                            false
                        } else {
                            true
                        }
                    },
                    _ => true,
                };
                if forward {
                    let child = &t.tabs[t.selected as usize];
                    child.input(m)
                } else {
                    Action::Nothing
                }
            },
        }
    }

    /// Stage this layout's full visual state: a tabbed container first
    /// stages the tab row, then lets the selected child stage the body.
    pub fn draw(&mut self, canvas: &mut Canvas)
        requires
            old(self)@.wf(),
            old(canvas).wf(),
        ensures
            final(self)@ == draw_layout_model(old(self)@),
            final(self)@.wf(),
            final(canvas).wf(),
            final(canvas)@.staged == draw_staged_model(old(self)@, old(canvas)@.staged),
            final(canvas)@.cache == old(canvas)@.cache,
    {
        let ghost s0 = old(canvas)@.staged;
        match self {
            Layout::Buttons(b) => {
                b.draw(canvas);
                proof {
                    assert(cleared(old(self)@->Buttons_0.bindings).len() == old(
                        self,
                    )@->Buttons_0.bindings.len());
                }
            },
            Layout::Value(v) => {
                v.draw(canvas);
            },
            Layout::Tabbed(t) => {
                let ghost t0 = old(self)@->Tabbed_0;
                let mut i: u8 = 0;
                while i < 8
                    invariant
                        s0 == old(canvas)@.staged,
                        t0 == old(self)@->Tabbed_0,
                        i <= 8,
                        canvas.wf(),
                        s0.len() == 80,
                        canvas@.cache == old(canvas)@.cache,
                        t@ == t0,
                        t0.wf(),
                        forall|c: int| 0 <= c < i ==> canvas@.staged[c] == Some(Color::Off),
                        forall|c: int| i <= c < 80 ==> canvas@.staged[c] == s0[c],
                    decreases 8 - i,
                {
                    canvas.set(Pad::Top { index: i }, Color::Off);
                    i = i + 1;
                }
                let mut j: usize = 0;
                while j < t.tabs.len()
                    invariant
                        s0 == old(canvas)@.staged,
                        t0 == old(self)@->Tabbed_0,
                        j <= t0.tabs.len(),
                        canvas.wf(),
                        s0.len() == 80,
                        canvas@.cache == old(canvas)@.cache,
                        t@ == t0,
                        t0.wf(),
                        forall|c: int|
                            0 <= c < j ==> canvas@.staged[c] == Some(tab_color(t0, c)),
                        forall|c: int| j <= c < 8 ==> canvas@.staged[c] == Some(Color::Off),
                        forall|c: int| 8 <= c < 80 ==> canvas@.staged[c] == s0[c],
                    decreases t0.tabs.len() - j,
                {
                    let col = if j == t.selected as usize {
                        Color::Green
                    } else {
                        Color::DimGreen
                    };
                    canvas.set(Pad::Top { index: j as u8 }, col);
                    j = j + 1;
                }
                proof {
                    assert(forall|c: int|
                        t0.tabs.len() <= c < 8 ==> tab_color(t0, c) == Color::Off);
                    assert(forall|c: int|
                        0 <= c < 8 ==> canvas@.staged[c] == Some(tab_color(t0, c)));
                }
                let sel = t.selected as usize;
                let child = elem_mut(&mut t.tabs, sel);
                let ghost c0 = t0.tabs[t0.selected];
                child.draw(canvas);
                proof {
                    assert(t@.tabs =~= t0.tabs.update(
                        t0.selected,
                        (match c0 {
                            ChildLayoutV::Buttons(b) => ChildLayoutV::Buttons(
                                ButtonLayoutV { bindings: cleared(b.bindings) },
                            ),
                            ChildLayoutV::Value(_) => c0,
                        }),
                    ));
                    assert(c0.keeps_off_top());
                    assert forall|c: int| 0 <= c < 8 implies child_drawn_at(c0, c) is None by {
                        match c0 {
                            ChildLayoutV::Buttons(b) => {
                                lemma_last_drawn_off_top(b.bindings, c);
                            },
                            ChildLayoutV::Value(_) => {},
                        }
                    }
                    assert(canvas@.staged =~= draw_staged_model(old(self)@, s0));
                }
            },
        }
    }
}

} // verus!
