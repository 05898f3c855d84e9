//! The layout stack engine and its control step.
//!
//! The engine owns an ordered stack of layouts — the last one is the active,
//! visible one — and the diffing canvas.  Actions mutate the stack with
//! `show`/`conceal` sequencing; the stack is never allowed to become empty: a
//! pop on the root layout is refused and ignored, the root refusing
//! dismissal.  A ghost log records every lifecycle call, in order, with the
//! value the layout had when the call was made, so the sequencing itself is
//! part of the verified contract.
//!
//! One call of [`Engine::step`] runs one iteration of the control loop: take
//! the sampled volume (a frame without one is skipped whole), let the active
//! layout update and draw, dispatch the pending message, apply the resulting
//! action, and flush the canvas.  The caller performs the returned writes on
//! the device and runs the returned command against the mixer.

use crate::actions::Action;
use crate::actions::ActionV;
use crate::actions::Command;
use crate::canvas::Canvas;
use crate::canvas::CanvasV;
use crate::canvas::merged;
use crate::canvas::writes_upto;
use crate::layouts::Layout;
use crate::layouts::LayoutV;
use crate::layouts::conceal_model;
use crate::layouts::draw_layout_model;
use crate::layouts::draw_staged_model;
use crate::layouts::elem_mut;
use crate::layouts::input_model;
use crate::layouts::show_model;
use crate::layouts::update_model;
use crate::model::Color;
use crate::model::Message;
use crate::model::PAD_COUNT;
use crate::model::Pad;
use crate::volume::Volume;
use vstd::prelude::*;

verus! {

/// One lifecycle call the engine made, carrying the value the layout had
/// when the call was made.
pub enum LifecycleEvent {
    Concealed(LayoutV),
    Shown(LayoutV),
}

/// Ghost model of [`Engine`].
pub struct EngineV {
    pub stack: Seq<LayoutV>,
    pub canvas: CanvasV,
    pub events: Seq<LifecycleEvent>,
}

/// The layout stack engine.
pub struct Engine {
    pub stack: Vec<Layout>,
    pub canvas: Canvas,
    pub events: Ghost<Seq<LifecycleEvent>>,
}

impl View for Engine {
    type V = EngineV;

    open spec fn view(&self) -> EngineV {
        EngineV {
            stack: Seq::new(self.stack@.len(), |i: int| self.stack@[i]@),
            canvas: self.canvas@,
            events: self.events@,
        }
    }
}

/// A non-empty stack of well-formed layouts.
pub open spec fn stack_wf(stack: Seq<LayoutV>) -> bool {
    stack.len() >= 1 && forall|i: int| 0 <= i < stack.len() ==> (#[trigger] stack[i]).wf()
}

/// What applying an action does to a stack: the new stack, the lifecycle
/// calls made in order, and the command handed to the caller.
pub open spec fn apply_model(stack: Seq<LayoutV>, a: ActionV) -> (
    Seq<LayoutV>,
    Seq<LifecycleEvent>,
    Option<Command>,
) {
    match a {
        ActionV::Nothing => (stack, Seq::empty(), None),
        ActionV::PopLayout => if stack.len() > 1 {
            let top = stack.last();
            let rest = stack.drop_last();
            let newtop = rest.last();
            (
                rest.update(rest.len() - 1, show_model(newtop)),
                seq![LifecycleEvent::Concealed(top), LifecycleEvent::Shown(newtop)],
                None,
            )
        } else {
            (stack, Seq::empty(), None)
        },
        ActionV::PushLayout(l) => {
            let top = stack.last();
            (
                stack.update(stack.len() - 1, conceal_model(top)).push(show_model(l)),
                seq![LifecycleEvent::Concealed(top), LifecycleEvent::Shown(l)],
                None,
            )
        },
        ActionV::ReplaceLayout(l) => {
            let top = stack.last();
            (
                stack.update(stack.len() - 1, show_model(l)),
                seq![LifecycleEvent::Concealed(top), LifecycleEvent::Shown(l)],
                None,
            )
        },
        ActionV::Run(c) => (stack, Seq::empty(), Some(c)),
    }
}

/// A whole sequence of actions applied in order.
pub open spec fn apply_all(stack: Seq<LayoutV>, actions: Seq<ActionV>) -> Seq<LayoutV>
    decreases actions.len(),
{
    if actions.len() == 0 {
        stack
    } else {
        apply_all(apply_model(stack, actions[0]).0, actions.drop_first())
    }
}

/// A staged row with every pad clear.
pub open spec fn blank_staged() -> Seq<Option<Color>> {
    Seq::new(PAD_COUNT as nat, |i: int| Option::None)
}

/// What one control step does: the new engine state, the writes to perform
/// on the device, and the command to run against the mixer.  A frame without
/// a volume sample is skipped whole: no draw, no flush, no writes.
pub open spec fn step_model(e: EngineV, vol: Option<Volume>, msg: Option<Message>) -> (
    EngineV,
    Seq<(Pad, Color)>,
    Option<Command>,
) {
    match vol {
        Option::None => (e, Seq::empty(), Option::None),
        Option::Some(v) => {
            let top1 = update_model(e.stack.last(), v).0;
            let staged1 = draw_staged_model(top1, e.canvas.staged);
            let top2 = draw_layout_model(top1);
            let (top3, act) = match msg {
                Option::Some(m) => input_model(top2, m),
                Option::None => (top2, ActionV::Nothing),
            };
            let stack1 = e.stack.update(e.stack.len() - 1, top3);
            let (stack2, evs, cmd) = apply_model(stack1, act);
            (
                EngineV {
                    stack: stack2,
                    canvas: CanvasV { cache: merged(e.canvas.cache, staged1), staged: blank_staged() },
                    events: e.events + evs,
                },
                writes_upto(e.canvas.cache, staged1, PAD_COUNT as int),
                cmd,
            )
        },
    }
}

/// What one control step hands back to the caller.
pub struct StepResult {
    /// The changed pads to send to the device, in increasing pad-code order.
    pub writes: Vec<(Pad, Color)>,
    /// The deferred command to run, if the dispatched action asked for one.
    pub effect: Option<Command>,
}

impl Engine {
    /// The stack is never empty, every layout on it is well-formed, and the
    /// canvas covers every pad.
    pub open spec fn wf(self) -> bool {
        stack_wf(self@.stack) && self.canvas.wf()
    }

    /// Start the engine: show the root layout and put it on the stack, with
    /// a fresh canvas.  The root is never popped.
    pub fn new(root: Layout) -> (e: Engine)
        requires
            root.wf(),
        ensures
            e.wf(),
            e@.stack == seq![show_model(root@)],
            e@.events == seq![LifecycleEvent::Shown(root@)],
            forall|i: int| 0 <= i < PAD_COUNT ==> e@.canvas.cache[i] is None,
            forall|i: int| 0 <= i < PAD_COUNT ==> e@.canvas.staged[i] is None,
    {
        let ghost r0 = root@;
        let ghost ev0: Seq<LifecycleEvent> = seq![LifecycleEvent::Shown(r0)];
        let mut root = root;
        root.show();
        let mut stack: Vec<Layout> = Vec::new();
        stack.push(root);
        let e = Engine {
            stack,
            canvas: Canvas::new(),
            events: Ghost(ev0),
        };
        proof {
            assert(e@.stack =~= seq![show_model(r0)]);
        }
        e
    }

    /// How many layouts the stack holds.
    pub fn depth(&self) -> (n: usize)
        ensures
            n == self@.stack.len(),
    {
        self.stack.len()
    }

    /// Apply one action to the stack, with `show`/`conceal` sequencing as
    /// [`apply_model`] states it: a pop on the root is refused and ignored;
    /// a deferred command is handed back for the caller to run.
    pub fn apply_action(&mut self, a: Action) -> (cmd: Option<Command>)
        requires
            old(self).wf(),
            a.wf(),
        ensures
            final(self).wf(),
            final(self)@.stack == apply_model(old(self)@.stack, a@).0,
            final(self)@.events == old(self)@.events + apply_model(old(self)@.stack, a@).1,
            cmd == apply_model(old(self)@.stack, a@).2,
            final(self)@.canvas == old(self)@.canvas,
    {
        let ghost st0 = self@.stack;
        let ghost evs0 = self.events@;
        match a {
            Action::Nothing => Option::None,
            Action::Run(c) => Option::Some(c),
            Action::PopLayout => {
                if self.stack.len() > 1 {
                    let ghost top0 = st0.last();
                    let mut top = self.stack.pop().unwrap();
                    top.conceal();
                    let n = self.stack.len();
                    let newtop = elem_mut(&mut self.stack, n - 1);
                    let ghost pre = (*newtop)@;
                    let ghost ev1: Seq<LifecycleEvent> = evs0 + seq![
                        LifecycleEvent::Concealed(top0),
                        LifecycleEvent::Shown(pre),
                    ];
                    newtop.show();
                    self.events = Ghost(ev1);
                    proof {
                        assert(pre == st0.drop_last().last());
                        assert(self@.stack =~= st0.drop_last().update(
                            st0.drop_last().len() - 1,
                            show_model(pre),
                        ));
                    }
                    Option::None
                } else {
                    Option::None
                }
            },
            Action::PushLayout(l) => {
                let ghost top0 = st0.last();
                let ghost l0 = l@;
                let n = self.stack.len();
                let top = elem_mut(&mut self.stack, n - 1);
                top.conceal();
                let ghost ev1: Seq<LifecycleEvent> = evs0 + seq![
                    LifecycleEvent::Concealed(top0),
                    LifecycleEvent::Shown(l0),
                ];
                let mut newl = *l;
                newl.show();
                self.stack.push(newl);
                self.events = Ghost(ev1);
                proof {
                    assert(self@.stack =~= st0.update(st0.len() - 1, conceal_model(top0)).push(
                        show_model(l0),
                    ));
                }
                Option::None
            },
            Action::ReplaceLayout(l) => {
                let ghost top0 = st0.last();
                let ghost l0 = l@;
                let ghost ev1: Seq<LifecycleEvent> = evs0 + seq![
                    LifecycleEvent::Concealed(top0),
                    LifecycleEvent::Shown(l0),
                ];
                let mut top = self.stack.pop().unwrap();
                top.conceal();
                let mut newl = *l;
                newl.show();
                self.stack.push(newl);
                self.events = Ghost(ev1);
                proof {
                    assert(self@.stack =~= st0.update(st0.len() - 1, show_model(l0)));
                }
                Option::None
            },
        }
    }

    /// Run one iteration of the control loop, as [`step_model`] states it:
    /// update and draw the active layout, dispatch the pending message,
    /// apply the action it answers, and flush the canvas.  The caller sends
    /// the returned writes to the device and runs the returned command.
    pub fn step(&mut self, vol: Option<Volume>, msg: Option<Message>) -> (out: StepResult)
        requires
            old(self).wf(),
            vol matches Some(v) ==> v.wf(),
            msg matches Some(m) ==> m.wf(),
        ensures
            final(self).wf(),
            final(self)@ == step_model(old(self)@, vol, msg).0,
            out.writes@ == step_model(old(self)@, vol, msg).1,
            out.effect == step_model(old(self)@, vol, msg).2,
    {
        let v = match vol {
            Option::Some(v) => v,
            Option::None => {
                return StepResult { writes: Vec::new(), effect: Option::None };
            },
        };
        let ghost e0 = self@;
        let n = self.stack.len();
        let top = elem_mut(&mut self.stack, n - 1);
        let _changed = top.update(v);
        top.draw(&mut self.canvas);
        let act: Action = match msg {
            Option::Some(m) => top.input(m),
            Option::None => Action::Nothing,
        };
        proof {
            let top1 = update_model(e0.stack.last(), v).0;
            let top2 = draw_layout_model(top1);
            let top3 = (match msg {
                Option::Some(m) => input_model(top2, m),
                Option::None => (top2, ActionV::Nothing),
            }).0;
            assert(self@.stack =~= e0.stack.update(e0.stack.len() - 1, top3));
            assert(stack_wf(self@.stack));
        }
        let effect = self.apply_action(act);
        let writes = self.canvas.flush();
        proof {
            let top1 = update_model(e0.stack.last(), v).0;
            let staged1 = draw_staged_model(top1, e0.canvas.staged);
            assert(self@.canvas.staged =~= blank_staged());
            assert(writes@ == writes_upto(e0.canvas.cache, staged1, PAD_COUNT as int));
        }
        StepResult { writes, effect }
    }
}

/// Applying any single action to a non-empty stack leaves it non-empty: in
/// particular a pop on the root is refused rather than emptying the stack.
pub proof fn lemma_apply_keeps_stack(stack: Seq<LayoutV>, a: ActionV)
    requires
        stack.len() >= 1,
    ensures
        apply_model(stack, a).0.len() >= 1,
{
}

/// No sequence of push, pop and replace actions — nor any other — ever
/// empties the stack.
pub proof fn lemma_apply_all_keeps_stack(stack: Seq<LayoutV>, actions: Seq<ActionV>)
    requires
        stack.len() >= 1,
    ensures
        apply_all(stack, actions).len() >= 1,
    decreases actions.len(),
{
    if actions.len() > 0 {
        lemma_apply_keeps_stack(stack, actions[0]);
        lemma_apply_all_keeps_stack(apply_model(stack, actions[0]).0, actions.drop_first());
    }
}

/// Pushing a layout and immediately popping it returns the stack to its
/// prior top layout — exactly, when that layout carries no transient
/// selection to reset — and makes the lifecycle calls in order:
/// conceal(old top), show(pushed), conceal(pushed as shown), show(old top).
pub proof fn lemma_push_then_pop(stack: Seq<LayoutV>, l: LayoutV)
    requires
        stack.len() >= 1,
    ensures
        ({
            let (s1, e1, _) = apply_model(stack, ActionV::PushLayout(l));
            let (s2, e2, _) = apply_model(s1, ActionV::PopLayout);
            &&& s2 == stack.update(stack.len() - 1, show_model(stack.last()))
            &&& e1 + e2 == seq![
                LifecycleEvent::Concealed(stack.last()),
                LifecycleEvent::Shown(l),
                LifecycleEvent::Concealed(show_model(l)),
                LifecycleEvent::Shown(stack.last()),
            ]
            &&& !(stack.last() is Tabbed) ==> s2 == stack
        }),
{
    let (s1, e1, _) = apply_model(stack, ActionV::PushLayout(l));
    let (s2, e2, _) = apply_model(s1, ActionV::PopLayout);
    assert(stack.update(stack.len() - 1, conceal_model(stack.last())) =~= stack);
    assert(s1.drop_last() =~= stack);
    assert(s2 =~= stack.update(stack.len() - 1, show_model(stack.last())));
    assert(e1 + e2 =~= seq![
        LifecycleEvent::Concealed(stack.last()),
        LifecycleEvent::Shown(l),
        LifecycleEvent::Concealed(show_model(l)),
        LifecycleEvent::Shown(stack.last()),
    ]);
    if !(stack.last() is Tabbed) {
        assert(show_model(stack.last()) == stack.last());
        assert(stack.update(stack.len() - 1, show_model(stack.last())) =~= stack);
    }
}

} // verus!

