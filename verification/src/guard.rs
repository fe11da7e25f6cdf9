//! The state behind a scoped guard.
//!
//! A guard owns a context and an action.  Its parts are kept in a slot that
//! can be emptied once: triggering, defusing or disassembling the guard
//! takes them out, and dropping a guard runs the action only on what is
//! still in the slot.  So the action runs at most once, and not at all once
//! the guard was defused or disassembled.
use vstd::prelude::*;

verus! {

/// The context and the action of a guard.
pub struct GuardParts<Context, A> {
    pub context: Context,
    pub action: A,
}

/// A slot holding a guard's parts until they are taken out.
pub struct GuardSlot<Context, A> {
    parts: Option<GuardParts<Context, A>>,
}

impl<Context, A> View for GuardSlot<Context, A> {
    type V = Option<GuardParts<Context, A>>;

    closed spec fn view(&self) -> Option<GuardParts<Context, A>> {
        self.parts
    }
}

/// What can be done to a guard's slot.
#[derive(Clone, Copy, PartialEq, Eq, Debug, Structural)]
pub enum SlotOp {
    /// Read or change the context in place.
    Access,
    /// Take the parts out (trigger, defuse, disassemble, or drop).
    Take,
}

/// Whether the slot holds the parts after `op`.
pub open spec fn armed_after(armed: bool, op: SlotOp) -> bool {
    match op {
        SlotOp::Access => armed,
        SlotOp::Take => false,
    }
}

/// Whether `op` hands the parts out.
pub open spec fn hands_out(armed: bool, op: SlotOp) -> bool {
    match op {
        SlotOp::Access => false,
        SlotOp::Take => armed,
    }
}

/// How many times the parts are handed out along `ops`.
pub open spec fn handout_count(armed: bool, ops: Seq<SlotOp>) -> nat
    decreases ops.len(),
{
    if ops.len() == 0 {
        0
    } else {
        (if hands_out(armed, ops[0]) {
            1nat
        } else {
            0nat
        }) + handout_count(armed_after(armed, ops[0]), ops.drop_first())
    }
}

/// An empty slot never hands anything out.
pub proof fn lemma_empty_slot_hands_out_nothing(ops: Seq<SlotOp>)
    ensures
        handout_count(false, ops) == 0,
    decreases ops.len(),
{
    if ops.len() > 0 {
        lemma_empty_slot_hands_out_nothing(ops.drop_first());
    }
}

/// A guard's parts, and so its action, are handed out at most once; an
/// armed guard hands them out exactly when it is taken apart at all.
pub proof fn law_parts_handed_out_once(armed: bool, ops: Seq<SlotOp>)
    ensures
        handout_count(armed, ops) <= 1,
        handout_count(armed, ops) == 1 <==> (armed && ops.contains(SlotOp::Take)),
    decreases ops.len(),
{
    if ops.len() > 0 {
        let rest = ops.drop_first();
        law_parts_handed_out_once(armed_after(armed, ops[0]), rest);
        if ops[0] == SlotOp::Take {
            lemma_empty_slot_hands_out_nothing(rest);
        } else {
            assert forall|x: SlotOp| rest.contains(x) implies ops.contains(x) by {
                let i = choose|i: int| 0 <= i < rest.len() && rest[i] == x;
                assert(ops[i + 1] == x);
            }
            if ops.contains(SlotOp::Take) {
                let i = choose|i: int| 0 <= i < ops.len() && ops[i] == SlotOp::Take;
                assert(rest[i - 1] == SlotOp::Take);
            }
        }
    }
}

/// What can happen to a guard.
#[derive(Clone, Copy, PartialEq, Eq, Debug, Structural)]
pub enum GuardEvent {
    /// Its context is read or changed in place.
    Access,
    /// It is triggered: the action runs now.
    Trigger,
    /// It is defused: the context is returned and the action dropped.
    Defuse,
    /// It is disassembled: context and action are returned.
    Disassemble,
    /// It is dropped: the action runs on what the slot still holds.
    Drop,
}

/// The slot operation behind a guard event.
pub open spec fn slot_op(e: GuardEvent) -> SlotOp {
    match e {
        GuardEvent::Access => SlotOp::Access,
        _ => SlotOp::Take,
    }
}

/// Whether the event runs the action on the parts it takes out.
pub open spec fn runs_action(e: GuardEvent) -> bool {
    e == GuardEvent::Trigger || e == GuardEvent::Drop
}

/// How many times the action runs along `es`.
pub open spec fn action_runs(armed: bool, es: Seq<GuardEvent>) -> nat
    decreases es.len(),
{
    if es.len() == 0 {
        0
    } else {
        (if hands_out(armed, slot_op(es[0])) && runs_action(es[0]) {
            1nat
        } else {
            0nat
        }) + action_runs(armed_after(armed, slot_op(es[0])), es.drop_first())
    }
}

/// The first event of `es` that takes the guard apart.
pub open spec fn first_consuming(es: Seq<GuardEvent>) -> Option<GuardEvent>
    decreases es.len(),
{
    if es.len() == 0 {
        None
    } else if es[0] == GuardEvent::Access {
        first_consuming(es.drop_first())
    } else {
        Some(es[0])
    }
}

/// A taken-apart guard never runs its action again.
pub proof fn lemma_consumed_guard_runs_nothing(es: Seq<GuardEvent>)
    ensures
        action_runs(false, es) == 0,
    decreases es.len(),
{
    if es.len() > 0 {
        lemma_consumed_guard_runs_nothing(es.drop_first());
    }
}

/// A guard runs its action exactly once if it is first taken apart by
/// triggering or dropping it, and never if it is first defused or
/// disassembled (or never taken apart).
pub proof fn law_action_runs_once_unless_defused(es: Seq<GuardEvent>)
    ensures
        action_runs(true, es) == (if first_consuming(es) matches Some(e) && runs_action(e) {
            1nat
        } else {
            0nat
        }),
    decreases es.len(),
{
    if es.len() > 0 {
        if es[0] == GuardEvent::Access {
            law_action_runs_once_unless_defused(es.drop_first());
        } else {
            lemma_consumed_guard_runs_nothing(es.drop_first());
        }
    }
}

impl<Context, A> GuardSlot<Context, A> {
    /// A slot holding the given context and action.
    pub fn assemble(context: Context, action: A) -> (r: Self)
        ensures
            r@ == Some(GuardParts { context, action }),
    {
        GuardSlot { parts: Some(GuardParts { context, action }) }
    }

    /// Whether the slot still holds the parts.
    pub fn is_armed(&self) -> (b: bool)
        ensures
            b == (self@ is Some),
    {
        self.parts.is_some()
    }

    /// The context, read in place.
    pub fn context(&self) -> (r: &Context)
        requires
            self@ is Some,
        ensures
            *r == self@.unwrap().context,
    {
        let p = self.parts.as_ref().unwrap();
        &p.context
    }

    /// The context, for changing in place; the action is left as it was.
    pub fn context_mut(&mut self) -> (r: &mut Context)
        requires
            old(self)@ is Some,
        ensures
            *r == old(self)@.unwrap().context,
            final(self)@ == Some(GuardParts { context: *final(r), action: old(self)@.unwrap().action }),
    {
        let p = self.parts.as_mut().unwrap();
        &mut p.context
    }

    /// Hands out whatever the slot holds and leaves it empty.
    pub fn take(&mut self) -> (r: Option<GuardParts<Context, A>>)
        ensures
            r == old(self)@,
            final(self)@ is None,
            (r is Some) == hands_out(old(self)@ is Some, SlotOp::Take),
            (final(self)@ is Some) == armed_after(old(self)@ is Some, SlotOp::Take),
    {
        self.parts.take()
    }

    /// Takes both parts out of an armed slot.
    pub fn disassemble(&mut self) -> (r: (Context, A))
        requires
            old(self)@ is Some,
        ensures
            r.0 == old(self)@.unwrap().context,
            r.1 == old(self)@.unwrap().action,
            final(self)@ is None,
    {
        let p = self.parts.take().unwrap();
        (p.context, p.action)
    }

    /// Takes the context out of an armed slot and drops the action unrun.
    pub fn defuse(&mut self) -> (r: Context)
        requires
            old(self)@ is Some,
        ensures
            r == old(self)@.unwrap().context,
            final(self)@ is None,
    {
        let (context, _action) = self.disassemble();
        context
    }
}

/// Passes a captured value and its action through unchanged; the bound
/// makes the compiler infer the action as a closure over the value.
pub fn __fn<V, F, R>(value: (V, F)) -> (r: (V, F)) where F: FnOnce(V) -> R
    ensures
        r == value,
{
    value
}

} // verus!
