//! The State Cell: the single authoritative `SectionState` slot, with a
//! version counter that drives the coalescing change-notification protocol.

use vstd::prelude::*;
use crate::projection::display_chars;
use crate::projection::PLACEHOLDER;

verus! {

/// The shared piece of truth: a category letter marking the current section,
/// and an optional positive ordinal qualifying it.
#[derive(Clone, Copy, Debug, PartialEq, Eq)]
pub struct SectionState {
    pub category: Option<char>,
    pub number: Option<u64>,
}

impl SectionState {
    /// A well-formed state never records a zero ordinal: zero is rejected at
    /// the validation boundary before it can reach the cell.
    pub open spec fn wf(self) -> bool {
        match self.number {
            Some(n) => n >= 1,
            None => true,
        }
    }
}

/// The value a fresh cell holds, and the result of a clear.
pub open spec fn cleared_state() -> SectionState {
    SectionState { category: None, number: None }
}

/// The result of setting the category: the new letter, with the number reset.
pub open spec fn category_set(letter: char) -> SectionState {
    SectionState { category: Some(letter), number: None }
}

/// The result of setting the number: the category is preserved.
pub open spec fn number_set(s: SectionState, n: u64) -> SectionState {
    SectionState { category: s.category, number: Some(n) }
}

/// True when the cell has changed since a subscriber last observed it.
pub open spec fn pending(last_seen: u64, version: u64) -> bool {
    last_seen != version
}

/// The single shared slot. Writes are linearized by the caller holding
/// exclusive access (`&mut`); every mutation installs the new value and
/// bumps the version as one atomic pair, so no reader ever sees a
/// half-updated state.
pub struct StateCell {
    current: SectionState,
    ver: u64,
}

impl StateCell {
    /// The value the cell currently holds.
    pub closed spec fn value(self) -> SectionState {
        self.current
    }

    /// How many mutations the cell has seen.
    pub closed spec fn version(self) -> u64 {
        self.ver
    }

    /// A fresh cell reads as the cleared state.
    pub fn new() -> (r: StateCell)
        ensures
            r.value() == cleared_state(),
            r.version() == 0,
            r.value().wf(),
    {
        StateCell { current: SectionState { category: None, number: None }, ver: 0 }
    }

    /// Read the current value without mutating anything.
    pub fn read(&self) -> (r: SectionState)
        ensures
            r == self.value(),
    {
        self.current
    }

    /// The current version, for subscribers comparing against `last_seen`.
    pub fn current_version(&self) -> (r: u64)
        ensures
            r == self.version(),
    {
        self.ver
    }

    /// Atomically install `new_value`, overwriting both fields, and record
    /// one change notification (the version bump) for all subscribers.
    pub fn replace(&mut self, new_value: SectionState)
        requires
            old(self).version() < u64::MAX,
        ensures
            final(self).value() == new_value,
            final(self).version() == old(self).version() + 1,
    {
        self.current = new_value;
        self.ver = self.ver + 1;
    }

    /// Atomically read the current value, apply `f`, and install the result,
    /// notifying subscribers; used when one field changes and the other's
    /// current value must be preserved.
    pub fn modify<F: Fn(SectionState) -> SectionState>(&mut self, f: F)
        requires
            old(self).version() < u64::MAX,
            f.requires((old(self).value(),)),
        ensures
            f.ensures((old(self).value(),), final(self).value()),
            final(self).version() == old(self).version() + 1,
    {
        let next = f(self.current);
        self.current = next;
        self.ver = self.ver + 1;
    }

    /// Start a new section: set the category letter and reset the number.
    pub fn set_category(&mut self, letter: char)
        requires
            old(self).version() < u64::MAX,
        ensures
            final(self).value() == category_set(letter),
            final(self).version() == old(self).version() + 1,
            final(self).value().wf(),
    {
        self.replace(SectionState { category: Some(letter), number: None });
    }

    /// Set only the number, leaving the category untouched. Zero and
    /// negative inputs are rejected before any mutation occurs: the state
    /// is unchanged and no notification fires.
    pub fn try_set_number(&mut self, n: i64) -> (r: Result<(), crate::errors::ControlError>)
        requires
            old(self).version() < u64::MAX,
        ensures
            n >= 1 ==> r is Ok
                && final(self).value() == number_set(old(self).value(), n as u64)
                && final(self).version() == old(self).version() + 1
                && final(self).value().wf(),
            n < 1 ==> r == Err::<(), crate::errors::ControlError>(
                crate::errors::ControlError::NonPositiveNumber,
            ) && *final(self) == *old(self),
    {
        if n < 1 {
            return Err(crate::errors::ControlError::NonPositiveNumber);
        }
        let m: u64 = n as u64;
        self.modify(
            (|s: SectionState| -> (r: SectionState)
                ensures
                    r == number_set(s, m),
                {
                    SectionState { category: s.category, number: Some(m) }
                }),
        );
        Ok(())
    }

    /// Return to the no-active-section state.
    pub fn clear(&mut self)
        requires
            old(self).version() < u64::MAX,
        ensures
            final(self).value() == cleared_state(),
            final(self).version() == old(self).version() + 1,
            final(self).value().wf(),
    {
        self.replace(SectionState { category: None, number: None });
    }

    /// Hand out a read-only subscription. It starts settled: the current
    /// value counts as already seen, so a late joiner never replays a
    /// backlog of earlier changes.
    pub fn subscribe(&self) -> (r: Subscription)
        ensures
            r.last_seen() == self.version(),
            !pending(r.last_seen(), self.version()),
    {
        Subscription { seen: self.ver }
    }
}

/// One observer's read handle: remembers the last version it observed.
/// Several rapid changes collapse into a single pending flag, so a slow
/// subscriber sees only the latest value, never an event queue.
pub struct Subscription {
    seen: u64,
}

impl Subscription {
    /// The cell version this subscriber last observed.
    pub closed spec fn last_seen(self) -> u64 {
        self.seen
    }

    /// Whether the cell has changed since this subscription last observed it.
    pub fn has_changed(&self, cell: &StateCell) -> (r: bool)
        ensures
            r == pending(self.last_seen(), cell.version()),
    {
        self.seen != cell.current_version()
    }

    /// Observe the cell: read the latest value and mark everything up to it
    /// as seen, however many changes were skipped in between.
    pub fn observe(&mut self, cell: &StateCell) -> (r: SectionState)
        ensures
            r == cell.value(),
            final(self).last_seen() == cell.version(),
            !pending(final(self).last_seen(), cell.version()),
    {
        self.seen = cell.current_version();
        cell.read()
    }
}

/// One control mutation, as the value transformation it applies to the cell.
#[derive(Clone, Copy, Debug, PartialEq, Eq)]
pub enum ControlOp {
    SetCategory(char),
    SetNumber(u64),
    Clear,
}

/// The value transformation of one control mutation.
pub open spec fn apply_op(s: SectionState, op: ControlOp) -> SectionState {
    match op {
        ControlOp::SetCategory(c) => category_set(c),
        ControlOp::SetNumber(n) => number_set(s, n),
        ControlOp::Clear => cleared_state(),
    }
}

/// The value a cell reaches after a linearized history of mutations.
pub open spec fn apply_ops(s: SectionState, ops: Seq<ControlOp>) -> SectionState
    decreases ops.len(),
{
    if ops.len() == 0 {
        s
    } else {
        apply_ops(apply_op(s, ops[0]), ops.subrange(1, ops.len() as int))
    }
}

/// Setting a category always resets the number, whatever state came
/// before: a new section starts unnumbered until explicitly numbered.
pub proof fn lemma_set_category_resets_number(s: SectionState, letter: char)
    ensures
        apply_op(s, ControlOp::SetCategory(letter)).category == Some(letter),
        apply_op(s, ControlOp::SetCategory(letter)).number is None,
{
}

/// Setting the number preserves the category, for every prior state.
pub proof fn lemma_set_number_preserves_category(s: SectionState, n: u64)
    ensures
        apply_op(s, ControlOp::SetNumber(n)).category == s.category,
        apply_op(s, ControlOp::SetNumber(n)).number == Some(n),
{
}

/// Clear is idempotent: a second clear changes nothing, and the result of
/// either always reads as no category, no number, projecting to the bare
/// placeholder.
pub proof fn lemma_clear_idempotent(s: SectionState)
    ensures
        apply_op(apply_op(s, ControlOp::Clear), ControlOp::Clear) == apply_op(s, ControlOp::Clear),
        apply_op(s, ControlOp::Clear) == cleared_state(),
        display_chars(cleared_state()) == seq![PLACEHOLDER],
{
}

/// Every accepted control mutation preserves well-formedness; the one
/// input that would break it (a non-positive number) is rejected at the
/// boundary and never becomes an op at all.
pub proof fn lemma_ops_preserve_wf(s: SectionState, op: ControlOp)
    requires
        s.wf(),
        (op matches ControlOp::SetNumber(n) ==> n >= 1),
    ensures
        apply_op(s, op).wf(),
{
}

/// Histories are linearized and the last writer wins: appending one more
/// mutation to a history transforms exactly the value the history had
/// reached.
pub proof fn lemma_apply_ops_snoc(s: SectionState, ops: Seq<ControlOp>, op: ControlOp)
    ensures
        apply_ops(s, ops.push(op)) == apply_op(apply_ops(s, ops), op),
    decreases ops.len(),
{
    let e = ops.push(op);
    if ops.len() == 0 {
        assert(e[0] == op);
        assert(e.subrange(1, e.len() as int) =~= Seq::<ControlOp>::empty());
        assert(apply_ops(s, e) == apply_ops(apply_op(s, op), e.subrange(1, e.len() as int)));
        assert(apply_ops(apply_op(s, op), Seq::<ControlOp>::empty()) == apply_op(s, op));
        assert(apply_ops(s, ops) == s);
    } else {
        let rest = ops.subrange(1, ops.len() as int);
        assert(e[0] == ops[0]);
        assert(e.subrange(1, e.len() as int) =~= rest.push(op));
        assert(apply_ops(s, e) == apply_ops(apply_op(s, ops[0]), rest.push(op)));
        lemma_apply_ops_snoc(apply_op(s, ops[0]), rest, op);
        assert(apply_ops(s, ops) == apply_ops(apply_op(s, ops[0]), rest));
    }
}

/// One mutation wakes every subscriber: after a version bump, a change is
/// pending for every subscription whose `last_seen` was at most the old
/// version, however many observers there are. Observing then yields
/// exactly the new value, by `Subscription::observe`'s contract, so once
/// changes stop, the one value every session pushes is the cell's final
/// value.
pub proof fn lemma_fan_out(version: u64, observers: Seq<u64>)
    requires
        version < u64::MAX,
        forall|i: int| 0 <= i < observers.len() ==> observers[i] <= version,
    ensures
        forall|i: int|
            0 <= i < observers.len() ==> pending(observers[i], (version + 1) as u64),
{
}

/// A subscriber that joins late starts settled — nothing pending, so no
/// backlog of earlier values is ever replayed — and what it is shown on
/// connect is determined by the latest value alone: any two histories
/// that reach the same value give a late joiner the same single
/// projection.
pub proof fn lemma_late_join(
    init1: SectionState,
    ops1: Seq<ControlOp>,
    init2: SectionState,
    ops2: Seq<ControlOp>,
    version: u64,
)
    requires
        apply_ops(init1, ops1) == apply_ops(init2, ops2),
    ensures
        !pending(version, version),
        display_chars(apply_ops(init1, ops1)) == display_chars(apply_ops(init2, ops2)),
{
}

} // verus!
