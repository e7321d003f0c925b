//! Terminal modes: which driver toggles to perform on entry and on exit, and
//! which of them are in force.
//!
//! The driver itself is outside this library. Here a mode change is a
//! [`DriverOp`] for the caller to perform, and [`TerminalMode`] records the
//! toggles that were performed, so that leaving only undoes what is on.

use vstd::prelude::*;
use vstd::seq_lib::{lemma_no_dup_in_concat, lemma_seq_concat_contains_all_elements};

verus! {

/// One toggle of the terminal driver.
#[derive(Clone, Copy, Debug, PartialEq, Eq)]
pub enum DriverOp {
    EnableRawMode,
    DisableRawMode,
    EnterAlternateScreen,
    LeaveAlternateScreen,
    HideCursor,
    ShowCursor,
    EnableMouseCapture,
    DisableMouseCapture,
    EnableBracketedPaste,
    DisableBracketedPaste,
}

/// Every toggle that turns a mode off, in the order of an exit plan.
pub open spec fn restore_ops() -> Seq<DriverOp> {
    seq![
        DriverOp::DisableBracketedPaste,
        DriverOp::DisableMouseCapture,
        DriverOp::LeaveAlternateScreen,
        DriverOp::DisableRawMode,
        DriverOp::ShowCursor,
    ]
}

/// The toggles that are currently on.
#[derive(Clone, Copy, Debug, PartialEq, Eq)]
pub struct TerminalMode {
    pub raw: bool,
    pub alternate_screen: bool,
    pub cursor_hidden: bool,
    pub mouse_capture: bool,
    pub bracketed_paste: bool,
}

/// The sequence that holds `op` where `wanted`, and nothing otherwise.
pub open spec fn if_wanted(wanted: bool, op: DriverOp) -> Seq<DriverOp> {
    if wanted {
        seq![op]
    } else {
        Seq::<DriverOp>::empty()
    }
}

/// The toggles performed on entry, in order: raw mode, alternate screen,
/// hidden cursor, then mouse capture and bracketed paste where asked for.
pub open spec fn setup_ops(mouse: bool, paste: bool) -> Seq<DriverOp> {
    seq![DriverOp::EnableRawMode, DriverOp::EnterAlternateScreen, DriverOp::HideCursor] + if_wanted(
        mouse,
        DriverOp::EnableMouseCapture,
    ) + if_wanted(paste, DriverOp::EnableBracketedPaste)
}

impl TerminalMode {
    /// Nothing is on: the terminal is as it was found.
    pub open spec fn is_restored(self) -> bool {
        !self.raw && !self.alternate_screen && !self.cursor_hidden && !self.mouse_capture
            && !self.bracketed_paste
    }

    /// The mode once `op` has been performed.
    pub open spec fn after(self, op: DriverOp) -> TerminalMode {
        match op {
            DriverOp::EnableRawMode => TerminalMode { raw: true, ..self },
            DriverOp::DisableRawMode => TerminalMode { raw: false, ..self },
            DriverOp::EnterAlternateScreen => TerminalMode { alternate_screen: true, ..self },
            DriverOp::LeaveAlternateScreen => TerminalMode { alternate_screen: false, ..self },
            DriverOp::HideCursor => TerminalMode { cursor_hidden: true, ..self },
            DriverOp::ShowCursor => TerminalMode { cursor_hidden: false, ..self },
            DriverOp::EnableMouseCapture => TerminalMode { mouse_capture: true, ..self },
            DriverOp::DisableMouseCapture => TerminalMode { mouse_capture: false, ..self },
            DriverOp::EnableBracketedPaste => TerminalMode { bracketed_paste: true, ..self },
            DriverOp::DisableBracketedPaste => TerminalMode { bracketed_paste: false, ..self },
        }
    }

    /// The mode once `ops` have been performed one after the other.
    pub open spec fn after_all(self, ops: Seq<DriverOp>) -> TerminalMode
        decreases ops.len(),
    {
        if ops.len() == 0 {
            self
        } else {
            self.after_all(ops.drop_last()).after(ops.last())
        }
    }

    /// The toggles that undo what is on, in order: paste and mouse capture,
    /// alternate screen, raw mode, cursor. A toggle that is off is left out.
    pub open spec fn teardown_ops(self) -> Seq<DriverOp> {
        if_wanted(self.bracketed_paste, DriverOp::DisableBracketedPaste) + if_wanted(
            self.mouse_capture,
            DriverOp::DisableMouseCapture,
        ) + if_wanted(self.alternate_screen, DriverOp::LeaveAlternateScreen) + if_wanted(
            self.raw,
            DriverOp::DisableRawMode,
        ) + if_wanted(self.cursor_hidden, DriverOp::ShowCursor)
    }

    /// The mode of a terminal that nothing has touched.
    pub fn restored() -> (mode: TerminalMode)
        ensures
            mode.is_restored(),
    {
        TerminalMode {
            raw: false,
            alternate_screen: false,
            cursor_hidden: false,
            mouse_capture: false,
            bracketed_paste: false,
        }
    }

    /// Records that `op` has been performed.
    pub fn apply(&mut self, op: DriverOp)
        ensures
            *final(self) == old(self).after(op),
    {
        match op {
            DriverOp::EnableRawMode => {
                self.raw = true;
            },
            DriverOp::DisableRawMode => {
                self.raw = false;
            },
            DriverOp::EnterAlternateScreen => {
                self.alternate_screen = true;
            },
            DriverOp::LeaveAlternateScreen => {
                self.alternate_screen = false;
            },
            DriverOp::HideCursor => {
                self.cursor_hidden = true;
            },
            DriverOp::ShowCursor => {
                self.cursor_hidden = false;
            },
            DriverOp::EnableMouseCapture => {
                self.mouse_capture = true;
            },
            DriverOp::DisableMouseCapture => {
                self.mouse_capture = false;
            },
            DriverOp::EnableBracketedPaste => {
                self.bracketed_paste = true;
            },
            DriverOp::DisableBracketedPaste => {
                self.bracketed_paste = false;
            },
        }
    }

    /// Records that the first `count` toggles of `plan` have been performed,
    /// or all of them where `count` is larger than the plan.
    pub fn apply_prefix(&mut self, plan: &Vec<DriverOp>, count: usize)
        ensures
            count <= plan@.len() ==> *final(self) == old(self).after_all(plan@.take(count as int)),
            count >= plan@.len() ==> *final(self) == old(self).after_all(plan@),
    {
        let n: usize = if count <= plan.len() {
            count
        } else {
            plan.len()
        };
        let mut i: usize = 0;
        while i < n
            invariant
                i <= n <= plan@.len(),
                *self == old(self).after_all(plan@.take(i as int)),
            decreases n - i,
        {
            let op = plan[i];
            proof {
                assert(plan@.take(i + 1).drop_last() == plan@.take(i as int));
                assert(plan@.take(i + 1).last() == plan@[i as int]);
            }
            self.apply(op);
            i = i + 1;
        }
        proof {
            assert(plan@.take(plan@.len() as int) == plan@);
        }
    }

    /// The toggles that put a terminal back whose modes are not known:
    /// every mode is turned off, as on leaving a terminal where all are on.
    pub fn restore_plan() -> (plan: Vec<DriverOp>)
        ensures
            plan@ == restore_ops(),
    {
        let mut plan: Vec<DriverOp> = Vec::new();
        plan.push(DriverOp::DisableBracketedPaste);
        plan.push(DriverOp::DisableMouseCapture);
        plan.push(DriverOp::LeaveAlternateScreen);
        plan.push(DriverOp::DisableRawMode);
        plan.push(DriverOp::ShowCursor);
        plan
    }

    /// The toggles to perform on entry.
    pub fn setup_plan(mouse: bool, paste: bool) -> (plan: Vec<DriverOp>)
        ensures
            plan@ == setup_ops(mouse, paste),
    {
        let mut plan: Vec<DriverOp> = Vec::new();
        plan.push(DriverOp::EnableRawMode);
        plan.push(DriverOp::EnterAlternateScreen);
        plan.push(DriverOp::HideCursor);
        if mouse {
            plan.push(DriverOp::EnableMouseCapture);
        }
        if paste {
            plan.push(DriverOp::EnableBracketedPaste);
        }
        plan
    }

    /// The toggles to perform on exit: only those that undo something that
    /// is on.
    pub fn teardown_plan(&self) -> (plan: Vec<DriverOp>)
        ensures
            plan@ == self.teardown_ops(),
    {
        let mut plan: Vec<DriverOp> = Vec::new();
        if self.bracketed_paste {
            plan.push(DriverOp::DisableBracketedPaste);
        }
        if self.mouse_capture {
            plan.push(DriverOp::DisableMouseCapture);
        }
        if self.alternate_screen {
            plan.push(DriverOp::LeaveAlternateScreen);
        }
        if self.raw {
            plan.push(DriverOp::DisableRawMode);
        }
        if self.cursor_hidden {
            plan.push(DriverOp::ShowCursor);
        }
        plan
    }
}

/// Every toggle is safe to repeat: performing it a second time changes
/// nothing.
pub proof fn lemma_toggle_is_idempotent(mode: TerminalMode, op: DriverOp)
    ensures
        mode.after(op).after(op) == mode.after(op),
{
}

/// Performing `a` and then `b` is performing their concatenation.
pub proof fn lemma_after_all_concat(mode: TerminalMode, a: Seq<DriverOp>, b: Seq<DriverOp>)
    ensures
        mode.after_all(a + b) == mode.after_all(a).after_all(b),
    decreases b.len(),
{
    if b.len() == 0 {
        assert(a + b == a);
    } else {
        lemma_after_all_concat(mode, a, b.drop_last());
        assert((a + b).drop_last() == a + b.drop_last());
        assert((a + b).last() == b.last());
    }
}

/// Performing a toggle where it is wanted, and nothing otherwise.
pub proof fn lemma_after_if_wanted(mode: TerminalMode, wanted: bool, op: DriverOp)
    ensures
        mode.after_all(if_wanted(wanted, op)) == if wanted {
            mode.after(op)
        } else {
            mode
        },
{
    let ops = if_wanted(wanted, op);
    if wanted {
        assert(ops.drop_last().len() == 0);
        assert(mode.after_all(ops.drop_last()) == mode);
        assert(ops.last() == op);
    }
}

/// What `if_wanted` holds: `op` and nothing else where it is wanted, nothing
/// where it is not; and never anything twice.
pub proof fn lemma_if_wanted_holds(wanted: bool, op: DriverOp, other: DriverOp)
    ensures
        if_wanted(wanted, op).contains(other) <==> wanted && other == op,
        if_wanted(wanted, op).no_duplicates(),
{
    let ops = if_wanted(wanted, op);
    if wanted {
        assert(ops[0] == op);
    }
}

/// Leaving undoes everything: once all the toggles of the exit plan have
/// been performed, nothing is on.
pub proof fn lemma_teardown_restores(mode: TerminalMode)
    ensures
        mode.after_all(mode.teardown_ops()).is_restored(),
{
    let s1 = if_wanted(mode.bracketed_paste, DriverOp::DisableBracketedPaste);
    let s2 = if_wanted(mode.mouse_capture, DriverOp::DisableMouseCapture);
    let s3 = if_wanted(mode.alternate_screen, DriverOp::LeaveAlternateScreen);
    let s4 = if_wanted(mode.raw, DriverOp::DisableRawMode);
    let s5 = if_wanted(mode.cursor_hidden, DriverOp::ShowCursor);
    let m1 = mode.after_all(s1);
    let m2 = m1.after_all(s2);
    let m3 = m2.after_all(s3);
    let m4 = m3.after_all(s4);
    lemma_after_if_wanted(mode, mode.bracketed_paste, DriverOp::DisableBracketedPaste);
    lemma_after_if_wanted(m1, mode.mouse_capture, DriverOp::DisableMouseCapture);
    lemma_after_if_wanted(m2, mode.alternate_screen, DriverOp::LeaveAlternateScreen);
    lemma_after_if_wanted(m3, mode.raw, DriverOp::DisableRawMode);
    lemma_after_if_wanted(m4, mode.cursor_hidden, DriverOp::ShowCursor);
    lemma_after_all_concat(mode, s1, s2);
    lemma_after_all_concat(mode, s1 + s2, s3);
    lemma_after_all_concat(mode, s1 + s2 + s3, s4);
    lemma_after_all_concat(mode, s1 + s2 + s3 + s4, s5);
}

/// Leaving twice is leaving once: after a complete exit the next exit plan
/// is empty, so no toggle is ever turned off a second time; and where
/// nothing is on, there is nothing to leave.
pub proof fn lemma_exit_idempotent(mode: TerminalMode)
    ensures
        mode.after_all(mode.teardown_ops()).teardown_ops() == Seq::<DriverOp>::empty(),
        mode.is_restored() ==> mode.teardown_ops() == Seq::<DriverOp>::empty(),
{
    lemma_teardown_restores(mode);
    let done = mode.after_all(mode.teardown_ops());
    assert(done.teardown_ops() =~= Seq::<DriverOp>::empty());
    if mode.is_restored() {
        assert(mode.teardown_ops() =~= Seq::<DriverOp>::empty());
    }
}

/// Whether an exit plan holds `op`: a disabling toggle exactly when its
/// mode is in force, and an enabling toggle never.
pub open spec fn undoes(mode: TerminalMode, op: DriverOp) -> bool {
    match op {
        DriverOp::DisableBracketedPaste => mode.bracketed_paste,
        DriverOp::DisableMouseCapture => mode.mouse_capture,
        DriverOp::LeaveAlternateScreen => mode.alternate_screen,
        DriverOp::DisableRawMode => mode.raw,
        DriverOp::ShowCursor => mode.cursor_hidden,
        _ => false,
    }
}

/// An exit plan turns off what is on and nothing else: a toggle is in the
/// plan exactly when it undoes a mode that is in force.
pub proof fn lemma_teardown_only_what_is_on(mode: TerminalMode, op: DriverOp)
    ensures
        mode.teardown_ops().contains(op) <==> undoes(mode, op),
{
    let s1 = if_wanted(mode.bracketed_paste, DriverOp::DisableBracketedPaste);
    let s2 = if_wanted(mode.mouse_capture, DriverOp::DisableMouseCapture);
    let s3 = if_wanted(mode.alternate_screen, DriverOp::LeaveAlternateScreen);
    let s4 = if_wanted(mode.raw, DriverOp::DisableRawMode);
    let s5 = if_wanted(mode.cursor_hidden, DriverOp::ShowCursor);
    lemma_if_wanted_holds(mode.bracketed_paste, DriverOp::DisableBracketedPaste, op);
    lemma_if_wanted_holds(mode.mouse_capture, DriverOp::DisableMouseCapture, op);
    lemma_if_wanted_holds(mode.alternate_screen, DriverOp::LeaveAlternateScreen, op);
    lemma_if_wanted_holds(mode.raw, DriverOp::DisableRawMode, op);
    lemma_if_wanted_holds(mode.cursor_hidden, DriverOp::ShowCursor, op);
    lemma_seq_concat_contains_all_elements(s1, s2, op);
    lemma_seq_concat_contains_all_elements(s1 + s2, s3, op);
    lemma_seq_concat_contains_all_elements(s1 + s2 + s3, s4, op);
    lemma_seq_concat_contains_all_elements(s1 + s2 + s3 + s4, s5, op);
}

/// No toggle occurs twice in an exit plan.
pub proof fn lemma_teardown_has_no_repeats(mode: TerminalMode)
    ensures
        mode.teardown_ops().no_duplicates(),
{
    let o1 = DriverOp::DisableBracketedPaste;
    let o2 = DriverOp::DisableMouseCapture;
    let o3 = DriverOp::LeaveAlternateScreen;
    let o4 = DriverOp::DisableRawMode;
    let o5 = DriverOp::ShowCursor;
    let s1 = if_wanted(mode.bracketed_paste, o1);
    let s2 = if_wanted(mode.mouse_capture, o2);
    let s3 = if_wanted(mode.alternate_screen, o3);
    let s4 = if_wanted(mode.raw, o4);
    let s5 = if_wanted(mode.cursor_hidden, o5);
    lemma_if_wanted_holds(mode.bracketed_paste, o1, o1);
    lemma_if_wanted_holds(mode.mouse_capture, o2, o2);
    lemma_if_wanted_holds(mode.alternate_screen, o3, o3);
    lemma_if_wanted_holds(mode.raw, o4, o4);
    lemma_if_wanted_holds(mode.cursor_hidden, o5, o5);
    let a2 = s1 + s2;
    let a3 = a2 + s3;
    let a4 = a3 + s4;
    assert forall|i: int, j: int| 0 <= i < s1.len() && 0 <= j < s2.len() implies s1[i]
        != s2[j] by {}
    lemma_no_dup_in_concat(s1, s2);
    assert forall|i: int, j: int| 0 <= i < a2.len() && 0 <= j < s3.len() implies a2[i] != s3[j] by {
        assert(a2[i] == o1 || a2[i] == o2);
    }
    lemma_no_dup_in_concat(a2, s3);
    assert forall|i: int, j: int| 0 <= i < a3.len() && 0 <= j < s4.len() implies a3[i] != s4[j] by {
        if i < a2.len() {
            assert(a3[i] == a2[i]);
            assert(a2[i] == o1 || a2[i] == o2);
        } else {
            assert(a3[i] == o3);
        }
    }
    lemma_no_dup_in_concat(a3, s4);
    assert forall|i: int, j: int| 0 <= i < a4.len() && 0 <= j < s5.len() implies a4[i] != s5[j] by {
        if i < a3.len() {
            assert(a4[i] == a3[i]);
            if i < a2.len() {
                assert(a3[i] == a2[i]);
                assert(a2[i] == o1 || a2[i] == o2);
            } else {
                assert(a3[i] == o3);
            }
        } else {
            assert(a4[i] == o4);
        }
    }
    lemma_no_dup_in_concat(a4, s5);
}

/// What entering turns on: raw mode, the alternate screen and the hidden
/// cursor in any case, mouse capture and bracketed paste where asked for;
/// a capture that was on stays on.
pub proof fn lemma_setup_turns_on(mode: TerminalMode, mouse: bool, paste: bool)
    ensures
        mode.after_all(setup_ops(mouse, paste)) == (TerminalMode {
            raw: true,
            alternate_screen: true,
            cursor_hidden: true,
            mouse_capture: mode.mouse_capture || mouse,
            bracketed_paste: mode.bracketed_paste || paste,
        }),
{
    let b1 = if_wanted(true, DriverOp::EnableRawMode);
    let b2 = if_wanted(true, DriverOp::EnterAlternateScreen);
    let b3 = if_wanted(true, DriverOp::HideCursor);
    let s1 = if_wanted(mouse, DriverOp::EnableMouseCapture);
    let s2 = if_wanted(paste, DriverOp::EnableBracketedPaste);
    let m1 = mode.after_all(b1);
    let m2 = m1.after_all(b2);
    let m3 = m2.after_all(b3);
    let m4 = m3.after_all(s1);
    lemma_after_if_wanted(mode, true, DriverOp::EnableRawMode);
    lemma_after_if_wanted(m1, true, DriverOp::EnterAlternateScreen);
    lemma_after_if_wanted(m2, true, DriverOp::HideCursor);
    lemma_after_if_wanted(m3, mouse, DriverOp::EnableMouseCapture);
    lemma_after_if_wanted(m4, paste, DriverOp::EnableBracketedPaste);
    lemma_after_all_concat(mode, b1, b2);
    lemma_after_all_concat(mode, b1 + b2, b3);
    lemma_after_all_concat(mode, b1 + b2 + b3, s1);
    lemma_after_all_concat(mode, b1 + b2 + b3 + s1, s2);
    assert(b1 + b2 + b3 == seq![
        DriverOp::EnableRawMode,
        DriverOp::EnterAlternateScreen,
        DriverOp::HideCursor,
    ]);
}

/// Restoring puts any terminal back: after the toggles of the restore
/// plan nothing is on, whatever was on before.
pub proof fn lemma_restore_restores(mode: TerminalMode)
    ensures
        mode.after_all(restore_ops()).is_restored(),
{
    let s1 = if_wanted(true, DriverOp::DisableBracketedPaste);
    let s2 = if_wanted(true, DriverOp::DisableMouseCapture);
    let s3 = if_wanted(true, DriverOp::LeaveAlternateScreen);
    let s4 = if_wanted(true, DriverOp::DisableRawMode);
    let s5 = if_wanted(true, DriverOp::ShowCursor);
    let m1 = mode.after_all(s1);
    let m2 = m1.after_all(s2);
    let m3 = m2.after_all(s3);
    let m4 = m3.after_all(s4);
    lemma_after_if_wanted(mode, true, DriverOp::DisableBracketedPaste);
    lemma_after_if_wanted(m1, true, DriverOp::DisableMouseCapture);
    lemma_after_if_wanted(m2, true, DriverOp::LeaveAlternateScreen);
    lemma_after_if_wanted(m3, true, DriverOp::DisableRawMode);
    lemma_after_if_wanted(m4, true, DriverOp::ShowCursor);
    lemma_after_all_concat(mode, s1, s2);
    lemma_after_all_concat(mode, s1 + s2, s3);
    lemma_after_all_concat(mode, s1 + s2 + s3, s4);
    lemma_after_all_concat(mode, s1 + s2 + s3 + s4, s5);
    assert(restore_ops() == s1 + s2 + s3 + s4 + s5);
}

/// Entering and then leaving brings the terminal back: after the whole
/// entry plan and then the whole exit plan, nothing is on.
pub proof fn lemma_enter_then_exit_restores(mode: TerminalMode, mouse: bool, paste: bool)
    ensures
        mode.after_all(setup_ops(mouse, paste)).after_all(
            mode.after_all(setup_ops(mouse, paste)).teardown_ops(),
        ).is_restored(),
{
    lemma_teardown_restores(mode.after_all(setup_ops(mouse, paste)));
}

} // verus!
