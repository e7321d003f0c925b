//! The event multiplexer.
//!
//! A [`Tui`] owns the event queue, the cancellation token of its current
//! background task, its two rates and its capture flags, and it keeps track
//! of the terminal modes that are in force. It decides; the program around
//! it performs the driver toggles, spawns the task and waits on the queue.

use vstd::prelude::*;
use tokio::sync::mpsc::{UnboundedReceiver, UnboundedSender};
use tokio_util::sync::CancellationToken;
use crate::error::TuiError;
use crate::event::Event;
use crate::rate::{DEFAULT_FRAME_RATE, DEFAULT_TICK_RATE, Rate, period_of};
use crate::runtime::{share_sender, share_token};
use crate::task::Task;
use crate::terminal::{
    DriverOp, TerminalMode, lemma_exit_idempotent, lemma_setup_turns_on, lemma_teardown_restores,
    setup_ops,
};

verus! {

/// The event multiplexer.
pub struct Tui {
    /// The token of the current background task.
    pub cancellation_token: CancellationToken,
    /// The consumer end of the event queue.
    pub event_rx: UnboundedReceiver<Event>,
    /// The producer end of the event queue.
    pub event_tx: UnboundedSender<Event>,
    pub frame_rate: Rate,
    pub tick_rate: Rate,
    /// Whether entering turns mouse capture on.
    pub mouse: bool,
    /// Whether entering turns bracketed paste on.
    pub paste: bool,
    /// The terminal modes that are in force.
    pub mode: TerminalMode,
    /// Whether a background task has been started.
    pub started: bool,
}

/// What a background task is started with: its own handle on the token that
/// stops it, its own producer handle on the queue, and its initial state.
pub struct Launch {
    pub cancellation_token: CancellationToken,
    pub event_tx: UnboundedSender<Event>,
    pub task: Task,
}

impl Tui {
    /// Whether `self` and `other` have the same queue, rates and capture
    /// flags.
    pub open spec fn same_setup(self, other: Tui) -> bool {
        &&& self.event_rx == other.event_rx
        &&& self.event_tx == other.event_tx
        &&& self.frame_rate == other.frame_rate
        &&& self.tick_rate == other.tick_rate
        &&& self.mouse == other.mouse
        &&& self.paste == other.paste
    }

    /// Whether `launch` is what a task of this multiplexer is started with:
    /// the multiplexer's token and queue, and a fresh task whose timers have
    /// the periods of the two rates and are due at once.
    pub open spec fn launches(self, launch: Launch) -> bool {
        &&& launch.cancellation_token == self.cancellation_token
        &&& launch.event_tx == self.event_tx
        &&& launch.task.phase is Fresh
        &&& launch.task.tick.period() == period_of(self.tick_rate.value())
        &&& launch.task.render.period() == period_of(self.frame_rate.value())
        &&& launch.task.tick.deadline() == 0
        &&& launch.task.render.deadline() == 0
    }

    /// A multiplexer with a queue and a token of its own, the default rates,
    /// no capture, an untouched terminal and no task.
    pub fn new() -> (tui: Tui)
        ensures
            tui.tick_rate.value() == DEFAULT_TICK_RATE,
            tui.frame_rate.value() == DEFAULT_FRAME_RATE,
            !tui.mouse,
            !tui.paste,
            tui.mode.is_restored(),
            !tui.started,
    {
        let (event_tx, event_rx) = tokio::sync::mpsc::unbounded_channel::<Event>();
        let cancellation_token = CancellationToken::new();
        Tui {
            cancellation_token,
            event_rx,
            event_tx,
            frame_rate: Rate::default_frame(),
            tick_rate: Rate::default_tick(),
            mouse: false,
            paste: false,
            mode: TerminalMode::restored(),
            started: false,
        }
    }

    /// Sets the number of ticks per second. A rate that is not greater than
    /// zero is rejected.
    pub fn tick_rate(self, tick_rate: i64) -> (r: Result<Tui, TuiError>)
        ensures
            tick_rate <= 0 ==> r is Err && r->Err_0 == TuiError::InvalidRate,
            tick_rate > 0 ==> r is Ok && r->Ok_0.tick_rate.value() == tick_rate && r->Ok_0
                == (Tui { tick_rate: r->Ok_0.tick_rate, ..self }),
    {
        match Rate::new(tick_rate) {
            Ok(rate) => {
                let mut tui = self;
                tui.tick_rate = rate;
                Ok(tui)
            },
            Err(e) => Err(e),
        }
    }

    /// Sets the number of frames per second. A rate that is not greater
    /// than zero is rejected.
    pub fn frame_rate(self, frame_rate: i64) -> (r: Result<Tui, TuiError>)
        ensures
            frame_rate <= 0 ==> r is Err && r->Err_0 == TuiError::InvalidRate,
            frame_rate > 0 ==> r is Ok && r->Ok_0.frame_rate.value() == frame_rate && r->Ok_0
                == (Tui { frame_rate: r->Ok_0.frame_rate, ..self }),
    {
        match Rate::new(frame_rate) {
            Ok(rate) => {
                let mut tui = self;
                tui.frame_rate = rate;
                Ok(tui)
            },
            Err(e) => Err(e),
        }
    }

    /// Says whether entering turns mouse capture on.
    pub fn mouse(self, mouse: bool) -> (tui: Tui)
        ensures
            tui == (Tui { mouse, ..self }),
    {
        let mut tui = self;
        tui.mouse = mouse;
        tui
    }

    /// Says whether entering turns bracketed paste on.
    pub fn paste(self, paste: bool) -> (tui: Tui)
        ensures
            tui == (Tui { paste, ..self }),
    {
        let mut tui = self;
        tui.paste = paste;
        tui
    }

    /// Signals the current token, which asks the background task that holds
    /// it to stop. Signalling a token again does nothing more.
    pub fn cancel(&self) {
        self.cancellation_token.cancel();
    }

    /// Starts a background task. The token of the previous task is
    /// signalled, a new token takes its place, and the task is handed that
    /// token, the queue and its timers. The previous task is not waited for.
    pub fn start(&mut self) -> (launch: Launch)
        ensures
            final(self).launches(launch),
            final(self).started,
            final(self).same_setup(*old(self)),
            final(self).mode == old(self).mode,
    {
        self.cancel();
        self.cancellation_token = CancellationToken::new();
        self.started = true;
        Launch {
            cancellation_token: share_token(&self.cancellation_token),
            event_tx: share_sender(&self.event_tx),
            task: Task::new(&self.tick_rate, &self.frame_rate),
        }
    }

    /// The driver toggles to perform, in order, before [`Tui::enter`].
    pub fn enter_plan(&self) -> (plan: Vec<DriverOp>)
        ensures
            plan@ == setup_ops(self.mouse, self.paste),
    {
        TerminalMode::setup_plan(self.mouse, self.paste)
    }

    /// Enters the terminal once the driver has been asked for the toggles of
    /// [`Tui::enter_plan`], of which the first `performed` succeeded and the
    /// next one, if any is left, failed. The toggles that succeeded are
    /// recorded. Where all did, a background task is started; otherwise the
    /// result is `TerminalModeFault` and no task is started.
    pub fn enter(&mut self, performed: usize) -> (r: Result<Launch, TuiError>)
        ensures
            final(self).same_setup(*old(self)),
            performed >= setup_ops(old(self).mouse, old(self).paste).len() ==> {
                &&& r is Ok
                &&& final(self).launches(r->Ok_0)
                &&& final(self).started
                &&& final(self).mode == old(self).mode.after_all(
                    setup_ops(old(self).mouse, old(self).paste),
                )
                &&& final(self).mode.raw
                &&& final(self).mode.alternate_screen
                &&& final(self).mode.cursor_hidden
                &&& final(self).mode.mouse_capture == (old(self).mode.mouse_capture
                    || old(self).mouse)
                &&& final(self).mode.bracketed_paste == (old(self).mode.bracketed_paste
                    || old(self).paste)
            },
            performed < setup_ops(old(self).mouse, old(self).paste).len() ==> {
                &&& r is Err
                &&& r->Err_0 == TuiError::TerminalModeFault
                &&& final(self).started == old(self).started
                &&& final(self).cancellation_token == old(self).cancellation_token
                &&& final(self).mode == old(self).mode.after_all(
                    setup_ops(old(self).mouse, old(self).paste).take(performed as int),
                )
            },
    {
        let plan = self.enter_plan();
        proof {
            lemma_setup_turns_on(self.mode, self.mouse, self.paste);
        }
        self.mode.apply_prefix(&plan, performed);
        if performed >= plan.len() {
            Ok(self.start())
        } else {
            Err(TuiError::TerminalModeFault)
        }
    }

    /// The driver toggles to perform, in order, before [`Tui::exit`]: those
    /// that undo a mode that is in force, and no other.
    pub fn exit_plan(&self) -> (plan: Vec<DriverOp>)
        ensures
            plan@ == self.mode.teardown_ops(),
    {
        self.mode.teardown_plan()
    }

    /// Leaves the terminal once the driver has been asked for the toggles of
    /// [`Tui::exit_plan`], of which the first `performed` succeeded and the
    /// next one, if any is left, failed. The toggles that succeeded are
    /// recorded. Where all did, nothing is in force any more; otherwise the
    /// result is `TerminalModeFault` and the toggles that are left stay
    /// recorded, for the next attempt. On a terminal where nothing is in
    /// force there is nothing to do and leaving succeeds. The background
    /// task is not touched.
    pub fn exit(&mut self, performed: usize) -> (r: Result<(), TuiError>)
        ensures
            final(self).same_setup(*old(self)),
            final(self).started == old(self).started,
            final(self).cancellation_token == old(self).cancellation_token,
            performed >= old(self).mode.teardown_ops().len() ==> {
                &&& r is Ok
                &&& final(self).mode.is_restored()
            },
            performed < old(self).mode.teardown_ops().len() ==> {
                &&& r is Err
                &&& r->Err_0 == TuiError::TerminalModeFault
                &&& final(self).mode == old(self).mode.after_all(
                    old(self).mode.teardown_ops().take(performed as int),
                )
            },
            old(self).mode.is_restored() ==> r is Ok && final(self).mode == old(self).mode,
    {
        let plan = self.exit_plan();
        proof {
            lemma_teardown_restores(self.mode);
            lemma_exit_idempotent(self.mode);
        }
        self.mode.apply_prefix(&plan, performed);
        if performed >= plan.len() {
            Ok(())
        } else {
            Err(TuiError::TerminalModeFault)
        }
    }

    /// What waiting on the queue amounts to: the event that arrived, or
    /// `ChannelClosed` where the queue is closed and empty, so that nothing
    /// can arrive any more.
    pub fn received(arrived: Option<Event>) -> (r: Result<Event, TuiError>)
        ensures
            arrived matches Some(event) ==> r == Ok::<Event, TuiError>(event),
            arrived is None ==> r == Err::<Event, TuiError>(TuiError::ChannelClosed),
    {
        match arrived {
            Some(event) => Ok(event),
            None => Err(TuiError::ChannelClosed),
        }
    }
}

} // verus!
