//! The counter application: what its keys mean and how its state changes.

use vstd::prelude::*;
use crate::event::{Event, KeyCode};

verus! {

/// What the counter application can be asked to do.
#[derive(Clone, Copy, Debug, PartialEq, Eq)]
pub enum Action {
    Tick,
    Increment,
    Decrement,
    NetworkRequestAndThenIncrement,
    NetworkRequestAndThenDecrement,
    Quit,
    Render,
    /// Nothing to do.
    Noop,
}

/// What an update leaves for the caller to do.
#[derive(Clone, Copy, Debug, PartialEq, Eq)]
pub enum Effect {
    /// Nothing.
    Nothing,
    /// Hand in the action again once [`NETWORK_DELAY_SECS`] have passed.
    Later(Action),
}

/// Seconds that a network request takes before its action is handed in.
pub const NETWORK_DELAY_SECS: u64 = 5;

/// The state of the counter application.
#[derive(Clone, Copy, Debug, PartialEq, Eq)]
pub struct App {
    pub counter: i64,
    pub should_quit: bool,
}

/// The action that a key stands for.
pub open spec fn key_action(code: KeyCode) -> Action {
    match code {
        KeyCode::Char(c) => if c == 'j' {
            Action::Increment
        } else if c == 'k' {
            Action::Decrement
        } else if c == 'J' {
            Action::NetworkRequestAndThenIncrement
        } else if c == 'K' {
            Action::NetworkRequestAndThenDecrement
        } else if c == 'q' {
            Action::Quit
        } else {
            Action::Noop
        },
        _ => Action::Noop,
    }
}

/// The action that an event stands for: ticks and render cues stand for
/// themselves, a key for what [`key_action`] says, anything else for
/// nothing.
pub open spec fn action_for(event: Event) -> Action {
    match event {
        Event::Tick => Action::Tick,
        Event::Render => Action::Render,
        Event::Key(key) => key_action(key.code),
        _ => Action::Noop,
    }
}

/// The action to queue for an event, if any: `Quit`, `Tick` and `Render`
/// queue the action of the same name, a key queues what it stands for, even
/// where that is `Action::Noop`, and any other event queues nothing.
pub open spec fn dispatched(event: Event) -> Option<Action> {
    match event {
        Event::Quit => Some(Action::Quit),
        Event::Tick => Some(Action::Tick),
        Event::Render => Some(Action::Render),
        Event::Key(key) => Some(key_action(key.code)),
        _ => None,
    }
}

/// The state after `action`.
pub open spec fn updated(app: App, action: Action) -> App {
    match action {
        Action::Increment => App { counter: (app.counter + 1) as i64, ..app },
        Action::Decrement => App { counter: (app.counter - 1) as i64, ..app },
        Action::Quit => App { should_quit: true, ..app },
        _ => app,
    }
}

/// What `action` leaves for the caller to do: a network request asks for
/// its increment or decrement to be handed in later.
pub open spec fn effect_of(action: Action) -> Effect {
    match action {
        Action::NetworkRequestAndThenIncrement => Effect::Later(Action::Increment),
        Action::NetworkRequestAndThenDecrement => Effect::Later(Action::Decrement),
        _ => Effect::Nothing,
    }
}

/// Maps an event to the action it stands for.
pub fn get_action(_app: &App, event: Event) -> (action: Action)
    ensures
        action == action_for(event),
{
    match event {
        Event::Error => Action::Noop,
        Event::Tick => Action::Tick,
        Event::Render => Action::Render,
        Event::Key(key) => match key.code {
            KeyCode::Char('j') => Action::Increment,
            KeyCode::Char('k') => Action::Decrement,
            KeyCode::Char('J') => Action::NetworkRequestAndThenIncrement,
            KeyCode::Char('K') => Action::NetworkRequestAndThenDecrement,
            KeyCode::Char('q') => Action::Quit,
            _ => Action::Noop,
        },
        _ => Action::Noop,
    }
}

/// Decides which action, if any, to queue for an event that the
/// multiplexer delivered.
pub fn dispatch(app: &App, event: Event) -> (action: Option<Action>)
    ensures
        action == dispatched(event),
{
    match event {
        Event::Quit => Some(Action::Quit),
        Event::Tick => Some(Action::Tick),
        Event::Render => Some(Action::Render),
        Event::Key(key) => Some(get_action(app, Event::Key(key))),
        _ => None,
    }
}

/// Applies `action` to the state and says what is left to do. The counter
/// must have room for the step that `action` takes.
pub fn update(app: &mut App, action: Action) -> (effect: Effect)
    requires
        action is Increment ==> old(app).counter < i64::MAX,
        action is Decrement ==> old(app).counter > i64::MIN,
    ensures
        *final(app) == updated(*old(app), action),
        effect == effect_of(action),
{
    match action {
        Action::Increment => {
            app.counter = app.counter + 1;
            Effect::Nothing
        },
        Action::Decrement => {
            app.counter = app.counter - 1;
            Effect::Nothing
        },
        Action::NetworkRequestAndThenIncrement => Effect::Later(Action::Increment),
        Action::NetworkRequestAndThenDecrement => Effect::Later(Action::Decrement),
        Action::Quit => {
            app.should_quit = true;
            Effect::Nothing
        },
        _ => Effect::Nothing,
    }
}

/// Whether the screen is redrawn after `action`: only a render cue asks
/// for it.
pub fn wants_draw(action: Action) -> (draw: bool)
    ensures
        draw == (action is Render),
{
    match action {
        Action::Render => true,
        _ => false,
    }
}

impl App {
    /// A counter at zero that has not been asked to quit.
    pub fn new() -> (app: App)
        ensures
            app.counter == 0,
            !app.should_quit,
    {
        App { counter: 0, should_quit: false }
    }
}

} // verus!
