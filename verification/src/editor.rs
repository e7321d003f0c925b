//! The key/value editor: its screens, the text being typed, and what each
//! key does.

use vstd::prelude::*;
use crate::event::{Input, KeyCode, KeyEvent, KeyEventKind};
use crate::json::{JsonError, rendered, serialize};
use crate::pairs::{Entry, Pairs, inserted};
use crate::text::{backspace, push_char, without_last};

verus! {

/// The screen that the editor shows: the list of pairs, the form for a new
/// pair, or the question asked on leaving.
#[derive(Clone, Copy, Debug, PartialEq, Eq)]
pub enum CurrentScreen {
    Main,
    Editing,
    Exiting,
}

/// The field of the form that typing goes to.
#[derive(Clone, Copy, Debug, PartialEq, Eq)]
pub enum CurrentlyEditing {
    Key,
    Value,
}

/// The state of the editor.
#[derive(Debug)]
pub struct App {
    /// The key being typed.
    pub key_input: String,
    /// The value being typed.
    pub value_input: String,
    /// The pairs that were saved.
    pub pairs: Pairs,
    pub current_screen: CurrentScreen,
    /// The field that typing goes to; `None` outside the form.
    pub currently_editing: Option<CurrentlyEditing>,
}

/// The state of the editor as the contracts see it.
pub struct AppView {
    pub key_input: Seq<char>,
    pub value_input: Seq<char>,
    pub pairs: Seq<Entry>,
    pub current_screen: CurrentScreen,
    pub currently_editing: Option<CurrentlyEditing>,
}

impl View for App {
    type V = AppView;

    open spec fn view(&self) -> AppView {
        AppView {
            key_input: self.key_input@,
            value_input: self.value_input@,
            pairs: self.pairs@,
            current_screen: self.current_screen,
            currently_editing: self.currently_editing,
        }
    }
}

/// The field that typing goes to after a switch: the other one, or the key
/// where there was none.
pub open spec fn toggled(editing: Option<CurrentlyEditing>) -> Option<CurrentlyEditing> {
    match editing {
        Some(CurrentlyEditing::Key) => Some(CurrentlyEditing::Value),
        Some(CurrentlyEditing::Value) => Some(CurrentlyEditing::Key),
        None => Some(CurrentlyEditing::Key),
    }
}

/// The state once the typed pair has been saved: the value stands under
/// the key, both inputs are empty and no field is being edited.
pub open spec fn saved(app: AppView) -> AppView {
    AppView {
        key_input: Seq::<char>::empty(),
        value_input: Seq::<char>::empty(),
        pairs: inserted(app.pairs, app.key_input, app.value_input),
        currently_editing: None,
        ..app
    }
}

/// The state after a key on the list of pairs: `e` opens the form on its
/// key field and `q` asks whether to leave.
pub open spec fn after_main_key(app: AppView, code: KeyCode) -> AppView {
    match code {
        KeyCode::Char(c) => if c == 'e' {
            AppView {
                current_screen: CurrentScreen::Editing,
                currently_editing: Some(CurrentlyEditing::Key),
                ..app
            }
        } else if c == 'q' {
            AppView { current_screen: CurrentScreen::Exiting, ..app }
        } else {
            app
        },
        _ => app,
    }
}

/// The state after a key in the form. Enter goes from the key to the value
/// and from the value to the saved pair and the list; backspace deletes the
/// last character of the field being edited and a character is added to
/// it; escape goes back to the list; tab switches fields.
pub open spec fn after_editing_key(app: AppView, code: KeyCode) -> AppView {
    match code {
        KeyCode::Enter => match app.currently_editing {
            Some(CurrentlyEditing::Key) => AppView {
                currently_editing: Some(CurrentlyEditing::Value),
                ..app
            },
            Some(CurrentlyEditing::Value) => AppView {
                current_screen: CurrentScreen::Main,
                ..saved(app)
            },
            None => app,
        },
        KeyCode::Backspace => match app.currently_editing {
            Some(CurrentlyEditing::Key) => AppView {
                key_input: without_last(app.key_input),
                ..app
            },
            Some(CurrentlyEditing::Value) => AppView {
                value_input: without_last(app.value_input),
                ..app
            },
            None => app,
        },
        KeyCode::Esc => AppView {
            current_screen: CurrentScreen::Main,
            currently_editing: None,
            ..app
        },
        KeyCode::Tab => AppView { currently_editing: toggled(app.currently_editing), ..app },
        KeyCode::Char(c) => match app.currently_editing {
            Some(CurrentlyEditing::Key) => AppView { key_input: app.key_input.push(c), ..app },
            Some(CurrentlyEditing::Value) => AppView {
                value_input: app.value_input.push(c),
                ..app
            },
            None => app,
        },
        _ => app,
    }
}

/// The state after a keyboard notification. A key coming up changes
/// nothing; otherwise the screen decides what the key does, and on the
/// leaving question no key changes the state.
pub open spec fn after_key(app: AppView, key: KeyEvent) -> AppView {
    if key.kind is Release {
        app
    } else {
        match app.current_screen {
            CurrentScreen::Main => after_main_key(app, key.code),
            CurrentScreen::Exiting => app,
            CurrentScreen::Editing => after_editing_key(app, key.code),
        }
    }
}

/// Whether a keyboard notification ends the editor, and if so whether the
/// pairs are printed: on the leaving question `y` ends it with the pairs
/// printed and `n` without; nothing else ends it.
pub open spec fn key_outcome(app: AppView, key: KeyEvent) -> Option<bool> {
    if !(key.kind is Release) && app.current_screen is Exiting {
        match key.code {
            KeyCode::Char(c) => if c == 'y' {
                Some(true)
            } else if c == 'n' {
                Some(false)
            } else {
                None
            },
            _ => None,
        }
    } else {
        None
    }
}

impl App {
    /// An editor on its list, with no pairs and nothing typed.
    pub fn new() -> (app: App)
        ensures
            app@.key_input == Seq::<char>::empty(),
            app@.value_input == Seq::<char>::empty(),
            app@.pairs == Seq::<Entry>::empty(),
            app@.current_screen is Main,
            app@.currently_editing is None,
    {
        App {
            key_input: String::new(),
            value_input: String::new(),
            pairs: Pairs::new(),
            current_screen: CurrentScreen::Main,
            currently_editing: None,
        }
    }

    /// Saves the typed pair: the value goes under the key, replacing what
    /// was there, and the form is cleared.
    pub fn save_key_value(&mut self)
        ensures
            final(self)@ == saved(old(self)@),
    {
        self.pairs.insert(self.key_input.clone(), self.value_input.clone());
        self.key_input = String::new();
        self.value_input = String::new();
        self.currently_editing = None;
    }

    /// Switches between the key and the value field; where no field was
    /// being edited, the key field is.
    pub fn toggle_editing(&mut self)
        ensures
            final(self)@ == (AppView {
                currently_editing: toggled(old(self)@.currently_editing),
                ..old(self)@
            }),
            final(self).pairs == old(self).pairs,
    {
        match self.currently_editing {
            Some(CurrentlyEditing::Key) => {
                self.currently_editing = Some(CurrentlyEditing::Value);
            },
            Some(CurrentlyEditing::Value) => {
                self.currently_editing = Some(CurrentlyEditing::Key);
            },
            None => {
                self.currently_editing = Some(CurrentlyEditing::Key);
            },
        }
    }

    /// Handles one keyboard notification. The result says whether the
    /// editor ends, and if so whether the pairs are to be printed.
    pub fn handle_key(&mut self, key: KeyEvent) -> (leave: Option<bool>)
        ensures
            final(self)@ == after_key(old(self)@, key),
            leave == key_outcome(old(self)@, key),
    {
        match key.kind {
            KeyEventKind::Release => {
                return None;
            },
            _ => {},
        }
        match self.current_screen {
            CurrentScreen::Main => {
                match key.code {
                    KeyCode::Char('e') => {
                        self.current_screen = CurrentScreen::Editing;
                        self.currently_editing = Some(CurrentlyEditing::Key);
                    },
                    KeyCode::Char('q') => {
                        self.current_screen = CurrentScreen::Exiting;
                    },
                    _ => {},
                }
                None
            },
            CurrentScreen::Exiting => {
                match key.code {
                    KeyCode::Char('y') => Some(true),
                    KeyCode::Char('n') => Some(false),
                    _ => None,
                }
            },
            CurrentScreen::Editing => {
                match key.code {
                    KeyCode::Enter => {
                        match self.currently_editing {
                            Some(CurrentlyEditing::Key) => {
                                self.currently_editing = Some(CurrentlyEditing::Value);
                            },
                            Some(CurrentlyEditing::Value) => {
                                self.save_key_value();
                                self.current_screen = CurrentScreen::Main;
                            },
                            None => {},
                        }
                    },
                    KeyCode::Backspace => {
                        match self.currently_editing {
                            Some(CurrentlyEditing::Key) => {
                                backspace(&mut self.key_input);
                            },
                            Some(CurrentlyEditing::Value) => {
                                backspace(&mut self.value_input);
                            },
                            None => {},
                        }
                    },
                    KeyCode::Esc => {
                        self.current_screen = CurrentScreen::Main;
                        self.currently_editing = None;
                    },
                    KeyCode::Tab => {
                        self.toggle_editing();
                    },
                    KeyCode::Char(value) => {
                        match self.currently_editing {
                            Some(CurrentlyEditing::Key) => {
                                push_char(&mut self.key_input, value);
                            },
                            Some(CurrentlyEditing::Value) => {
                                push_char(&mut self.value_input, value);
                            },
                            None => {},
                        }
                    },
                    _ => {},
                }
                None
            },
        }
    }

    /// Handles one driver notification: a keyboard notification does what
    /// [`App::handle_key`] says, and any other changes nothing.
    pub fn handle(&mut self, input: Input) -> (leave: Option<bool>)
        ensures
            input matches Input::Key(key) ==> final(self)@ == after_key(old(self)@, key) && leave
                == key_outcome(old(self)@, key),
            !(input is Key) ==> final(self)@ == old(self)@ && leave is None,
    {
        match input {
            Input::Key(key) => self.handle_key(key),
            _ => None,
        }
    }

    /// The pairs as one JSON object, for printing. `Serialize` is the
    /// answer to any failure of the serializer.
    pub fn json_text(&self) -> (r: Result<String, JsonError>)
        ensures
            r is Err ==> r == Err::<String, JsonError>(JsonError::Serialize),
    {
        rendered(serialize(self.pairs.entries()))
    }
}

} // verus!
