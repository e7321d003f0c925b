use tui_events::editor::{App, CurrentScreen, CurrentlyEditing};
use tui_events::event::{Input, KeyCode, KeyEvent, KeyEventKind, KeyModifiers};
use tui_events::json::{rendered, JsonError};
use tui_events::pairs::Pairs;
use tui_events::text::backspace;
use tui_events::view::{
    editing_label, key_hint, list_lines, pair_line, screen_label, side_percent, Color,
    KEY_COLUMN_WIDTH,
};

fn press(code: KeyCode) -> KeyEvent {
    KeyEvent::press(code)
}

fn type_text(app: &mut App, text: &str) {
    for c in text.chars() {
        assert_eq!(app.handle_key(press(KeyCode::Char(c))), None);
    }
}

fn entries(app: &App) -> Vec<(String, String)> {
    app.pairs.entries().clone()
}

fn pair(k: &str, v: &str) -> (String, String) {
    (String::from(k), String::from(v))
}

#[test]
fn new_editor_is_on_the_list_with_nothing_typed() {
    let app = App::new();
    assert_eq!(app.key_input, "");
    assert_eq!(app.value_input, "");
    assert_eq!(app.pairs.len(), 0);
    assert_eq!(app.current_screen, CurrentScreen::Main);
    assert_eq!(app.currently_editing, None);
}

#[test]
fn toggle_editing_switches_fields() {
    let mut app = App::new();
    app.toggle_editing();
    assert_eq!(app.currently_editing, Some(CurrentlyEditing::Key));
    app.toggle_editing();
    assert_eq!(app.currently_editing, Some(CurrentlyEditing::Value));
    app.toggle_editing();
    assert_eq!(app.currently_editing, Some(CurrentlyEditing::Key));
}

#[test]
fn save_key_value_stores_the_pair_and_clears_the_form() {
    let mut app = App::new();
    app.key_input = String::from("name");
    app.value_input = String::from("verus");
    app.currently_editing = Some(CurrentlyEditing::Value);
    app.current_screen = CurrentScreen::Editing;
    app.save_key_value();
    assert_eq!(entries(&app), vec![pair("name", "verus")]);
    assert_eq!(app.key_input, "");
    assert_eq!(app.value_input, "");
    assert_eq!(app.currently_editing, None);
    assert_eq!(app.current_screen, CurrentScreen::Editing);
}

#[test]
fn saving_under_a_key_again_replaces_the_value_in_place() {
    let mut pairs = Pairs::new();
    pairs.insert(String::from("a"), String::from("1"));
    pairs.insert(String::from("b"), String::from("2"));
    pairs.insert(String::from("c"), String::from("3"));
    pairs.insert(String::from("b"), String::from("20"));
    assert_eq!(pairs.len(), 3);
    assert_eq!(pairs.entries().clone(), vec![pair("a", "1"), pair("b", "20"), pair("c", "3")]);
    pairs.insert(String::from(""), String::from(""));
    assert_eq!(pairs.len(), 4);
    pairs.insert(String::from(""), String::from("x"));
    assert_eq!(pairs.len(), 4);
    assert_eq!(pairs.entries()[3], pair("", "x"));
}

#[test]
fn main_screen_keys() {
    let mut app = App::new();
    assert_eq!(app.handle_key(press(KeyCode::Char('x'))), None);
    assert_eq!(app.current_screen, CurrentScreen::Main);
    assert_eq!(app.handle_key(press(KeyCode::Enter)), None);
    assert_eq!(app.current_screen, CurrentScreen::Main);
    assert_eq!(app.handle_key(press(KeyCode::Char('e'))), None);
    assert_eq!(app.current_screen, CurrentScreen::Editing);
    assert_eq!(app.currently_editing, Some(CurrentlyEditing::Key));
    let mut app = App::new();
    assert_eq!(app.handle_key(press(KeyCode::Char('q'))), None);
    assert_eq!(app.current_screen, CurrentScreen::Exiting);
    assert_eq!(app.currently_editing, None);
}

#[test]
fn exiting_screen_keys() {
    let mut app = App::new();
    app.handle_key(press(KeyCode::Char('q')));
    assert_eq!(app.handle_key(press(KeyCode::Char('x'))), None);
    assert_eq!(app.handle_key(press(KeyCode::Esc)), None);
    assert_eq!(app.current_screen, CurrentScreen::Exiting);
    assert_eq!(app.handle_key(press(KeyCode::Char('y'))), Some(true));
    assert_eq!(app.handle_key(press(KeyCode::Char('n'))), Some(false));
    assert_eq!(app.current_screen, CurrentScreen::Exiting);
}

#[test]
fn typing_a_pair_and_saving_it() {
    let mut app = App::new();
    app.handle_key(press(KeyCode::Char('e')));
    type_text(&mut app, "key");
    assert_eq!(app.key_input, "key");
    assert_eq!(app.value_input, "");
    assert_eq!(app.handle_key(press(KeyCode::Enter)), None);
    assert_eq!(app.currently_editing, Some(CurrentlyEditing::Value));
    type_text(&mut app, "value");
    assert_eq!(app.key_input, "key");
    assert_eq!(app.value_input, "value");
    assert_eq!(app.handle_key(press(KeyCode::Enter)), None);
    assert_eq!(app.current_screen, CurrentScreen::Main);
    assert_eq!(app.currently_editing, None);
    assert_eq!(app.key_input, "");
    assert_eq!(app.value_input, "");
    assert_eq!(entries(&app), vec![pair("key", "value")]);
}

#[test]
fn backspace_deletes_the_last_character_of_the_field() {
    let mut app = App::new();
    app.handle_key(press(KeyCode::Char('e')));
    type_text(&mut app, "abc");
    app.handle_key(press(KeyCode::Backspace));
    assert_eq!(app.key_input, "ab");
    app.handle_key(press(KeyCode::Tab));
    type_text(&mut app, "xy");
    app.handle_key(press(KeyCode::Backspace));
    assert_eq!(app.value_input, "x");
    assert_eq!(app.key_input, "ab");
    app.handle_key(press(KeyCode::Backspace));
    app.handle_key(press(KeyCode::Backspace));
    assert_eq!(app.value_input, "");
    assert_eq!(app.key_input, "ab");
}

#[test]
fn backspace_on_empty_text_does_nothing() {
    let mut text = String::new();
    backspace(&mut text);
    assert_eq!(text, "");
    let mut text = String::from("é!");
    backspace(&mut text);
    assert_eq!(text, "é");
    backspace(&mut text);
    assert_eq!(text, "");
}

#[test]
fn escape_goes_back_to_the_list_and_keeps_the_text() {
    let mut app = App::new();
    app.handle_key(press(KeyCode::Char('e')));
    type_text(&mut app, "k");
    assert_eq!(app.handle_key(press(KeyCode::Esc)), None);
    assert_eq!(app.current_screen, CurrentScreen::Main);
    assert_eq!(app.currently_editing, None);
    assert_eq!(app.key_input, "k");
    assert_eq!(app.pairs.len(), 0);
}

#[test]
fn tab_switches_fields_in_the_form() {
    let mut app = App::new();
    app.handle_key(press(KeyCode::Char('e')));
    app.handle_key(press(KeyCode::Tab));
    assert_eq!(app.currently_editing, Some(CurrentlyEditing::Value));
    app.handle_key(press(KeyCode::Tab));
    assert_eq!(app.currently_editing, Some(CurrentlyEditing::Key));
}

#[test]
fn form_without_a_field_ignores_typing() {
    let mut app = App::new();
    app.current_screen = CurrentScreen::Editing;
    app.currently_editing = None;
    type_text(&mut app, "abc");
    app.handle_key(press(KeyCode::Backspace));
    app.handle_key(press(KeyCode::Enter));
    assert_eq!(app.key_input, "");
    assert_eq!(app.value_input, "");
    assert_eq!(app.current_screen, CurrentScreen::Editing);
    assert_eq!(app.pairs.len(), 0);
    app.handle_key(press(KeyCode::Tab));
    assert_eq!(app.currently_editing, Some(CurrentlyEditing::Key));
}

#[test]
fn other_keys_in_the_form_do_nothing() {
    let mut app = App::new();
    app.handle_key(press(KeyCode::Char('e')));
    assert_eq!(app.handle_key(press(KeyCode::Left)), None);
    assert_eq!(app.handle_key(press(KeyCode::F(1))), None);
    assert_eq!(app.current_screen, CurrentScreen::Editing);
    assert_eq!(app.currently_editing, Some(CurrentlyEditing::Key));
    assert_eq!(app.key_input, "");
}

#[test]
fn key_release_is_skipped_and_repeat_is_not() {
    let mut app = App::new();
    let none = KeyModifiers::none();
    let release = KeyEvent { code: KeyCode::Char('e'), modifiers: none, kind: KeyEventKind::Release };
    assert_eq!(app.handle_key(release), None);
    assert_eq!(app.current_screen, CurrentScreen::Main);
    let repeat = KeyEvent { code: KeyCode::Char('e'), modifiers: none, kind: KeyEventKind::Repeat };
    assert_eq!(app.handle_key(repeat), None);
    assert_eq!(app.current_screen, CurrentScreen::Editing);
    app.current_screen = CurrentScreen::Exiting;
    let release_y =
        KeyEvent { code: KeyCode::Char('y'), modifiers: none, kind: KeyEventKind::Release };
    assert_eq!(app.handle_key(release_y), None);
}

#[test]
fn handle_ignores_what_is_not_a_key() {
    let mut app = App::new();
    assert_eq!(app.handle(Input::Resize(80, 24)), None);
    assert_eq!(app.handle(Input::FocusGained), None);
    assert_eq!(app.handle(Input::FocusLost), None);
    assert_eq!(app.handle(Input::Paste(String::from("e"))), None);
    assert_eq!(app.current_screen, CurrentScreen::Main);
    assert_eq!(app.handle(Input::Key(press(KeyCode::Char('q')))), None);
    assert_eq!(app.current_screen, CurrentScreen::Exiting);
    assert_eq!(app.handle(Input::Key(press(KeyCode::Char('y')))), Some(true));
}

#[test]
fn json_text_of_no_pairs_and_of_one() {
    let mut app = App::new();
    assert_eq!(app.json_text(), Ok(String::from("{}")));
    app.key_input = String::from("a\"b");
    app.value_input = String::from("c");
    app.save_key_value();
    assert_eq!(app.json_text(), Ok(String::from("{\"a\\\"b\":\"c\"}")));
}

#[test]
fn json_text_holds_every_pair() {
    let mut app = App::new();
    for (k, v) in [("one", "1"), ("two", "2"), ("three", "3")] {
        app.key_input = String::from(k);
        app.value_input = String::from(v);
        app.save_key_value();
    }
    let text = app.json_text().unwrap();
    let back: std::collections::HashMap<String, String> = serde_json::from_str(&text).unwrap();
    assert_eq!(back.len(), 3);
    assert_eq!(back["one"], "1");
    assert_eq!(back["two"], "2");
    assert_eq!(back["three"], "3");
}

#[test]
fn serializer_failure_becomes_serialize() {
    let failure = serde_json::from_str::<u8>("x").unwrap_err();
    assert_eq!(rendered(Err(failure)), Err(JsonError::Serialize));
    assert_eq!(rendered(Ok(String::from("{}"))), Ok(String::from("{}")));
}

#[test]
fn pair_line_pads_the_key_to_the_column() {
    assert_eq!(KEY_COLUMN_WIDTH, 25);
    assert_eq!(pair_line(&pair("key", "value")), "key                       : value");
    assert_eq!(pair_line(&pair("", "")), "                          : ");
    let long = "abcdefghijklmnopqrstuvwxyz0123";
    assert_eq!(pair_line(&pair(long, "v")), format!("{} : v", long));
    let exact = "abcdefghijklmnopqrstuvwxy";
    assert_eq!(exact.len(), 25);
    assert_eq!(pair_line(&pair(exact, "v")), format!("{} : v", exact));
    // The column counts characters, not bytes.
    let line = pair_line(&pair("é", "v"));
    assert_eq!(line.chars().count(), 25 + 3 + 1);
}

#[test]
fn footer_labels() {
    assert_eq!(screen_label(CurrentScreen::Main).text, "Normal Mode");
    assert_eq!(screen_label(CurrentScreen::Main).color, Color::Green);
    assert_eq!(screen_label(CurrentScreen::Editing).text, "Editing Mode");
    assert_eq!(screen_label(CurrentScreen::Editing).color, Color::Yellow);
    assert_eq!(screen_label(CurrentScreen::Exiting).text, "Exiting");
    assert_eq!(screen_label(CurrentScreen::Exiting).color, Color::LightRed);
    assert_eq!(editing_label(Some(CurrentlyEditing::Key)).text, "Editing Json Key");
    assert_eq!(editing_label(Some(CurrentlyEditing::Key)).color, Color::Green);
    assert_eq!(editing_label(Some(CurrentlyEditing::Value)).text, "Editing Json Value");
    assert_eq!(editing_label(Some(CurrentlyEditing::Value)).color, Color::LightGreen);
    assert_eq!(editing_label(None).text, "No Editing Anything");
    assert_eq!(editing_label(None).color, Color::DarkGray);
}

#[test]
fn key_hints() {
    assert_eq!(key_hint(CurrentScreen::Main).text, "(q) to quit / (e) to make new pair");
    assert_eq!(
        key_hint(CurrentScreen::Editing).text,
        "(ESC) to cancel/(Tab) to switch boxes/enter to complete"
    );
    assert_eq!(key_hint(CurrentScreen::Exiting).text, "(q) to quit / (e) to make new pair");
    assert_eq!(key_hint(CurrentScreen::Main).color, Color::Red);
    assert_eq!(key_hint(CurrentScreen::Editing).color, Color::Red);
}

#[test]
fn popup_side_share() {
    assert_eq!(side_percent(0), 100);
    assert_eq!(side_percent(50), 75);
    assert_eq!(side_percent(60), 70);
    assert_eq!(side_percent(100), 50);
    assert_eq!(side_percent(200), 0);
    assert_eq!(side_percent(201), 0);
}

#[test]
fn list_lines_has_a_line_for_each_pair_in_order() {
    let mut pairs = Pairs::new();
    assert!(list_lines(&pairs).is_empty());
    pairs.insert(String::from("b"), String::from("2"));
    pairs.insert(String::from("a"), String::from("1"));
    pairs.insert(String::from("b"), String::from("3"));
    assert_eq!(
        list_lines(&pairs),
        vec![
            String::from("b                         : 3"),
            String::from("a                         : 1"),
        ]
    );
}
