use goblin_camp::data::base::{Position, Size};
use goblin_camp::game::{
    handle_input, Event, EventFlags, Input, Key, KeyCode, KeyEvent, Mouse, MouseEvent, RawEvent,
};
use goblin_camp::ui::dialog::{centered, middle};
use goblin_camp::ui::drawable::{covers, offset_by, shown, Drawable, Positioned, Sized, VisibilityFn};
use goblin_camp::ui::originals::{HoldingOriginals, IndexedOriginal, Original};
use goblin_camp::ui::update_result::{HitResult, RespondKind, UpdateResult};
use goblin_camp::ui::{Button, CheckBox, Component, Dialog, Label, MessageBox, MessageBoxResult, TextBox, UiContainer};
use goblin_camp::util::tcod::{Chars, Color, TextAlignment};

fn mouse_at(x: i32, y: i32, clicked: bool) -> Input {
    let mut mouse = Mouse::default();
    mouse.cx = x;
    mouse.cy = y;
    mouse.lbutton_pressed = clicked;
    Input::idle(mouse)
}

fn key(printable: char) -> Input {
    let mut input = Input::idle(Mouse::default());
    input.press_key_event = KeyEvent { raw: Key { code: KeyCode::Char, printable, pressed: true, shift: false } };
    input.mouse_event.character_position = Position::new(-100, -100);
    input
}

#[test]
fn results_say_what_was_met() {
    let r = UpdateResult::hit(HitResult::NoHit);
    assert_eq!(r.hit, HitResult::NoHit);
    assert!(r.kind.is_none() && !r.dismiss && r.data.is_none());
    let r = UpdateResult::new(HitResult::Hit, Some(RespondKind::Key('y')), true, Some("Yes".to_string()));
    assert_eq!(r.kind, Some(RespondKind::Key('y')));
    assert!(r.dismiss);
    assert_eq!(r.data.as_deref(), Some("Yes"));
}

#[test]
fn rectangles_cover_their_cells() {
    let origin = Position::new(10, 10);
    let position = Position::new(2, 3);
    let size = Size::new(4, 2);
    assert!(covers(origin, position, size, Position::new(12, 13)));
    assert!(covers(origin, position, size, Position::new(15, 14)));
    assert!(!covers(origin, position, size, Position::new(16, 14)));
    assert!(!covers(origin, position, size, Position::new(15, 15)));
    assert!(!covers(origin, position, size, Position::new(11, 13)));
    assert!(covers(
        Position::new(i32::MAX, 0),
        Position::new(i32::MIN, 0),
        Size::new(1, 1),
        Position::new(-1, 0)
    ));
    assert_eq!(offset_by(Position::new(3, 4), Position::new(10, -9)), Position::new(13, -5));
    assert_eq!(offset_by(Position::new(i32::MAX, i32::MIN), Position::new(1, -1)), Position::new(i32::MAX, i32::MIN));
    assert!(shown(None));
    assert!(shown(Some(true)));
    assert!(!shown(Some(false)));
    assert_eq!(centered(80, 54), 13);
    assert_eq!(centered(50, 11), 19);
    assert_eq!(centered(10, 54), -22);
    assert_eq!(centered(i32::MAX, i32::MIN), i32::MAX);
    assert_eq!(middle(50, 21), 15);
    assert_eq!(middle(50, 19), 16);
    assert_eq!(middle(80, 40), 20);
    assert_eq!(middle(i32::MIN, i32::MAX), -2147483647);
}

#[test]
fn plain_parts_notice_the_mouse() {
    let mut label = Label::new("Hello", Position::new(2, 2));
    assert_eq!(label.alignment, TextAlignment::Left);
    assert_eq!(label.color, Color::new(255, 255, 255));
    assert_eq!((label.size().width, label.size().height), (0, 1));
    assert_eq!(label.position(), Position::new(2, 2));
    assert_eq!(label.visibility_fn(), None);
    assert!(label.visible());
    label.set_color(Color::new(1, 2, 3));
    assert_eq!(label.color, Color::new(1, 2, 3));
    // A label has no width, so the mouse is never over it.
    assert_eq!(label.update(Position::new(0, 0), &mouse_at(2, 2, true)).hit, HitResult::NoHit);
    let centred = Label::new_with_alignment("Hello", Position::new(2, 2), TextAlignment::Center);
    assert_eq!(centred.alignment, TextAlignment::Center);
    assert_eq!(centred.text, "Hello");

    let mut text_box = TextBox::new("abc", Position::new(1, 1), 5);
    assert_eq!(text_box.background_color, Color::new(95, 95, 95));
    assert_eq!(text_box.update(Position::new(10, 0), &mouse_at(15, 1, false)).hit, HitResult::Hit);
    assert_eq!(text_box.update(Position::new(10, 0), &mouse_at(16, 1, false)).hit, HitResult::NoHit);
    text_box.set_text("xyz");
    text_box.set_color(Color::new(9, 9, 9));
    text_box.set_background_color(Color::new(8, 8, 8));
    assert_eq!(text_box.text, "xyz");
    assert_eq!((text_box.color, text_box.background_color), (Color::new(9, 9, 9), Color::new(8, 8, 8)));
    assert_eq!(TextBox::new_with_alignment("a", Position::new(0, 0), 3).size.width, 3);

    let mut check_box = CheckBox::new("Tutorial", Position::new(0, 0), true, Color::new(1, 1, 1), Color::new(2, 2, 2));
    assert_eq!(check_box.glyph().code(), Chars::CheckboxSet.code());
    assert_eq!(check_box.shown_color(), Color::new(2, 2, 2));
    check_box.checked = false;
    assert_eq!(check_box.glyph().code(), Chars::CheckboxUnset.code());
    assert_eq!(check_box.shown_color(), Color::new(1, 1, 1));
    check_box.visibility = Some(false);
    assert!(!check_box.visible());
    assert_eq!(check_box.update(Position::new(0, 0), &mouse_at(0, 0, true)).hit, HitResult::NoHit);
}

#[test]
fn buttons_answer_to_key_and_click() {
    let mut button = Button::new("Yes", Position::new(8, 5), 15, Some('y'), true);
    let by_key = button.update(Position::new(0, 0), &key('y'));
    assert_eq!(by_key.hit, HitResult::Hit);
    assert_eq!(by_key.kind, Some(RespondKind::Key('y')));
    assert!(by_key.dismiss);
    assert_eq!(by_key.data.as_deref(), Some("Yes"));
    assert!(!button.selected);

    let other_key = button.update(Position::new(0, 0), &key('n'));
    assert_eq!(other_key.hit, HitResult::NoHit);
    assert!(other_key.kind.is_none() && other_key.data.is_none() && !other_key.dismiss);

    // The frame of the button is three rows high.
    let over = button.update(Position::new(0, 0), &mouse_at(22, 7, false));
    assert_eq!(over.hit, HitResult::Hit);
    assert!(over.kind.is_none() && over.data.is_none());
    assert!(button.selected);
    let click = button.update(Position::new(0, 0), &mouse_at(8, 5, true));
    assert_eq!(click.kind, Some(RespondKind::Mouse(Position::new(8, 5))));
    assert_eq!(click.data.as_deref(), Some("Yes"));
    let away = button.update(Position::new(0, 0), &mouse_at(23, 7, true));
    assert_eq!(away.hit, HitResult::NoHit);
    assert!(!button.selected);
    let below = button.update(Position::new(0, 0), &mouse_at(10, 8, true));
    assert_eq!(below.hit, HitResult::NoHit);

    let plain = Button::new_with_defaults("Plain", Position::new(0, 0), 4);
    assert!(plain.shortcut.is_none() && !plain.dismiss);
    assert_eq!((plain.size.width, plain.size.height), (4, 0));
}

#[test]
fn containers_ask_their_parts_in_order() {
    let mut container = UiContainer::new(Position::new(10, 10), Size::new(30, 10));
    let label = container.add_component(Component::Label(Label::new("Title", Position::new(1, 1))));
    let first = container.add_component(Component::Button(Button::new("One", Position::new(1, 3), 8, Some('o'), false)));
    let second = container.add_component(Component::Button(Button::new("Two", Position::new(5, 3), 8, Some('t'), true)));
    assert_eq!((label.index(), first.index(), second.index()), (0, 1, 2));
    assert_eq!(*second.token(), 2);
    assert_eq!(IndexedOriginal::<Label>::new(7).index(), 7);

    // Both buttons cover the cell; the first one answers.
    let result = container.update(Position::new(0, 0), &mouse_at(16, 14, true));
    assert_eq!(result.data.as_deref(), Some("One"));
    let result = container.update(Position::new(0, 0), &key('t'));
    assert_eq!(result.kind, Some(RespondKind::Key('t')));
    assert!(result.dismiss);

    // A part that is hidden is not asked.
    match container.get_component(&1) {
        Component::Button(button) => button.visibility = Some(false),
        _ => panic!("the second part is a button"),
    }
    let result = container.update(Position::new(0, 0), &mouse_at(16, 14, true));
    assert_eq!(result.data.as_deref(), Some("Two"));

    // Where no part answers, the container notices the mouse itself.
    let result = container.update(Position::new(0, 0), &mouse_at(39, 19, true));
    assert_eq!(result.hit, HitResult::Hit);
    assert!(result.kind.is_none());
    let result = container.update(Position::new(0, 0), &mouse_at(40, 19, true));
    assert_eq!(result.hit, HitResult::NoHit);

    let filled = UiContainer::new_with_components(
        vec![Component::TextBox(TextBox::new("a", Position::new(0, 0), 3))],
        Position::new(0, 0),
        Size::new(5, 5),
    );
    assert_eq!(filled.components.len(), 1);
    assert_eq!(filled.components[0].position(), Position::new(0, 0));
    assert_eq!(filled.components[0].size().width, 3);
    assert!(filled.visible());
}

#[test]
fn dialogs_stand_in_the_middle() {
    let contents = UiContainer::new(Position::new(0, 0), Size::new(20, 10));
    let mut dialog = Dialog::new(Size::new(80, 50), contents, Some("Title".to_string()), Size::new(20, 10));
    assert_eq!(dialog.position(), Position::new(30, 20));
    assert_eq!(dialog.title.as_deref(), Some("Title"));
    dialog.get_contents().add_component(Component::Button(Button::new("Go", Position::new(2, 2), 6, None, true)));
    // The parts stand at their position counted from the dialog.
    let result = dialog.update(Position::new(500, 500), &mouse_at(32, 22, true));
    assert_eq!(result.data.as_deref(), Some("Go"));
    let result = dialog.update(Position::new(0, 0), &mouse_at(2, 2, true));
    assert!(result.kind.is_none());
}

#[test]
fn message_boxes_lay_their_text_out() {
    let text = "There are conflicting key bindings";
    let message = MessageBox::create_message_box(Size::new(80, 50), text, "Understood", None);
    assert_eq!((message.dialog.size.width, message.dialog.size.height), (54, 8));
    assert_eq!(message.dialog.position, Position::new(13, 21));
    let parts = &message.dialog.contents.components;
    assert_eq!(parts.len(), 2);
    match &parts[0] {
        Component::Label(label) => {
            assert_eq!(label.text, text);
            assert_eq!(label.position, Position::new(27, 2));
            assert_eq!(label.alignment, TextAlignment::Center);
        }
        _ => panic!("the first part is the text"),
    }
    match &parts[1] {
        Component::Button(button) => {
            assert_eq!(button.text, "Understood");
            assert_eq!(button.position, Position::new(22, 4));
            assert_eq!(button.size.width, 15);
            assert_eq!(button.shortcut, Some('u'));
            assert!(button.dismiss);
        }
        _ => panic!("the second part is the button"),
    }

    let long = "A game is already running, are you sure you want  to start a new one?";
    let mut question = MessageBox::create_message_box(Size::new(80, 50), long, "Yes", Some("No"));
    assert_eq!(question.dialog.size.height, 9);
    let parts = &question.dialog.contents.components;
    assert_eq!(parts.len(), 4);
    match (&parts[0], &parts[1]) {
        (Component::Label(first), Component::Label(second)) => {
            assert_eq!(first.text, &long[..50]);
            assert_eq!(second.text, &long[50..]);
            assert_eq!(second.position, Position::new(27, 3));
        }
        _ => panic!("the text takes two lines"),
    }
    match (&parts[2], &parts[3]) {
        (Component::Button(yes), Component::Button(no)) => {
            assert_eq!((yes.position, no.position), (Position::new(8, 5), Position::new(31, 5)));
            assert_eq!((yes.shortcut, no.shortcut), (Some('y'), Some('n')));
        }
        _ => panic!("two buttons follow"),
    }
    assert_eq!(question.update(&key('x')), None);
    assert_eq!(question.update(&key('y')), Some(MessageBoxResult::First));
    assert_eq!(question.update(&key('n')), Some(MessageBoxResult::Second));
    let dialog_at = question.dialog.position;
    assert_eq!(
        question.update(&mouse_at(dialog_at.x + 31, dialog_at.y + 5, true)),
        Some(MessageBoxResult::Second)
    );
    assert_eq!(question.update(&mouse_at(dialog_at.x + 31, dialog_at.y + 5, false)), None);

    // A text of just fifty characters gets an empty line after it.
    let fifty = "x".repeat(50);
    let even = MessageBox::create_message_box(Size::new(80, 50), &fifty, "Ok", None);
    assert_eq!(even.dialog.contents.components.len(), 3);
    assert_eq!(even.dialog.size.height, 9);
    let empty = MessageBox::create_message_box(Size::new(80, 50), "", "", None);
    assert_eq!(empty.dialog.contents.components.len(), 2);
    match &empty.dialog.contents.components[1] {
        Component::Button(button) => assert_eq!(button.shortcut, None),
        _ => panic!("the button comes last"),
    }
}

fn press(printable: char) -> RawEvent {
    RawEvent {
        flags: EventFlags { key_press: true, key_release: false, mouse: false },
        event: Event::Key(Key { code: KeyCode::Char, printable, pressed: true, shift: false }),
    }
}

fn release(printable: char) -> RawEvent {
    RawEvent {
        flags: EventFlags { key_press: false, key_release: true, mouse: false },
        event: Event::Key(Key { code: KeyCode::Char, printable, pressed: false, shift: false }),
    }
}

fn moved(x: i32, clicked: bool) -> RawEvent {
    let mut mouse = Mouse::default();
    mouse.cx = x;
    mouse.x = x * 8;
    mouse.lbutton_pressed = clicked;
    RawEvent { flags: EventFlags { key_press: false, key_release: false, mouse: true }, event: Event::Mouse(mouse) }
}

#[test]
fn the_first_of_each_kind_counts() {
    let mut previous = Mouse::default();
    previous.cx = 77;
    let input = handle_input(&vec![], &mut previous);
    assert!(input.raw_events.is_empty());
    assert_eq!(input.press_key_event, KeyEvent::default());
    assert_eq!(input.release_key_event.raw.code, KeyCode::NoKey);
    assert_eq!(input.mouse_event.character_position, Position::new(77, 0));
    assert_eq!(previous.cx, 77);

    let events = vec![press('a'), press('b'), release('c'), moved(5, true), release('d'), moved(6, false)];
    let input = handle_input(&events, &mut previous);
    assert_eq!(input.raw_events.len(), 6);
    assert_eq!(input.raw_events[2], events[2].event);
    assert_eq!(input.press_key_event.raw.printable, 'a');
    assert_eq!(input.release_key_event.raw.printable, 'c');
    assert_eq!(input.mouse_event.character_position, Position::new(5, 0));
    assert_eq!(input.mouse_event.screen_position, Position::new(40, 0));
    assert!(input.mouse_event.clicked);
    // The click counts once: the mouse that is kept has none.
    assert_eq!(previous.cx, 5);
    assert!(!previous.lbutton_pressed);
    let later = handle_input(&vec![press('z')], &mut previous);
    assert!(!later.mouse_event.clicked);
    assert_eq!(later.mouse_event.character_position, Position::new(5, 0));

    // An event of two kinds counts for the first kind that is free.
    let both = RawEvent {
        flags: EventFlags { key_press: true, key_release: true, mouse: false },
        event: Event::Key(Key { code: KeyCode::Enter, printable: '\r', pressed: true, shift: false }),
    };
    let input = handle_input(&vec![both, both, both], &mut previous);
    assert_eq!(input.release_key_event.raw.code, KeyCode::Enter);
    assert_eq!(input.press_key_event.raw.code, KeyCode::Enter);
    assert_eq!(MouseEvent::default().character_position, Position::new(0, 0));
}
