use termide::components::Components;
use termide::ui::container::{Container, ContainerType};
use termide::ui::framework::Framework;
use termide::ui::{
    ChangeFocusEvent, Event, InputEvent, KeyCode, KeyEvent, KeyEventKind, KeyEventState,
    KeyModifiers,
};
use termide::{route, step, Command};

fn key(code: KeyCode, control: bool, alt: bool, kind: KeyEventKind) -> KeyEvent {
    let mut modifiers = KeyModifiers::none();
    modifiers.control = control;
    modifiers.alt = alt;
    KeyEvent { code, modifiers, kind, state: KeyEventState::none() }
}

#[test]
fn control_alt_d_quits() {
    let k = key(KeyCode::Char('d'), true, true, KeyEventKind::Press);
    assert_eq!(route(InputEvent::Key(k)), Command::Quit);
    let held = key(KeyCode::Char('d'), true, true, KeyEventKind::Repeat);
    assert_eq!(route(InputEvent::Key(held)), Command::Quit);
}

#[test]
fn control_alt_arrows_move_the_focus() {
    for (code, direction) in [
        (KeyCode::Up, ChangeFocusEvent::Up),
        (KeyCode::Down, ChangeFocusEvent::Down),
        (KeyCode::Left, ChangeFocusEvent::Left),
        (KeyCode::Right, ChangeFocusEvent::Right),
    ] {
        let k = key(code, true, true, KeyEventKind::Press);
        assert_eq!(route(InputEvent::Key(k)), Command::Dispatch(Event::ChangeFocus(direction)));
    }
}

#[test]
fn other_control_alt_keys_do_nothing() {
    for code in [KeyCode::Char('x'), KeyCode::Enter, KeyCode::Esc, KeyCode::Other] {
        let k = key(code, true, true, KeyEventKind::Press);
        assert_eq!(route(InputEvent::Key(k)), Command::Ignore);
    }
}

#[test]
fn held_keys_arrive_as_pressed() {
    let k = key(KeyCode::Down, false, false, KeyEventKind::Repeat);
    let pressed = key(KeyCode::Down, false, false, KeyEventKind::Press);
    assert_eq!(
        route(InputEvent::Key(k)),
        Command::Dispatch(Event::Input(InputEvent::Key(pressed)))
    );
    // Control alone is no command to the program.
    let c = key(KeyCode::Char('d'), true, false, KeyEventKind::Press);
    assert_eq!(route(InputEvent::Key(c)), Command::Dispatch(Event::Input(InputEvent::Key(c))));
}

#[test]
fn released_keys_pass_as_they_are() {
    let k = key(KeyCode::Char('d'), true, true, KeyEventKind::Release);
    assert_eq!(route(InputEvent::Key(k)), Command::Dispatch(Event::Input(InputEvent::Key(k))));
}

#[test]
fn resize_and_other_events() {
    assert_eq!(route(InputEvent::Resize(80, 24)), Command::Resize(80, 24));
    assert_eq!(route(InputEvent::Resize(0, u16::MAX)), Command::Resize(0, 65535));
    assert_eq!(route(InputEvent::Other), Command::Dispatch(Event::Input(InputEvent::Other)));
}

#[test]
fn step_does_what_the_route_says() {
    let mut views = Components::new();
    let mut framework = Framework::new(80, 24);
    framework
        .add_container("/", Container::with_type("Terminal", ContainerType::Terminal(0), false))
        .unwrap();
    assert!(step(&mut framework, &mut views, InputEvent::Resize(5, 7)));
    assert_eq!(framework.get_size(), (11, 7));
    assert_eq!(framework.get_container().unwrap().get_size(), (11, 7));
    let quit = key(KeyCode::Char('d'), true, true, KeyEventKind::Press);
    assert!(!step(&mut framework, &mut views, InputEvent::Key(quit)));
    let up = key(KeyCode::Up, true, true, KeyEventKind::Press);
    assert!(step(&mut framework, &mut views, InputEvent::Key(up)));
    assert_eq!(framework.get_focused_path(), "/WorkArea/ProjectViewer");
    assert!(step(&mut framework, &mut views, InputEvent::Other));
}

#[test]
fn modifiers_and_state_know_when_they_are_empty() {
    assert!(KeyModifiers::none().is_empty());
    assert!(KeyEventState::none().is_empty());
    let mut m = KeyModifiers::none();
    m.meta = true;
    assert!(!m.is_empty());
    let mut s = KeyEventState::none();
    s.keypad = true;
    assert!(!s.is_empty());
}
