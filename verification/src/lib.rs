//! The pane compositor of a tiling terminal editor: a binary tree of panes that
//! owns the geometry, a directional focus graph over it, and named bounded
//! mailboxes through which panes hand open files to each other.

use vstd::prelude::*;
use crate::components::{Components, ComponentsView};
use crate::ui::framework::{Framework, FrameworkView};
use crate::ui::{ChangeFocusEvent, Event, InputEvent, KeyCode, KeyEvent, KeyEventKind};

pub mod components;
pub mod named_pipe;
pub mod pseudo_mt;
pub mod renderer;
pub mod text;
pub mod ui;

verus! {

/// What is to be done about an event of the terminal.
#[derive(Clone, Copy, Debug, PartialEq, Eq, Structural)]
pub enum Command {
    /// Leave the program.
    Quit,
    /// Hand the event to the framework.
    Dispatch(Event),
    /// Take a new screen size.
    Resize(usize, usize),
    /// Nothing.
    Ignore,
}

/// What is to be done about `event`.
///
/// A key pressed or held together with control and alt is a command to the
/// program: `d` leaves it, an arrow moves the focus, any other key does
/// nothing. Any other key pressed or held goes to the focused pane as a key
/// pressed. A new size of the window is taken. Everything else goes to the
/// focused pane as it is.
pub open spec fn routed(event: InputEvent) -> Command {
    match event {
        InputEvent::Key(key) => if key.kind != KeyEventKind::Release {
            if key.modifiers.control && key.modifiers.alt {
                match key.code {
                    KeyCode::Char(c) => if c == 'd' {
                        Command::Quit
                    } else {
                        Command::Ignore
                    },
                    KeyCode::Up => Command::Dispatch(Event::ChangeFocus(ChangeFocusEvent::Up)),
                    KeyCode::Down => Command::Dispatch(Event::ChangeFocus(ChangeFocusEvent::Down)),
                    KeyCode::Left => Command::Dispatch(Event::ChangeFocus(ChangeFocusEvent::Left)),
                    KeyCode::Right => Command::Dispatch(
                        Event::ChangeFocus(ChangeFocusEvent::Right),
                    ),
                    _ => Command::Ignore,
                }
            } else {
                Command::Dispatch(
                    Event::Input(
                        InputEvent::Key(
                            KeyEvent {
                                code: key.code,
                                modifiers: key.modifiers,
                                kind: KeyEventKind::Press,
                                state: key.state,
                            },
                        ),
                    ),
                )
            }
        } else {
            Command::Dispatch(Event::Input(event))
        },
        InputEvent::Resize(width, height) => Command::Resize(width as usize, height as usize),
        InputEvent::Other => Command::Dispatch(Event::Input(event)),
    }
}

/// Decides what is to be done about an event of the terminal.
pub fn route(event: InputEvent) -> (r: Command)
    ensures
        r == routed(event),
{
    match event {
        InputEvent::Key(key) => {
            if !matches!(key.kind, KeyEventKind::Release) {
                if key.modifiers.control && key.modifiers.alt {
                    match key.code {
                        KeyCode::Char(c) => if c == 'd' {
                            Command::Quit
                        } else {
                            Command::Ignore
                        },
                        KeyCode::Up => Command::Dispatch(Event::ChangeFocus(ChangeFocusEvent::Up)),
                        KeyCode::Down => Command::Dispatch(
                            Event::ChangeFocus(ChangeFocusEvent::Down),
                        ),
                        KeyCode::Left => Command::Dispatch(
                            Event::ChangeFocus(ChangeFocusEvent::Left),
                        ),
                        KeyCode::Right => Command::Dispatch(
                            Event::ChangeFocus(ChangeFocusEvent::Right),
                        ),
                        _ => Command::Ignore,
                    }
                } else {
                    Command::Dispatch(
                        Event::Input(
                            InputEvent::Key(
                                KeyEvent {
                                    code: key.code,
                                    modifiers: key.modifiers,
                                    kind: KeyEventKind::Press,
                                    state: key.state,
                                },
                            ),
                        ),
                    )
                }
            } else {
                Command::Dispatch(Event::Input(event))
            }
        },
        InputEvent::Resize(width, height) => Command::Resize(width as usize, height as usize),
        InputEvent::Other => Command::Dispatch(Event::Input(event)),
    }
}

/// The framework after one event of the terminal.
pub open spec fn stepped(framework: FrameworkView, event: InputEvent) -> FrameworkView {
    match routed(event) {
        Command::Dispatch(e) => framework.dispatched(e),
        Command::Resize(width, height) => framework.resized(width, height),
        _ => framework,
    }
}

/// The views after one event of the terminal.
pub open spec fn served(
    framework: FrameworkView,
    event: InputEvent,
    views: ComponentsView,
) -> ComponentsView {
    match routed(event) {
        Command::Dispatch(e) => framework.served(e, views),
        Command::Resize(width, height) => framework.resized(width, height).announced(views),
        _ => views,
    }
}

/// Takes one event of the terminal: does what [`route`] says about it, and
/// tells whether the program is to go on. A frame is due after it.
pub fn step(framework: &mut Framework, views: &mut Components, event: InputEvent) -> (go_on: bool)
    requires
        old(views).wf(),
    ensures
        final(views).wf(),
        go_on == (routed(event) != Command::Quit),
        final(framework)@ == stepped(old(framework)@, event),
        final(views)@ == served(old(framework)@, event, old(views)@),
{
    match route(event) {
        Command::Quit => false,
        Command::Dispatch(e) => {
            framework.dispatch(e, views);
            true
        },
        Command::Resize(width, height) => {
            framework.set_size(width, height, views);
            true
        },
        Command::Ignore => true,
    }
}

} // verus!
