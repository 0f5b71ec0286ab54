use termide::components::areas::{EditorArea, WorkArea};
use termide::components::editor::{Editing, Editor};
use termide::components::project_viewer::{Path, PathType, ProjectViewer};
use termide::components::terminal::Terminal;
use termide::components::Components;
use termide::named_pipe::{PipeObject, ReceiverHandle};
use termide::renderer::{Renderer, Screen};
use termide::ui::container::{Container, ContainerType, InsertError};
use termide::ui::framework::Framework;
use termide::ui::{
    ChangeFocusEvent, Event, InputEvent, KeyCode, KeyEvent, KeyEventKind, KeyEventState,
    KeyModifiers,
};

fn names(segments: &[&str]) -> Vec<String> {
    segments.iter().map(|s| s.to_string()).collect()
}

fn text(v: &[char]) -> String {
    v.iter().collect()
}

fn key(code: KeyCode) -> Event {
    Event::Input(InputEvent::Key(KeyEvent {
        code,
        modifiers: KeyModifiers::none(),
        kind: KeyEventKind::Press,
        state: KeyEventState::none(),
    }))
}

fn file(name: &str) -> Path {
    Path { name: name.to_string(), ptype: PathType::File, unfolded: false, children: Vec::new() }
}

/// The program as it starts: everything bound in the order of the program.
fn program() -> (Framework, Components) {
    let mut views = Components::new();
    let mut framework = Framework::new(60, 20);
    Terminal::new("/bin/sh".to_string()).bind_to(&mut framework, &mut views).unwrap();
    WorkArea::new().bind_to(&mut framework).unwrap();
    EditorArea::new().bind_to(&mut framework).unwrap();
    let viewer =
        ProjectViewer::new("/proj".to_string(), vec![file("a.txt"), file("b.txt")], &mut views.pipes);
    viewer.bind_to(&mut framework, &mut views).unwrap();
    let editor0 = Editor::new(0, &mut views.pipes);
    editor0.bind_to(&mut framework, &mut views).unwrap();
    let editor1 = Editor::new(1, &mut views.pipes);
    editor1.bind_to(&mut framework, &mut views).unwrap();
    framework.set_adjacy(
        "/WorkArea/ProjectViewer".to_string(),
        (None, Some("/Terminal".to_string()), None, Some("/WorkArea/EditorArea/Editor0".to_string())),
    );
    framework.set_size(60, 20, &mut views);
    (framework, views)
}

fn size(framework: &Framework, path: &[&str]) -> (usize, usize) {
    framework.get_container().unwrap().get_by_path(names(path).as_slice()).unwrap().get_size()
}

#[test]
fn program_tree_has_every_pane() {
    let (framework, views) = program();
    assert_eq!(views.terminals.len(), 1);
    assert_eq!(views.viewers.len(), 1);
    assert_eq!(views.editors.len(), 2);
    assert_eq!(size(&framework, &[]), (60, 20));
    // The terminal was bound first and stands below the work area.
    assert_eq!(size(&framework, &["Terminal"]), (60, 1));
    assert_eq!(size(&framework, &["WorkArea"]), (60, 19));
    assert_eq!(size(&framework, &["WorkArea", "ProjectViewer"]), (59, 19));
    assert_eq!(size(&framework, &["WorkArea", "EditorArea"]), (1, 19));
    assert_eq!(size(&framework, &["WorkArea", "EditorArea", "Editor0"]), (1, 1));
    assert_eq!(size(&framework, &["WorkArea", "EditorArea", "Editor1"]), (1, 18));
    let root = framework.get_container().unwrap();
    let editor1 = root.get_by_path(names(&["WorkArea", "EditorArea", "Editor1"]).as_slice());
    assert!(matches!(editor1.unwrap().get_type(), ContainerType::Editor(1)));
}

#[test]
fn binding_fails_without_its_split() {
    let mut views = Components::new();
    let mut framework = Framework::new(60, 20);
    let editor = Editor::new(0, &mut views.pipes);
    assert_eq!(editor.bind_to(&mut framework, &mut views), Err(InsertError::PathNotFound));
    assert_eq!(views.editors.len(), 0);
    assert_eq!(EditorArea::new().bind_to(&mut framework), Err(InsertError::PathNotFound));
    Terminal::new("sh".to_string()).bind_to(&mut framework, &mut views).unwrap();
    WorkArea::new().bind_to(&mut framework).unwrap();
    assert_eq!(
        Terminal::new("sh".to_string()).bind_to(&mut framework, &mut views),
        Err(InsertError::SlotsFull)
    );
    assert_eq!(views.terminals.len(), 1);
    framework.set_container(Container::new("Leaf"));
    assert_eq!(WorkArea::new().bind_to(&mut framework), Err(InsertError::NotASplit));
}

#[test]
fn input_goes_to_the_focused_leaf_only() {
    let (mut framework, mut views) = program();
    framework.dispatch(key(KeyCode::Down), &mut views);
    assert_eq!(views.viewers[0].get_at_line(), 1);
    // The editors are not focused: the key that would change their mode does
    // nothing.
    framework.dispatch(key(KeyCode::Char('e')), &mut views);
    assert_eq!(views.editors[0].get_mode(), termide::components::editor::EditorMode::Command);
    assert_eq!(views.editors[1].get_mode(), termide::components::editor::EditorMode::Command);
    framework.dispatch(Event::ChangeFocus(ChangeFocusEvent::Right), &mut views);
    framework.dispatch(key(KeyCode::Char('e')), &mut views);
    assert_eq!(views.editors[0].get_mode(), termide::components::editor::EditorMode::Edit);
    assert_eq!(views.editors[1].get_mode(), termide::components::editor::EditorMode::Command);
    // And the viewer does not move any more.
    framework.dispatch(key(KeyCode::Down), &mut views);
    assert_eq!(views.viewers[0].get_at_line(), 1);
}

#[test]
fn opening_a_file_reaches_the_editor_in_the_next_frame() {
    let (mut framework, mut views) = program();
    framework.dispatch(key(KeyCode::Enter), &mut views);
    assert_eq!(views.files.len(), 1);
    let h = views.viewers[0].get_editor_stack()[0];
    views.files.load(h, &"first line\nsecond\n".chars().collect());
    assert_eq!(views.editors[0].get_file(), None);
    let (_, cursor) = framework.render(&mut views);
    assert_eq!(views.editors[0].get_file(), Some(h));
    assert_eq!(views.editors[1].get_file(), None);
    // The project viewer is focused and shows no cursor.
    assert_eq!(cursor, None);
    assert_eq!(views.files.get(h).unwrap().path(), &names(&["", "proj", "a.txt"]));
}

#[test]
fn focus_request_moves_the_focus_to_the_editor() {
    let (mut framework, mut views) = program();
    let requests = views.pipes.open_receiver("MoveFocusToEditor".to_string());
    assert!(!framework.serve_focus_request(requests, "/WorkArea/EditorArea/Editor0", &mut views));
    framework.dispatch(key(KeyCode::Enter), &mut views);
    assert!(framework.serve_focus_request(requests, "/WorkArea/EditorArea/Editor0", &mut views));
    assert_eq!(framework.get_focused_path(), "/WorkArea/EditorArea/Editor0");
    assert_eq!(size(&framework, &["WorkArea", "EditorArea"]), (59, 19));
    assert_eq!(size(&framework, &["WorkArea", "EditorArea", "Editor0"]), (59, 18));
    assert!(!framework.serve_focus_request(requests, "/WorkArea/EditorArea/Editor0", &mut views));
    let (_, cursor) = framework.render(&mut views);
    // The editor area stands right of the one column of the project viewer,
    // the first editor below the one row of the second.
    assert_eq!(cursor, Some((1, 2)));
}

#[test]
fn other_requests_are_taken_and_dropped() {
    let (mut framework, mut views) = program();
    let tx = views.pipes.open_sender("MoveFocusToEditor".to_string());
    views.pipes.try_send(tx, PipeObject::Editing(termide::named_pipe::EditingHandle { index: 0 })).unwrap();
    let rx = ReceiverHandle { index: tx.index };
    assert!(!framework.serve_focus_request(rx, "/Terminal", &mut views));
    assert_eq!(framework.get_focused_path(), "/WorkArea/ProjectViewer");
    assert_eq!(views.pipes.try_recv(rx), None);
}

#[test]
fn frame_draws_every_pane_in_its_rectangle() {
    let (framework, mut views) = program();
    let (screen, cursor) = framework.render(&mut views);
    assert_eq!(cursor, None);
    let rows: Vec<(usize, usize, String)> = (0..screen.len())
        .map(|i| (screen.command(i).x, screen.command(i).y, text(&screen.command(i).text)))
        .collect();
    // The work area is drawn first: it is the primary pane of the root.
    assert_eq!(rows[0], (0, 0, format!("{:<59}", "proj")));
    assert_eq!(rows[1], (0, 1, format!("{:<59}", "─ a.txt")));
    assert_eq!(rows[2], (0, 2, format!("{:<59}", "─ b.txt")));
    // The terminal is drawn last, in the last row.
    assert_eq!(rows.last().unwrap(), &(0, 19, format!("{:<60}", "Terminal /bin/sh")));
    // Both editors are one column wide and unfocused: they write downwards.
    // The second editor stands on top, the first in the one row below it.
    assert!(rows.iter().any(|r| r == &(59, 0, " ".to_string())));
    assert!(rows.iter().any(|r| r == &(59, 1, "E".to_string())));
    assert!(rows.iter().any(|r| r == &(59, 18, " ".to_string())));
}

#[test]
fn render_of_an_empty_tree_draws_nothing() {
    let mut views = Components::new();
    let framework = Framework::new(10, 10);
    let (screen, cursor) = framework.render(&mut views);
    assert_eq!(screen.len(), 0);
    assert_eq!(cursor, None);
}

#[test]
fn leaf_that_names_no_view_draws_nothing() {
    let mut views = Components::new();
    let mut root = Container::new_root(10, 10);
    root.add_container(&[], Container::with_type("E", ContainerType::Editor(5), true)).unwrap();
    root.set_size(10, 10);
    let mut screen = Screen::new();
    let r = root.render(&Renderer::new(0, 0, 10, 10), &mut views, &mut screen);
    assert_eq!(r, (false, (0, 0)));
    assert_eq!(screen.len(), 0);
    root.dispatch(InputEvent::Other, &mut views);
    root.announce_size(&mut views);
}

#[test]
fn resize_tells_the_viewer_its_height() {
    let (mut framework, mut views) = program();
    framework.dispatch(key(KeyCode::Down), &mut views);
    assert_eq!(views.viewers[0].get_at_line(), 1);
    // Three rows in all: one for the terminal, two for the work area, of
    // which one is the title of the viewer.
    framework.set_size(60, 3, &mut views);
    assert_eq!(size(&framework, &["WorkArea", "ProjectViewer"]), (59, 2));
    assert_eq!(views.viewers[0].get_at_line(), 0);
    assert_eq!(views.viewers[0].get_filesystem().get_showing_start(), 1);
}

#[test]
fn buffers_can_be_added_by_hand() {
    let mut views = Components::new();
    let h = views.files.add(Editing::new(names(&["x"])));
    assert_eq!(h.index, 0);
    assert!(views.files.get(h).is_some());
}
