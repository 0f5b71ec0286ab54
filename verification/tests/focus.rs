use termide::components::Components;
use termide::ui::container::{Container, ContainerType};
use termide::ui::framework::Framework;
use termide::ui::{ChangeFocusEvent, Event, InputEvent};

fn split(name: &str, vert_layout: bool, all_own: bool, focused: bool) -> Container {
    Container::with_type(
        name,
        ContainerType::Father { primary: None, secondary: None, vert_layout, all_own },
        focused,
    )
}

fn path(segments: &[&str]) -> Vec<String> {
    segments.iter().map(|s| s.to_string()).collect()
}

fn some(s: &str) -> Option<String> {
    Some(s.to_string())
}

/// The tree as the program builds it: the terminal below the work area, the
/// project viewer left of the editor area, the editors on top of each other.
fn program() -> (Framework, Components) {
    let mut views = Components::new();
    let mut framework = Framework::new(100, 40);
    framework
        .add_container("/", Container::with_type("Terminal", ContainerType::Terminal(0), false))
        .unwrap();
    framework.add_container("/", split("WorkArea", false, true, true)).unwrap();
    framework.add_container("/WorkArea", split("EditorArea", true, true, false)).unwrap();
    framework
        .add_container(
            "/WorkArea",
            Container::with_type("ProjectViewer", ContainerType::ProjectViewer(0), true),
        )
        .unwrap();
    framework
        .add_container(
            "/WorkArea/EditorArea",
            Container::with_type("Editor0", ContainerType::Editor(0), false),
        )
        .unwrap();
    framework
        .add_container(
            "/WorkArea/EditorArea",
            Container::with_type("Editor1", ContainerType::Editor(1), false),
        )
        .unwrap();
    framework.set_adjacy(
        "/Terminal".to_string(),
        (some("/WorkArea/ProjectViewer"), None, None, None),
    );
    framework.set_adjacy(
        "/WorkArea/ProjectViewer".to_string(),
        (None, some("/Terminal"), None, some("/WorkArea/EditorArea/Editor0")),
    );
    framework.set_adjacy(
        "/WorkArea/EditorArea/Editor0".to_string(),
        (
            some("/WorkArea/EditorArea/Editor1"),
            some("/Terminal"),
            some("/WorkArea/ProjectViewer"),
            None,
        ),
    );
    framework.set_adjacy(
        "/WorkArea/EditorArea/Editor1".to_string(),
        (None, some("/WorkArea/EditorArea/Editor0"), some("/WorkArea/ProjectViewer"), None),
    );
    framework.set_size(100, 40, &mut views);
    (framework, views)
}

const PANES: [&[&str]; 7] = [
    &[],
    &["Terminal"],
    &["WorkArea"],
    &["WorkArea", "ProjectViewer"],
    &["WorkArea", "EditorArea"],
    &["WorkArea", "EditorArea", "Editor0"],
    &["WorkArea", "EditorArea", "Editor1"],
];

fn focused(framework: &Framework) -> Vec<String> {
    let root = framework.get_container().unwrap();
    PANES
        .iter()
        .filter(|p| root.get_by_path(path(p).as_slice()).unwrap().focused())
        .map(|p| p.join("/"))
        .collect()
}

fn geometry(framework: &Framework) -> Vec<((usize, usize), (usize, usize))> {
    let root = framework.get_container().unwrap();
    PANES
        .iter()
        .map(|p| {
            let c = root.get_by_path(path(p).as_slice()).unwrap();
            (c.get_location(), c.get_size())
        })
        .collect()
}

fn focused_leaves(framework: &Framework) -> usize {
    let root = framework.get_container().unwrap();
    PANES
        .iter()
        .map(|p| root.get_by_path(path(p).as_slice()).unwrap())
        .filter(|c| !matches!(c.get_type(), ContainerType::Father { .. }) && c.focused())
        .count()
}

#[test]
fn focus_starts_at_the_project_viewer() {
    let (framework, _) = program();
    assert_eq!(framework.get_focused_path(), "/WorkArea/ProjectViewer");
    assert_eq!(focused(&framework), vec!["", "WorkArea", "WorkArea/ProjectViewer"]);
    assert_eq!(focused_leaves(&framework), 1);
}

#[test]
fn transfer_without_neighbor_changes_nothing() {
    let (mut framework, mut views) = program();
    let flags = focused(&framework);
    let rectangles = geometry(&framework);
    // The project viewer has nothing above it and nothing to its left.
    assert!(!framework.transfer(ChangeFocusEvent::Up));
    framework.dispatch(Event::ChangeFocus(ChangeFocusEvent::Left), &mut views);
    assert_eq!(framework.get_focused_path(), "/WorkArea/ProjectViewer");
    assert_eq!(focused(&framework), flags);
    assert_eq!(geometry(&framework), rectangles);
}

#[test]
fn transfer_without_entry_changes_nothing() {
    let (mut framework, mut views) = program();
    framework.set_focused_path("/Unlisted");
    let flags = focused(&framework);
    let rectangles = geometry(&framework);
    for direction in [
        ChangeFocusEvent::Up,
        ChangeFocusEvent::Down,
        ChangeFocusEvent::Left,
        ChangeFocusEvent::Right,
    ] {
        framework.dispatch(Event::ChangeFocus(direction), &mut views);
        assert_eq!(framework.get_focused_path(), "/Unlisted");
        assert_eq!(focused(&framework), flags);
        assert_eq!(geometry(&framework), rectangles);
    }
}

#[test]
fn transfer_flips_the_old_and_the_new_way() {
    let (mut framework, _) = program();
    assert!(framework.transfer(ChangeFocusEvent::Right));
    assert_eq!(framework.get_focused_path(), "/WorkArea/EditorArea/Editor0");
    assert_eq!(
        focused(&framework),
        vec!["", "WorkArea", "WorkArea/EditorArea", "WorkArea/EditorArea/Editor0"]
    );
    assert_eq!(focused_leaves(&framework), 1);
}

#[test]
fn transfer_alone_leaves_the_layout() {
    let (mut framework, _) = program();
    let rectangles = geometry(&framework);
    assert!(framework.transfer(ChangeFocusEvent::Right));
    assert_eq!(geometry(&framework), rectangles);
}

#[test]
fn change_focus_lays_out_with_the_new_ratios() {
    let (mut framework, mut views) = program();
    framework.dispatch(Event::ChangeFocus(ChangeFocusEvent::Right), &mut views);
    let root = framework.get_container().unwrap();
    let size = |p: &[&str]| root.get_by_path(path(p).as_slice()).unwrap().get_size();
    // The work area is the primary pane of the root here, and focused.
    assert_eq!(size(&["WorkArea"]), (100, 39));
    assert_eq!(size(&["Terminal"]), (100, 1));
    // The project viewer is the secondary pane of the work area, now unfocused.
    assert_eq!(size(&["WorkArea", "ProjectViewer"]), (1, 39));
    assert_eq!(size(&["WorkArea", "EditorArea"]), (99, 39));
    // Editor0 is the secondary pane of the editor area, now focused.
    assert_eq!(size(&["WorkArea", "EditorArea", "Editor0"]), (99, 38));
    assert_eq!(size(&["WorkArea", "EditorArea", "Editor1"]), (99, 1));
}

#[test]
fn focus_walks_around_the_screen() {
    let (mut framework, mut views) = program();
    let mut go = |direction, expect: &str| {
        framework.dispatch(Event::ChangeFocus(direction), &mut views);
        assert_eq!(framework.get_focused_path(), expect);
        assert_eq!(focused_leaves(&framework), 1);
    };
    go(ChangeFocusEvent::Right, "/WorkArea/EditorArea/Editor0");
    go(ChangeFocusEvent::Up, "/WorkArea/EditorArea/Editor1");
    go(ChangeFocusEvent::Up, "/WorkArea/EditorArea/Editor1");
    go(ChangeFocusEvent::Down, "/WorkArea/EditorArea/Editor0");
    go(ChangeFocusEvent::Down, "/Terminal");
    go(ChangeFocusEvent::Up, "/WorkArea/ProjectViewer");
}

#[test]
fn set_adjacy_replaces_an_entry() {
    let (mut framework, _) = program();
    framework.set_adjacy("/WorkArea/ProjectViewer".to_string(), (some("/Terminal"), None, None, None));
    assert!(!framework.transfer(ChangeFocusEvent::Right));
    assert!(!framework.transfer(ChangeFocusEvent::Down));
    assert!(framework.transfer(ChangeFocusEvent::Up));
    assert_eq!(framework.get_focused_path(), "/Terminal");
}

#[test]
fn adjacency_keys_are_not_normalised() {
    let (mut framework, _) = program();
    framework.set_focused_path("WorkArea/ProjectViewer");
    assert!(!framework.transfer(ChangeFocusEvent::Right));
    assert_eq!(framework.get_focused_path(), "WorkArea/ProjectViewer");
}

#[test]
fn transfer_to_a_path_that_is_not_there_loses_the_focus() {
    let (mut framework, _) = program();
    framework.set_adjacy("/WorkArea/ProjectViewer".to_string(), (some("/Gone"), None, None, None));
    assert!(framework.transfer(ChangeFocusEvent::Up));
    assert_eq!(framework.get_focused_path(), "/Gone");
    assert_eq!(focused(&framework), vec![""]);
    assert_eq!(focused_leaves(&framework), 0);
}

#[test]
fn input_leaves_focus_and_layout() {
    let (mut framework, mut views) = program();
    let flags = focused(&framework);
    let rectangles = geometry(&framework);
    framework.dispatch(Event::Input(InputEvent::Other), &mut views);
    assert_eq!(focused(&framework), flags);
    assert_eq!(geometry(&framework), rectangles);
}

#[test]
fn move_focus_goes_where_it_is_told() {
    let (mut framework, _) = program();
    framework.move_focus("/Terminal".to_string());
    assert_eq!(framework.get_focused_path(), "/Terminal");
    assert_eq!(focused(&framework), vec!["", "Terminal"]);
}

#[test]
fn framework_without_tree_does_nothing() {
    let mut views = Components::new();
    let mut framework = Framework::new(20, 10);
    framework.set_container(Container::new("Lonely"));
    framework.set_adjacy("/WorkArea/ProjectViewer".to_string(), (some("/X"), None, None, None));
    assert!(framework.transfer(ChangeFocusEvent::Up));
    assert_eq!(framework.get_focused_path(), "/X");
    assert!(framework.get_container().unwrap().focused());
    framework.dispatch(Event::Input(InputEvent::Other), &mut views);
    assert!(framework.has_container());
}
