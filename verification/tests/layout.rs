use termide::components::Components;
use termide::ui::container::{split_shares, Container, ContainerType};
use termide::ui::framework::Framework;

fn split(name: &str, vert_layout: bool, all_own: bool, focused: bool) -> Container {
    Container::with_type(
        name,
        ContainerType::Father { primary: None, secondary: None, vert_layout, all_own },
        focused,
    )
}

fn path(segments: &[&str]) -> Vec<String> {
    segments.iter().map(|s| s.to_string()).collect()
}

fn pane<'a>(root: &'a Container, segments: &[&str]) -> &'a Container {
    root.get_by_path(path(segments).as_slice()).expect("the pane is in the tree")
}

/// Root, work area and editor area of the three-level scenario; the slot that
/// is filled first is the secondary one.
fn scenario_tree() -> Container {
    let mut root = Container::new_root(0, 0);
    root.add_container(&[], split("WorkArea", false, true, true)).unwrap();
    root.add_container(&[], Container::with_type("Terminal", ContainerType::Terminal(0), false))
        .unwrap();
    let work = path(&["WorkArea"]);
    root.add_container(work.as_slice(), split("EditorArea", true, false, false)).unwrap();
    root.add_container(
        work.as_slice(),
        Container::with_type("ProjectViewer", ContainerType::ProjectViewer(0), true),
    )
    .unwrap();
    let editors = path(&["WorkArea", "EditorArea"]);
    root.add_container(
        editors.as_slice(),
        Container::with_type("Editor1", ContainerType::Editor(1), false),
    )
    .unwrap();
    root.add_container(
        editors.as_slice(),
        Container::with_type("Editor0", ContainerType::Editor(0), false),
    )
    .unwrap();
    root
}

#[test]
fn three_level_layout_with_project_viewer_focused() {
    let mut root = scenario_tree();
    root.set_size(100, 40);
    assert_eq!(root.get_size(), (100, 40));
    assert_eq!(pane(&root, &["Terminal"]).get_size(), (100, 1));
    assert_eq!(pane(&root, &["WorkArea"]).get_size(), (100, 39));
    assert_eq!(pane(&root, &["WorkArea", "ProjectViewer"]).get_size(), (99, 39));
    assert_eq!(pane(&root, &["WorkArea", "EditorArea"]).get_size(), (1, 39));
    assert_eq!(pane(&root, &["WorkArea", "EditorArea", "Editor1"]).get_size(), (1, 13));
    assert_eq!(pane(&root, &["WorkArea", "EditorArea", "Editor0"]).get_size(), (1, 26));
}

#[test]
fn three_level_layout_places_primary_first() {
    let mut root = scenario_tree();
    root.set_size(100, 40);
    assert_eq!(pane(&root, &["Terminal"]).get_location(), (0, 0));
    assert_eq!(pane(&root, &["WorkArea"]).get_location(), (0, 1));
    assert_eq!(pane(&root, &["WorkArea", "ProjectViewer"]).get_location(), (0, 0));
    assert_eq!(pane(&root, &["WorkArea", "EditorArea"]).get_location(), (99, 0));
    assert_eq!(pane(&root, &["WorkArea", "EditorArea", "Editor0"]).get_location(), (0, 0));
    assert_eq!(pane(&root, &["WorkArea", "EditorArea", "Editor1"]).get_location(), (0, 26));
}

#[test]
fn layout_follows_the_focus() {
    let mut root = scenario_tree();
    root.disfocus_path(path(&["WorkArea", "ProjectViewer"]).as_slice());
    root.focus_path(path(&["WorkArea", "EditorArea", "Editor1"]).as_slice());
    root.set_size(100, 40);
    assert_eq!(pane(&root, &["WorkArea"]).get_size(), (100, 39));
    // The editor area is the focused, secondary side of an exclusive split.
    assert_eq!(pane(&root, &["WorkArea", "EditorArea"]).get_size(), (99, 39));
    assert_eq!(pane(&root, &["WorkArea", "ProjectViewer"]).get_size(), (1, 39));
    // Editor1 is the focused, secondary side of a split that is not exclusive.
    assert_eq!(pane(&root, &["WorkArea", "EditorArea", "Editor1"]).get_size(), (99, 26));
    assert_eq!(pane(&root, &["WorkArea", "EditorArea", "Editor0"]).get_size(), (99, 13));
}

#[test]
fn set_size_twice_gives_the_same_geometry() {
    let mut once = scenario_tree();
    once.set_size(83, 27);
    let mut twice = scenario_tree();
    twice.set_size(83, 27);
    twice.set_size(83, 27);
    for p in [
        vec![],
        vec!["Terminal"],
        vec!["WorkArea"],
        vec!["WorkArea", "ProjectViewer"],
        vec!["WorkArea", "EditorArea"],
        vec!["WorkArea", "EditorArea", "Editor0"],
        vec!["WorkArea", "EditorArea", "Editor1"],
    ] {
        assert_eq!(pane(&once, &p).get_size(), pane(&twice, &p).get_size());
        assert_eq!(pane(&once, &p).get_location(), pane(&twice, &p).get_location());
        assert_eq!(pane(&once, &p).focused(), pane(&twice, &p).focused());
    }
}

#[test]
fn shares_of_a_full_split() {
    // exclusive, secondary focused: all but one cell
    assert_eq!(split_shares(40, true, true), (39, 1));
    // exclusive, secondary unfocused: one cell
    assert_eq!(split_shares(40, true, false), (1, 39));
    // not exclusive, secondary focused: two thirds
    assert_eq!(split_shares(100, false, true), (66, 34));
    assert_eq!(split_shares(5, false, true), (3, 2));
    // not exclusive, secondary unfocused: a third
    assert_eq!(split_shares(39, false, false), (13, 26));
    assert_eq!(split_shares(100, false, false), (33, 67));
}

#[test]
fn shares_clamp_to_zero() {
    assert_eq!(split_shares(0, true, true), (0, 0));
    assert_eq!(split_shares(0, true, false), (1, 0));
    assert_eq!(split_shares(1, true, false), (1, 0));
    assert_eq!(split_shares(0, false, true), (0, 0));
    assert_eq!(split_shares(2, false, false), (0, 2));
}

#[test]
fn two_thirds_do_not_overflow() {
    let (share, rest) = split_shares(usize::MAX, false, true);
    assert_eq!(share as u128, (usize::MAX as u128) * 2 / 3);
    assert_eq!(share + rest, usize::MAX);
}

#[test]
fn single_child_gets_the_whole_rectangle() {
    let mut root = Container::new_root(0, 0);
    root.add_container(&[], Container::new("Only")).unwrap();
    root.set_size(30, 12);
    assert_eq!(pane(&root, &["Only"]).get_size(), (30, 12));
    assert_eq!(pane(&root, &["Only"]).get_location(), (0, 0));
}

#[test]
fn framework_clamps_the_width() {
    let mut views = Components::new();
    let mut framework = Framework::new(80, 24);
    framework.set_size(5, 24, &mut views);
    assert_eq!(framework.get_size(), (11, 24));
    assert_eq!(framework.get_container().unwrap().get_size(), (11, 24));
    framework.set_size(11, 3, &mut views);
    assert_eq!(framework.get_size(), (11, 3));
    framework.set_size(12, 0, &mut views);
    assert_eq!(framework.get_size(), (12, 0));
}

#[test]
fn framework_lays_out_the_scenario() {
    let mut views = Components::new();
    let mut framework = Framework::new(100, 40);
    framework.add_container("/", split("WorkArea", false, true, true)).unwrap();
    framework
        .add_container("/", Container::with_type("Terminal", ContainerType::Terminal(0), false))
        .unwrap();
    framework.add_container("/WorkArea", split("EditorArea", true, false, false)).unwrap();
    framework
        .add_container(
            "/WorkArea/",
            Container::with_type("ProjectViewer", ContainerType::ProjectViewer(0), true),
        )
        .unwrap();
    framework
        .add_container(
            "//WorkArea//EditorArea",
            Container::with_type("Editor1", ContainerType::Editor(1), false),
        )
        .unwrap();
    framework
        .add_container(
            "WorkArea/EditorArea",
            Container::with_type("Editor0", ContainerType::Editor(0), false),
        )
        .unwrap();
    framework.set_size(100, 40, &mut views);
    let root = framework.get_container().unwrap();
    assert_eq!(pane(root, &["Terminal"]).get_size(), (100, 1));
    assert_eq!(pane(root, &["WorkArea"]).get_size(), (100, 39));
    assert_eq!(pane(root, &["WorkArea", "ProjectViewer"]).get_size(), (99, 39));
    assert_eq!(pane(root, &["WorkArea", "EditorArea"]).get_size(), (1, 39));
    assert_eq!(pane(root, &["WorkArea", "EditorArea", "Editor1"]).get_size(), (1, 13));
    assert_eq!(pane(root, &["WorkArea", "EditorArea", "Editor0"]).get_size(), (1, 26));
}

#[test]
fn new_root_is_a_focused_exclusive_stack() {
    let root = Container::new_root(7, 9);
    assert_eq!(root.get_name(), "RootContainer");
    assert_eq!(root.get_size(), (7, 9));
    assert_eq!(root.get_location(), (0, 0));
    assert!(root.focused());
    match root.get_type() {
        ContainerType::Father { primary, secondary, vert_layout, all_own } => {
            assert!(primary.is_none());
            assert!(secondary.is_none());
            assert!(*vert_layout);
            assert!(*all_own);
        }
        _ => panic!("the root is a split"),
    }
}

#[test]
fn set_type_lays_out_again() {
    let mut root = Container::new("Late");
    root.set_size(10, 10);
    root.set_type(ContainerType::Father {
        primary: Some(Box::new(Container::new("A"))),
        secondary: Some(Box::new(Container::new("B"))),
        vert_layout: true,
        all_own: false,
    });
    assert_eq!(pane(&root, &["B"]).get_size(), (10, 3));
    assert_eq!(pane(&root, &["A"]).get_size(), (10, 7));
    assert_eq!(pane(&root, &["B"]).get_location(), (0, 7));
}
