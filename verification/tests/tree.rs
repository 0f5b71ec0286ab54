use termide::ui::container::{Container, ContainerType, InsertError};

fn path(segments: &[&str]) -> Vec<String> {
    segments.iter().map(|s| s.to_string()).collect()
}

fn split(name: &str) -> Container {
    Container::with_type(
        name,
        ContainerType::Father { primary: None, secondary: None, vert_layout: true, all_own: true },
        false,
    )
}

fn names(c: &Container) -> (Option<String>, Option<String>) {
    match c.get_type() {
        ContainerType::Father { primary, secondary, .. } => (
            primary.as_ref().map(|p| p.get_name().clone()),
            secondary.as_ref().map(|s| s.get_name().clone()),
        ),
        _ => (None, None),
    }
}

/// Everything that can be seen of a tree, pane by pane.
fn snapshot(c: &Container) -> Vec<(String, (usize, usize), (usize, usize), bool, u8)> {
    let mut out = Vec::new();
    let tag = match c.get_type() {
        ContainerType::Father { .. } => 0,
        ContainerType::ProjectViewer(_) => 1,
        ContainerType::Terminal(_) => 2,
        ContainerType::Editor(_) => 3,
        ContainerType::Empty => 4,
    };
    out.push((c.get_name().clone(), c.get_location(), c.get_size(), c.focused(), tag));
    if let ContainerType::Father { primary, secondary, .. } = c.get_type() {
        if let Some(p) = primary {
            out.extend(snapshot(p));
        }
        if let Some(s) = secondary {
            out.extend(snapshot(s));
        }
    }
    out
}

#[test]
fn insert_fills_the_secondary_slot_first() {
    let mut root = Container::new_root(10, 10);
    assert_eq!(root.add_container(&[], Container::new("First")), Ok(()));
    assert_eq!(names(&root), (None, Some("First".to_string())));
    assert_eq!(root.add_container(&[], Container::new("Second")), Ok(()));
    assert_eq!(names(&root), (Some("Second".to_string()), Some("First".to_string())));
}

#[test]
fn insert_into_full_split_fails_and_changes_nothing() {
    let mut root = Container::new_root(10, 10);
    root.add_container(&[], split("A")).unwrap();
    root.add_container(&[], Container::new("B")).unwrap();
    root.set_size(10, 10);
    let before = snapshot(&root);
    assert_eq!(root.add_container(&[], Container::new("C")), Err(InsertError::SlotsFull));
    assert_eq!(snapshot(&root), before);
}

#[test]
fn insert_into_full_split_below_the_root_fails_and_changes_nothing() {
    let mut root = Container::new_root(10, 10);
    root.add_container(&[], split("A")).unwrap();
    let a = path(&["A"]);
    root.add_container(a.as_slice(), Container::new("X")).unwrap();
    root.add_container(a.as_slice(), Container::new("Y")).unwrap();
    let before = snapshot(&root);
    assert_eq!(root.add_container(a.as_slice(), Container::new("Z")), Err(InsertError::SlotsFull));
    assert_eq!(snapshot(&root), before);
}

#[test]
fn insert_under_unknown_name_is_path_not_found() {
    let mut root = Container::new_root(10, 10);
    root.add_container(&[], split("A")).unwrap();
    let before = snapshot(&root);
    assert_eq!(
        root.add_container(path(&["Nowhere"]).as_slice(), Container::new("X")),
        Err(InsertError::PathNotFound)
    );
    assert_eq!(
        root.add_container(path(&["A", "Nowhere"]).as_slice(), Container::new("X")),
        Err(InsertError::PathNotFound)
    );
    assert_eq!(snapshot(&root), before);
}

#[test]
fn insert_under_a_split_that_is_only_in_the_secondary_slot() {
    let mut root = Container::new_root(10, 10);
    root.add_container(&[], split("A")).unwrap();
    assert_eq!(root.add_container(path(&["A"]).as_slice(), Container::new("X")), Ok(()));
    let a = root.get_by_path(path(&["A"]).as_slice()).unwrap();
    assert_eq!(names(a), (None, Some("X".to_string())));
}

#[test]
fn insert_into_a_leaf_is_not_a_split() {
    let mut root = Container::new_root(10, 10);
    root.add_container(&[], Container::with_type("T", ContainerType::Terminal(0), false)).unwrap();
    root.add_container(&[], Container::new("E")).unwrap();
    let before = snapshot(&root);
    assert_eq!(
        root.add_container(path(&["T"]).as_slice(), Container::new("X")),
        Err(InsertError::NotASplit)
    );
    assert_eq!(
        root.add_container(path(&["E"]).as_slice(), Container::new("X")),
        Err(InsertError::NotASplit)
    );
    assert_eq!(
        root.add_container(path(&["T", "deeper"]).as_slice(), Container::new("X")),
        Err(InsertError::NotASplit)
    );
    assert_eq!(snapshot(&root), before);
    let mut leaf = Container::new("Leaf");
    assert_eq!(leaf.add_container(&[], Container::new("X")), Err(InsertError::NotASplit));
}

#[test]
fn names_are_compared_exactly() {
    let mut root = Container::new_root(10, 10);
    root.add_container(&[], split("Area")).unwrap();
    assert_eq!(
        root.add_container(path(&["area"]).as_slice(), Container::new("X")),
        Err(InsertError::PathNotFound)
    );
    assert_eq!(
        root.add_container(path(&["Area "]).as_slice(), Container::new("X")),
        Err(InsertError::PathNotFound)
    );
    assert!(root.get_by_path(path(&["area"]).as_slice()).is_none());
    assert!(root.get_by_path(path(&["Area"]).as_slice()).is_some());
}

#[test]
fn new_pane_is_empty_and_unfocused() {
    let c = Container::new("Pane");
    assert_eq!(c.get_name(), "Pane");
    assert_eq!(c.get_size(), (0, 0));
    assert_eq!(c.get_location(), (0, 0));
    assert!(!c.focused());
    assert!(matches!(c.get_type(), ContainerType::Empty));
}

#[test]
fn focus_path_marks_the_way() {
    let mut root = Container::new_root(10, 10);
    root.disfocus_path(&[]);
    root.add_container(&[], split("A")).unwrap();
    root.add_container(&[], split("B")).unwrap();
    root.add_container(path(&["A"]).as_slice(), Container::new("X")).unwrap();
    root.add_container(path(&["A"]).as_slice(), Container::new("Y")).unwrap();
    root.focus_path(path(&["A", "Y"]).as_slice());
    let focused: Vec<String> =
        snapshot(&root).into_iter().filter(|p| p.3).map(|p| p.0).collect();
    assert_eq!(focused, vec!["RootContainer".to_string(), "A".to_string(), "Y".to_string()]);
    root.disfocus_path(path(&["A", "Y"]).as_slice());
    assert!(snapshot(&root).into_iter().all(|p| !p.3));
}

#[test]
fn focus_path_stops_where_the_path_ends_or_leads_nowhere() {
    let mut root = Container::new_root(10, 10);
    root.disfocus_path(&[]);
    root.add_container(&[], split("A")).unwrap();
    root.add_container(path(&["A"]).as_slice(), Container::new("X")).unwrap();
    // The path ends at a split that has panes of its own.
    root.focus_path(path(&["A"]).as_slice());
    let focused: Vec<String> =
        snapshot(&root).into_iter().filter(|p| p.3).map(|p| p.0).collect();
    assert_eq!(focused, vec!["RootContainer".to_string(), "A".to_string()]);
    root.disfocus_path(path(&["A"]).as_slice());
    // The path names a pane that is not there.
    root.focus_path(path(&["Nowhere", "X"]).as_slice());
    let focused: Vec<String> =
        snapshot(&root).into_iter().filter(|p| p.3).map(|p| p.0).collect();
    assert_eq!(focused, vec!["RootContainer".to_string()]);
}

#[test]
fn focus_sets_the_flag_of_one_pane() {
    let mut c = Container::new("Pane");
    c.focus();
    assert!(c.focused());
}

#[test]
fn set_location_moves_the_pane_only() {
    let mut c = Container::new("Pane");
    c.set_size(4, 5);
    c.set_location(7, 9);
    assert_eq!(c.get_location(), (7, 9));
    assert_eq!(c.get_size(), (4, 5));
}

#[test]
fn get_by_path_finds_panes() {
    let mut root = Container::new_root(10, 10);
    root.add_container(&[], split("A")).unwrap();
    root.add_container(path(&["A"]).as_slice(), Container::new("X")).unwrap();
    assert_eq!(root.get_by_path(&[]).unwrap().get_name(), "RootContainer");
    assert_eq!(root.get_by_path(path(&["A", "X"]).as_slice()).unwrap().get_name(), "X");
    assert!(root.get_by_path(path(&["A", "X", "Y"]).as_slice()).is_none());
    assert!(root.get_by_path(path(&["X"]).as_slice()).is_none());
}
