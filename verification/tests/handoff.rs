use termide::components::editor::{Buffers, Scroll};
use termide::components::project_viewer::{Path, PathType, ProjectViewer};
use termide::named_pipe::{EditingHandle, MailboxError, NamedPipe, PipeObject};

fn names(segments: &[&str]) -> Vec<String> {
    segments.iter().map(|s| s.to_string()).collect()
}

struct Desk {
    pipes: NamedPipe,
    files: Buffers,
    viewer: ProjectViewer,
}

fn desk() -> Desk {
    let mut pipes = NamedPipe::new();
    let viewer = ProjectViewer::new("/proj".to_string(), Vec::new(), &mut pipes);
    Desk { pipes, files: Buffers::new(), viewer }
}

impl Desk {
    fn open(&mut self, name: &str) -> termide::components::project_viewer::HandOff {
        self.viewer.open_file(names(&[name]), &mut self.pipes, &mut self.files)
    }

    fn poll(&mut self, mailbox: &str) -> Option<PipeObject> {
        let rx = self.pipes.open_receiver(mailbox.to_string());
        self.pipes.try_recv(rx)
    }
}

#[test]
fn open_a_then_b_then_a_again() {
    let mut d = desk();

    let first = d.open("a.txt");
    assert!(first.fresh);
    let a = first.buffer;
    assert_eq!(d.poll("FileOpen0"), Some(PipeObject::Editing(a)));
    assert_eq!(d.poll("FileOpen1"), None);
    assert_eq!(d.files.get(a).unwrap().path(), &names(&["a.txt"]));

    let second = d.open("b.txt");
    assert!(second.fresh);
    let b = second.buffer;
    assert_ne!(a, b);
    assert_eq!(d.poll("FileOpen1"), Some(PipeObject::Editing(a)));
    assert_eq!(d.poll("FileOpen0"), Some(PipeObject::Editing(b)));
    assert_eq!(d.files.get(b).unwrap().path(), &names(&["b.txt"]));

    // Some state of the buffer of a.txt that a fresh buffer would not have.
    d.files.scroll(a, Scroll::Right);
    assert_eq!(d.files.get(a).unwrap().get_line_start(), 2);

    let third = d.open("a.txt");
    assert!(!third.fresh);
    assert_eq!(third.buffer, a);
    assert_eq!(d.files.len(), 2);
    assert_eq!(d.poll("FileOpen0"), Some(PipeObject::Editing(a)));
    assert_eq!(d.poll("FileOpen1"), Some(PipeObject::Editing(b)));
    assert_eq!(d.files.get(a).unwrap().get_line_start(), 2);
    assert_eq!(d.viewer.get_editor_stack(), &vec![b, a]);
}

#[test]
fn first_open_evicts_nothing() {
    let mut d = desk();
    let r = d.open("a.txt");
    assert_eq!(r.buffer, EditingHandle { index: 0 });
    assert_eq!(r.evicted, Ok(()));
    assert_eq!(r.shown, Ok(()));
    assert_eq!(r.focus, Ok(()));
    assert_eq!(d.poll("FileOpen1"), None);
    assert_eq!(d.viewer.get_editor_stack(), &vec![r.buffer]);
}

#[test]
fn reopening_the_shown_file_sends_it_again() {
    let mut d = desk();
    let a = d.open("a.txt").buffer;
    let again = d.open("a.txt");
    assert!(!again.fresh);
    assert_eq!(again.buffer, a);
    assert_eq!(d.viewer.get_editor_stack(), &vec![a]);
    assert_eq!(d.poll("FileOpen0"), Some(PipeObject::Editing(a)));
    assert_eq!(d.poll("FileOpen0"), Some(PipeObject::Editing(a)));
    assert_eq!(d.poll("FileOpen1"), None);
}

#[test]
fn most_recent_file_is_at_the_tail() {
    let mut d = desk();
    let a = d.open("a.txt").buffer;
    let b = d.open("b.txt").buffer;
    let c = d.open("c.txt").buffer;
    assert_eq!(d.viewer.get_editor_stack(), &vec![a, b, c]);
    d.open("b.txt");
    assert_eq!(d.viewer.get_editor_stack(), &vec![a, c, b]);
    d.open("a.txt");
    assert_eq!(d.viewer.get_editor_stack(), &vec![c, b, a]);
    assert_eq!(d.files.len(), 3);
}

#[test]
fn every_open_asks_for_the_focus() {
    let mut d = desk();
    d.open("a.txt");
    d.open("b.txt");
    assert_eq!(d.poll("MoveFocusToEditor"), Some(PipeObject::MoveFocus));
    assert_eq!(d.poll("MoveFocusToEditor"), Some(PipeObject::MoveFocus));
    assert_eq!(d.poll("MoveFocusToEditor"), None);
}

#[test]
fn full_mailbox_is_reported_not_fatal() {
    let mut d = desk();
    for name in ["a", "b", "c", "d"] {
        let r = d.open(name);
        assert_eq!(r.shown, Ok(()));
        assert_eq!(r.focus, Ok(()));
    }
    // Nobody has received anything: the mailboxes of the first editor and of
    // the focus requests are full, that of the second editor has room left.
    let fifth = d.open("e");
    assert!(fifth.fresh);
    assert_eq!(fifth.evicted, Ok(()));
    assert_eq!(fifth.shown, Err(MailboxError::Full));
    assert_eq!(fifth.focus, Err(MailboxError::Full));
    let sixth = d.open("f");
    assert_eq!(sixth.evicted, Err(MailboxError::Full));
    // The list of opened files is kept all the same.
    assert_eq!(d.viewer.get_editor_stack().len(), 6);
    assert_eq!(d.viewer.get_editor_stack().last(), Some(&sixth.buffer));
    // The new messages were dropped, the old ones wait in order.
    assert_eq!(d.poll("FileOpen0"), Some(PipeObject::Editing(EditingHandle { index: 0 })));
    assert_eq!(d.poll("FileOpen1"), Some(PipeObject::Editing(EditingHandle { index: 0 })));
}

#[test]
fn viewer_opens_its_three_mailboxes() {
    let mut pipes = NamedPipe::new();
    let viewer = ProjectViewer::new("/p".to_string(), Vec::new(), &mut pipes);
    let senders = viewer.get_file_open_sender();
    assert_eq!(pipes.open_receiver("FileOpen0".to_string()).index, senders[0].index);
    assert_eq!(pipes.open_receiver("FileOpen1".to_string()).index, senders[1].index);
    assert_eq!(
        pipes.open_receiver("MoveFocusToEditor".to_string()).index,
        viewer.get_move_focus_sender().index
    );
}

#[test]
fn files_are_told_apart_by_their_whole_path() {
    let mut d = desk();
    let one = d.viewer.open_file(names(&["src", "main.rs"]), &mut d.pipes, &mut d.files);
    let two = d.viewer.open_file(names(&["tests", "main.rs"]), &mut d.pipes, &mut d.files);
    assert!(two.fresh);
    assert_ne!(one.buffer, two.buffer);
    let again = d.viewer.open_file(names(&["src", "main.rs"]), &mut d.pipes, &mut d.files);
    assert!(!again.fresh);
    assert_eq!(again.buffer, one.buffer);
}

#[test]
fn entries_can_be_built_by_hand() {
    let entry = Path {
        name: "a.txt".to_string(),
        ptype: PathType::File,
        unfolded: false,
        children: Vec::new(),
    };
    let mut pipes = NamedPipe::new();
    let viewer = ProjectViewer::new("/proj".to_string(), vec![entry], &mut pipes);
    assert_eq!(viewer.get_filesystem().get_entries().len(), 1);
    assert_eq!(viewer.get_at_line(), 0);
}
