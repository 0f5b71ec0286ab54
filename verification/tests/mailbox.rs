use termide::named_pipe::{
    EditingHandle, MailboxError, NamedPipe, PipeObject, ReceiverHandle, SenderHandle,
    MAILBOX_CAPACITY,
};

fn file(index: usize) -> PipeObject {
    PipeObject::Editing(EditingHandle { index })
}

#[test]
fn sender_then_receiver_are_connected() {
    let mut pipes = NamedPipe::new();
    let tx = pipes.open_sender("X".to_string());
    let rx = pipes.open_receiver("X".to_string());
    assert_eq!(tx.index, rx.index);
    assert_eq!(pipes.try_send(tx, file(7)), Ok(()));
    assert_eq!(pipes.try_recv(rx), Some(file(7)));
    assert_eq!(pipes.try_recv(rx), None);
}

#[test]
fn receiver_then_sender_are_connected() {
    let mut pipes = NamedPipe::new();
    let rx = pipes.open_receiver("X".to_string());
    let other = pipes.open_sender("Y".to_string());
    let tx = pipes.open_sender("X".to_string());
    assert_eq!(tx.index, rx.index);
    assert_ne!(other.index, tx.index);
    assert_eq!(pipes.try_send(tx, PipeObject::MoveFocus), Ok(()));
    assert_eq!(pipes.try_recv(ReceiverHandle { index: other.index }), None);
    assert_eq!(pipes.try_recv(rx), Some(PipeObject::MoveFocus));
}

#[test]
fn opening_is_idempotent() {
    let mut pipes = NamedPipe::new();
    let a = pipes.open_sender("A".to_string());
    let b = pipes.open_sender("B".to_string());
    assert_eq!(pipes.open_sender("A".to_string()), a);
    assert_eq!(pipes.open_sender("B".to_string()), b);
    assert_eq!(pipes.open_receiver("A".to_string()).index, a.index);
    // Opening again does not empty the mailbox.
    pipes.try_send(a, file(1)).unwrap();
    let again = pipes.open_receiver("A".to_string());
    assert_eq!(pipes.try_recv(again), Some(file(1)));
}

#[test]
fn names_are_plain_strings() {
    let mut pipes = NamedPipe::new();
    let a = pipes.open_sender("FileOpen0".to_string());
    let b = pipes.open_sender("fileopen0".to_string());
    let c = pipes.open_sender("".to_string());
    assert_ne!(a, b);
    assert_ne!(a, c);
    assert_ne!(b, c);
}

#[test]
fn mailbox_holds_four_messages() {
    assert_eq!(MAILBOX_CAPACITY, 4);
    let mut pipes = NamedPipe::new();
    let tx = pipes.open_sender("X".to_string());
    let rx = pipes.open_receiver("X".to_string());
    for i in 0..4 {
        assert_eq!(pipes.try_send(tx, file(i)), Ok(()));
    }
    assert_eq!(pipes.try_send(tx, file(4)), Err(MailboxError::Full));
    assert_eq!(pipes.try_send(tx, file(5)), Err(MailboxError::Full));
    // A full mailbox keeps what it has, in order.
    for i in 0..4 {
        assert_eq!(pipes.try_recv(rx), Some(file(i)));
    }
    assert_eq!(pipes.try_recv(rx), None);
}

#[test]
fn receiving_makes_room() {
    let mut pipes = NamedPipe::new();
    let tx = pipes.open_sender("X".to_string());
    let rx = pipes.open_receiver("X".to_string());
    for i in 0..4 {
        pipes.try_send(tx, file(i)).unwrap();
    }
    assert_eq!(pipes.try_recv(rx), Some(file(0)));
    assert_eq!(pipes.try_send(tx, file(9)), Ok(()));
    assert_eq!(pipes.try_send(tx, file(10)), Err(MailboxError::Full));
    assert_eq!(pipes.try_recv(rx), Some(file(1)));
    assert_eq!(pipes.try_recv(rx), Some(file(2)));
    assert_eq!(pipes.try_recv(rx), Some(file(3)));
    assert_eq!(pipes.try_recv(rx), Some(file(9)));
    assert_eq!(pipes.try_recv(rx), None);
}

#[test]
fn one_poll_takes_the_oldest_message() {
    let mut pipes = NamedPipe::new();
    let tx = pipes.open_sender("X".to_string());
    let rx = pipes.open_receiver("X".to_string());
    pipes.try_send(tx, file(1)).unwrap();
    pipes.try_send(tx, file(2)).unwrap();
    // One poll sees the message sent first, not the one sent last.
    assert_eq!(pipes.try_recv(rx), Some(file(1)));
}

#[test]
fn mailboxes_do_not_mix() {
    let mut pipes = NamedPipe::new();
    let a = pipes.open_sender("A".to_string());
    let b = pipes.open_sender("B".to_string());
    pipes.try_send(a, file(1)).unwrap();
    pipes.try_send(b, file(2)).unwrap();
    assert_eq!(pipes.try_recv(ReceiverHandle { index: b.index }), Some(file(2)));
    assert_eq!(pipes.try_recv(ReceiverHandle { index: a.index }), Some(file(1)));
}

#[test]
fn unknown_handles_are_harmless() {
    let mut pipes = NamedPipe::new();
    assert_eq!(pipes.try_send(SenderHandle { index: 0 }, file(1)), Err(MailboxError::Unknown));
    assert_eq!(pipes.try_recv(ReceiverHandle { index: 3 }), None);
    let tx = pipes.open_sender("X".to_string());
    assert_eq!(
        pipes.try_send(SenderHandle { index: tx.index + 1 }, file(1)),
        Err(MailboxError::Unknown)
    );
    assert_eq!(pipes.try_recv(ReceiverHandle { index: tx.index }), None);
}

#[test]
fn registries_are_independent() {
    let mut one = NamedPipe::new();
    let mut two = NamedPipe::new();
    let a = one.open_sender("X".to_string());
    let b = two.open_receiver("X".to_string());
    one.try_send(a, file(1)).unwrap();
    assert_eq!(two.try_recv(b), None);
}
