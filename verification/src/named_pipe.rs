//! Named mailboxes: a directory of bounded channels through which panes hand
//! each other what they share, without holding on to each other.

use vstd::prelude::*;
use tokio::sync::mpsc::{Receiver, Sender};

verus! {

/// The sending half of a bounded channel.
#[verifier::external_type_specification]
#[verifier::external_body]
#[verifier::reject_recursive_types(T)]
pub struct ExSender<T>(Sender<T>);

/// The receiving half of a bounded channel.
#[verifier::external_type_specification]
#[verifier::external_body]
#[verifier::reject_recursive_types(T)]
pub struct ExReceiver<T>(Receiver<T>);

/// An open file's buffer, named by its place in the table of open files.
#[derive(Clone, Copy, Debug, PartialEq, Eq, Structural)]
pub struct EditingHandle {
    pub index: usize,
}

/// What travels through a mailbox.
#[derive(Clone, Copy, Debug, PartialEq, Eq, Structural)]
pub enum PipeObject {
    /// A file to show.
    Editing(EditingHandle),
    /// A request to move the focus to the pane that reads the mailbox.
    MoveFocus,
}

/// The right to send into one mailbox of a directory.
#[derive(Clone, Copy, Debug, PartialEq, Eq, Structural)]
pub struct SenderHandle {
    pub index: usize,
}

/// The right to receive from one mailbox of a directory.
#[derive(Clone, Copy, Debug, PartialEq, Eq, Structural)]
pub struct ReceiverHandle {
    pub index: usize,
}

/// How many messages a mailbox holds at most.
pub const MAILBOX_CAPACITY: usize = 4;

/// Why a message was not sent.
#[derive(Clone, Copy, Debug, PartialEq, Eq, Structural)]
pub enum MailboxError {
    /// The mailbox holds as many messages as it has room for.
    Full,
    /// The handle names no mailbox of this directory.
    Unknown,
}

/// The messages sent into the channel and not yet received, oldest first.
pub uninterp spec fn receiver_queue(rx: Receiver<PipeObject>) -> Seq<PipeObject>;

/// The number of messages that the channel was made to hold.
pub uninterp spec fn receiver_bound(rx: Receiver<PipeObject>) -> nat;

/// Whether `tx` sends into the channel that `rx` receives from, and that
/// channel is open.
pub uninterp spec fn feeds(tx: Sender<PipeObject>, rx: Receiver<PipeObject>) -> bool;

/// Both halves of one channel.
struct Pipe {
    tx: Sender<PipeObject>,
    rx: Receiver<PipeObject>,
}

/// `tokio::sync::mpsc::channel`: makes an empty channel with room for `bound`
/// messages and returns its two halves, which belong together.
#[verifier::external_body]
fn open_pipe(bound: usize) -> (pipe: Pipe)
    requires
        0 < bound <= usize::MAX / 8,
    ensures
        feeds(pipe.tx, pipe.rx),
        receiver_queue(pipe.rx) == Seq::<PipeObject>::empty(),
        receiver_bound(pipe.rx) == bound,
{
    let (tx, rx) = tokio::sync::mpsc::channel(bound);
    Pipe { tx, rx }
}

/// `Sender::try_send` on the sending half: where the channel has room, the
/// message joins the queue behind all others; where it is full, the queue
/// stays as it is. Tells whether the message was sent.
#[verifier::external_body]
fn pipe_try_send(pipe: &mut Pipe, message: PipeObject) -> (sent: bool)
    requires
        feeds(old(pipe).tx, old(pipe).rx),
    ensures
        feeds(final(pipe).tx, final(pipe).rx),
        receiver_bound(final(pipe).rx) == receiver_bound(old(pipe).rx),
        sent == (receiver_queue(old(pipe).rx).len() < receiver_bound(old(pipe).rx)),
        receiver_queue(final(pipe).rx) == if sent {
            receiver_queue(old(pipe).rx).push(message)
        } else {
            receiver_queue(old(pipe).rx)
        },
{
    pipe.tx.try_send(message).is_ok()
}

/// `Receiver::try_recv` on the receiving half: hands out the oldest message
/// that waits, or nothing where none waits. It never waits itself.
#[verifier::external_body]
fn pipe_try_recv(pipe: &mut Pipe) -> (r: Option<PipeObject>)
    requires
        feeds(old(pipe).tx, old(pipe).rx),
    ensures
        feeds(final(pipe).tx, final(pipe).rx),
        receiver_bound(final(pipe).rx) == receiver_bound(old(pipe).rx),
        r == if receiver_queue(old(pipe).rx).len() > 0 {
            Some(receiver_queue(old(pipe).rx)[0])
        } else {
            None
        },
        receiver_queue(final(pipe).rx) == if receiver_queue(old(pipe).rx).len() > 0 {
            receiver_queue(old(pipe).rx).skip(1)
        } else {
            receiver_queue(old(pipe).rx)
        },
{
    pipe.rx.try_recv().ok()
}

/// A mailbox as contracts see it: its name and the messages that wait in it,
/// oldest first.
pub struct Mailbox {
    pub name: Seq<char>,
    pub queue: Seq<PipeObject>,
}

/// Whether one of `boxes` is called `name`.
pub open spec fn has_mailbox(boxes: Seq<Mailbox>, name: Seq<char>) -> bool {
    exists|i: int| 0 <= i < boxes.len() && #[trigger] boxes[i].name == name
}

/// No two of `boxes` have the same name.
pub open spec fn distinct_names(boxes: Seq<Mailbox>) -> bool {
    forall|i: int, j: int|
        0 <= i < j < boxes.len() ==> #[trigger] boxes[i].name != #[trigger] boxes[j].name
}

/// The directory after a mailbox called `name` was asked for: it is made,
/// empty, where there was none.
pub open spec fn opened(boxes: Seq<Mailbox>, name: Seq<char>) -> Seq<Mailbox> {
    if has_mailbox(boxes, name) {
        boxes
    } else {
        boxes.push(Mailbox { name, queue: Seq::empty() })
    }
}

/// Whether the mailbox at `index` exists and takes one more message.
pub open spec fn has_room(boxes: Seq<Mailbox>, index: int) -> bool {
    0 <= index < boxes.len() && boxes[index].queue.len() < MAILBOX_CAPACITY
}

/// The directory after `message` was put into the mailbox at `index`.
pub open spec fn posted(boxes: Seq<Mailbox>, index: int, message: PipeObject) -> Seq<Mailbox> {
    if has_room(boxes, index) {
        boxes.update(
            index,
            Mailbox { name: boxes[index].name, queue: boxes[index].queue.push(message) },
        )
    } else {
        boxes
    }
}

/// What sending into the mailbox at `index` gives: success, or the reason why
/// the message is not taken.
pub open spec fn send_outcome(boxes: Seq<Mailbox>, index: int) -> Result<(), MailboxError> {
    if !(0 <= index < boxes.len()) {
        Err(MailboxError::Unknown)
    } else if has_room(boxes, index) {
        Ok(())
    } else {
        Err(MailboxError::Full)
    }
}

/// The oldest message in the mailbox at `index`, if there is such a mailbox
/// and it is not empty.
pub open spec fn front(boxes: Seq<Mailbox>, index: int) -> Option<PipeObject> {
    if 0 <= index < boxes.len() && boxes[index].queue.len() > 0 {
        Some(boxes[index].queue[0])
    } else {
        None
    }
}

/// The directory after the oldest message was taken out of the mailbox at
/// `index`.
pub open spec fn polled(boxes: Seq<Mailbox>, index: int) -> Seq<Mailbox> {
    if front(boxes, index) is Some {
        boxes.update(index, Mailbox { name: boxes[index].name, queue: boxes[index].queue.skip(1) })
    } else {
        boxes
    }
}

/// A directory of named mailboxes. A mailbox is made when its name is first
/// asked for, and stays for as long as the directory does.
pub struct NamedPipe {
    names: Vec<String>,
    pipes: Vec<Pipe>,
}

impl View for NamedPipe {
    type V = Seq<Mailbox>;

    closed spec fn view(&self) -> Seq<Mailbox> {
        Seq::new(
            self.names@.len(),
            |i: int| Mailbox { name: self.names@[i]@, queue: receiver_queue(self.pipes@[i].rx) },
        )
    }
}

impl NamedPipe {
    /// Every mailbox has its name and its channel, the channels are whole and
    /// have room for [`MAILBOX_CAPACITY`] messages, and no name occurs twice.
    pub closed spec fn wf(self) -> bool {
        &&& self.names@.len() == self.pipes@.len()
        &&& forall|i: int|
            0 <= i < self.pipes@.len() ==> feeds(
                (#[trigger] self.pipes@[i]).tx,
                self.pipes@[i].rx,
            ) && receiver_bound(self.pipes@[i].rx) == MAILBOX_CAPACITY
                && receiver_queue(self.pipes@[i].rx).len() <= MAILBOX_CAPACITY
        &&& forall|i: int, j: int|
            0 <= i < j < self.names@.len() ==> (#[trigger] self.names@[i])@
                != (#[trigger] self.names@[j])@
    }

    /// In a directory the names are distinct and no mailbox holds more than
    /// it has room for.
    pub proof fn lemma_well_formed(self)
        requires
            self.wf(),
        ensures
            distinct_names(self@),
            forall|i: int|
                0 <= i < self@.len() ==> (#[trigger] self@[i]).queue.len() <= MAILBOX_CAPACITY,
    {
    }

    /// A directory without mailboxes.
    pub fn new() -> (r: NamedPipe)
        ensures
            r.wf(),
            r@ == Seq::<Mailbox>::empty(),
    {
        NamedPipe { names: Vec::new(), pipes: Vec::new() }
    }

    /// The place of the mailbox called `name`, making the mailbox where there
    /// is none.
    fn open(&mut self, name: String) -> (index: usize)
        requires
            old(self).wf(),
        ensures
            final(self).wf(),
            final(self)@ == opened(old(self)@, name@),
            index < final(self)@.len(),
            final(self)@[index as int].name == name@,
    {
        let mut i: usize = 0;
        while i < self.names.len()
            invariant
                i <= self.names@.len(),
                *self == *old(self),
                self.wf(),
                forall|j: int| 0 <= j < i ==> (#[trigger] self.names@[j])@ != name@,
            decreases self.names@.len() - i,
        {
            if self.names[i] == name {
                assert(self@[i as int].name == name@);
                return i;
            }
            i += 1;
        }
        assert(!has_mailbox(self@, name@)) by {
            if has_mailbox(self@, name@) {
                let k = choose|k: int| 0 <= k < self@.len() && #[trigger] self@[k].name == name@;
                assert(self.names@[k]@ == name@);
            }
        }
        let pipe = open_pipe(MAILBOX_CAPACITY);
        self.names.push(name);
        self.pipes.push(pipe);
        assert(self@ =~= opened(old(self)@, name@));
        i
    }

    /// The handle for sending into the mailbox called `name`. The mailbox is
    /// made, empty, where this is the first time that its name is asked for.
    pub fn open_sender(&mut self, name: String) -> (handle: SenderHandle)
        requires
            old(self).wf(),
        ensures
            final(self).wf(),
            final(self)@ == opened(old(self)@, name@),
            handle.index < final(self)@.len(),
            final(self)@[handle.index as int].name == name@,
    {
        SenderHandle { index: self.open(name) }
    }

    /// The handle for receiving from the mailbox called `name`. The mailbox is
    /// made, empty, where this is the first time that its name is asked for.
    pub fn open_receiver(&mut self, name: String) -> (handle: ReceiverHandle)
        requires
            old(self).wf(),
        ensures
            final(self).wf(),
            final(self)@ == opened(old(self)@, name@),
            handle.index < final(self)@.len(),
            final(self)@[handle.index as int].name == name@,
    {
        ReceiverHandle { index: self.open(name) }
    }

    /// Puts `message` into the mailbox of `to`, behind what waits there. A
    /// full mailbox refuses the message and keeps what it has.
    pub fn try_send(&mut self, to: SenderHandle, message: PipeObject) -> (r: Result<
        (),
        MailboxError,
    >)
        requires
            old(self).wf(),
        ensures
            final(self).wf(),
            final(self)@ == posted(old(self)@, to.index as int, message),
            r == send_outcome(old(self)@, to.index as int),
    {
        if to.index >= self.pipes.len() {
            return Err(MailboxError::Unknown);
        }
        let sent = pipe_try_send(&mut self.pipes[to.index], message);
        assert(self@ =~= posted(old(self)@, to.index as int, message));
        if sent {
            Ok(())
        } else {
            Err(MailboxError::Full)
        }
    }

    /// Takes the oldest message out of the mailbox of `from`, if one waits
    /// there. Never waits itself.
    pub fn try_recv(&mut self, from: ReceiverHandle) -> (r: Option<PipeObject>)
        requires
            old(self).wf(),
        ensures
            final(self).wf(),
            r == front(old(self)@, from.index as int),
            final(self)@ == polled(old(self)@, from.index as int),
    {
        if from.index >= self.pipes.len() {
            return None;
        }
        let r = pipe_try_recv(&mut self.pipes[from.index]);
        assert(self@ =~= polled(old(self)@, from.index as int));
        r
    }
}

/// Asking for a mailbox by a name that the directory has changes nothing, and
/// after asking once the directory has the name: asking is idempotent.
pub proof fn lemma_open_twice(boxes: Seq<Mailbox>, name: Seq<char>)
    ensures
        has_mailbox(opened(boxes, name), name),
        opened(opened(boxes, name), name) == opened(boxes, name),
        distinct_names(boxes) ==> distinct_names(opened(boxes, name)),
{
    if !has_mailbox(boxes, name) {
        let after = boxes.push(Mailbox { name, queue: Seq::empty() });
        assert(after[boxes.len() as int].name == name);
    }
}

/// Opening, sending and receiving leave every mailbox its name and its
/// place, so a handle stays good for as long as the directory lives.
pub proof fn lemma_names_stay(
    boxes: Seq<Mailbox>,
    name: Seq<char>,
    index: int,
    message: PipeObject,
    place: int,
)
    requires
        0 <= place < boxes.len(),
    ensures
        opened(boxes, name).len() >= boxes.len(),
        opened(boxes, name)[place] == boxes[place],
        posted(boxes, index, message).len() == boxes.len(),
        posted(boxes, index, message)[place].name == boxes[place].name,
        polled(boxes, index).len() == boxes.len(),
        polled(boxes, index)[place].name == boxes[place].name,
{
}

/// The sender and the receiver that were opened under one name are a
/// connected pair, in whichever order they were opened: both name the same
/// mailbox, and what is sent into the empty mailbox is what the receiver
/// finds there next.
pub proof fn lemma_connected_pair(
    boxes: Seq<Mailbox>,
    name: Seq<char>,
    sender: SenderHandle,
    receiver: ReceiverHandle,
    message: PipeObject,
)
    requires
        distinct_names(boxes),
        sender.index < boxes.len(),
        receiver.index < boxes.len(),
        boxes[sender.index as int].name == name,
        boxes[receiver.index as int].name == name,
    ensures
        sender.index == receiver.index,
        boxes[sender.index as int].queue.len() == 0 ==> front(
            posted(boxes, sender.index as int, message),
            receiver.index as int,
        ) == Some(message),
        has_room(boxes, sender.index as int) ==> posted(
            boxes,
            sender.index as int,
            message,
        )[receiver.index as int].queue == boxes[receiver.index as int].queue.push(message),
{
    if sender.index < receiver.index {
        assert(boxes[sender.index as int].name != boxes[receiver.index as int].name);
    }
    if receiver.index < sender.index {
        assert(boxes[receiver.index as int].name != boxes[sender.index as int].name);
    }
}

/// A mailbox is a queue: messages are received in the order in which they
/// were sent.
pub proof fn lemma_first_in_first_out(
    boxes: Seq<Mailbox>,
    index: int,
    first: PipeObject,
    second: PipeObject,
)
    requires
        0 <= index < boxes.len(),
        boxes[index].queue.len() == 0,
    ensures
        ({
            let sent = posted(posted(boxes, index, first), index, second);
            &&& front(sent, index) == Some(first)
            &&& front(polled(sent, index), index) == Some(second)
            &&& front(polled(polled(sent, index), index), index) is None
        }),
{
    let one = posted(boxes, index, first);
    assert(one[index].queue =~= seq![first]);
    let two = posted(one, index, second);
    assert(two[index].queue =~= seq![first, second]);
    assert(polled(two, index)[index].queue =~= seq![second]);
    assert(polled(polled(two, index), index)[index].queue =~= Seq::<PipeObject>::empty());
}

} // verus!
