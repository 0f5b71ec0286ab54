//! What holds of handing files to the editors, whatever was opened before.

use vstd::prelude::*;
use crate::components::editor::EditingView;
use crate::components::project_viewer::{first_open, ProjectViewerView};
use crate::named_pipe::{has_room, EditingHandle, Mailbox, PipeObject};

verus! {

/// The buffer found for a path is one of the opened ones and holds the file
/// at that path, and none of those opened before it does.
pub proof fn lemma_first_open_is_first(
    stack: Seq<EditingHandle>,
    files: Seq<EditingView>,
    path: Seq<Seq<char>>,
)
    ensures
        match first_open(stack, files, path) {
            Some(i) => {
                &&& 0 <= i < stack.len()
                &&& stack[i].index < files.len()
                &&& files[stack[i].index as int].path == path
                &&& forall|j: int|
                    0 <= j < i ==> !((#[trigger] stack[j]).index < files.len()
                        && files[stack[j].index as int].path == path)
            },
            None => forall|j: int|
                0 <= j < stack.len() ==> !((#[trigger] stack[j]).index < files.len()
                    && files[stack[j].index as int].path == path),
        },
    decreases stack.len(),
{
    if stack.len() > 0 {
        lemma_first_open_is_first(stack.skip(1), files, path);
        if !(stack[0].index < files.len() && files[stack[0].index as int].path == path) {
            match first_open(stack.skip(1), files, path) {
                Some(i) => {
                    assert forall|j: int| 0 <= j < i + 1 implies !((#[trigger] stack[j]).index
                        < files.len() && files[stack[j].index as int].path == path) by {
                        if j > 0 {
                            assert(stack.skip(1)[j - 1] == stack[j]);
                        }
                    }
                },
                None => {
                    assert forall|j: int| 0 <= j < stack.len() implies !((#[trigger] stack[j]).index
                        < files.len() && files[stack[j].index as int].path == path) by {
                        if j > 0 {
                            assert(stack.skip(1)[j - 1] == stack[j]);
                        }
                    }
                },
            }
        }
    }
}

/// Opening a file that was opened before hands out the buffer that it got
/// then: no buffer is made, the list of opened files keeps its length, and
/// the buffer moves to the end of the list.
pub proof fn lemma_reopen_keeps_buffer(
    viewer: ProjectViewerView,
    path: Seq<Seq<char>>,
    boxes: Seq<Mailbox>,
    files: Seq<EditingView>,
)
    requires
        first_open(viewer.editor_stack, files, path) is Some,
    ensures
        ({
            let i = first_open(viewer.editor_stack, files, path).unwrap();
            let step = viewer.handed_off(path, boxes, files);
            let report = viewer.reported(path, boxes, files);
            &&& 0 <= i < viewer.editor_stack.len()
            &&& files[viewer.editor_stack[i].index as int].path == path
            &&& step.files == files
            &&& !report.fresh
            &&& report.buffer == viewer.editor_stack[i]
            &&& step.viewer.editor_stack.len() == viewer.editor_stack.len()
            &&& step.viewer.editor_stack.last() == viewer.editor_stack[i]
            &&& step.viewer.editor_stack.drop_last() == viewer.editor_stack.remove(i)
        }),
{
    lemma_first_open_is_first(viewer.editor_stack, files, path);
    let i = first_open(viewer.editor_stack, files, path).unwrap();
    let rest = viewer.editor_stack.remove(i);
    assert(rest.push(viewer.editor_stack[i]).drop_last() =~= rest);
}

/// Opening a file that was not opened before makes a buffer for it, behind
/// all others, and puts it at the end of the list of opened files.
pub proof fn lemma_open_makes_buffer(
    viewer: ProjectViewerView,
    path: Seq<Seq<char>>,
    boxes: Seq<Mailbox>,
    files: Seq<EditingView>,
)
    requires
        first_open(viewer.editor_stack, files, path) is None,
        files.len() <= usize::MAX,
    ensures
        ({
            let step = viewer.handed_off(path, boxes, files);
            let report = viewer.reported(path, boxes, files);
            &&& report.fresh
            &&& report.buffer.index == files.len()
            &&& step.files == files.push(EditingView::fresh(path))
            &&& step.files[report.buffer.index as int].path == path
            &&& step.viewer.editor_stack == viewer.editor_stack.push(report.buffer)
        }),
{
}

/// Where the three mailboxes are three and have room, opening a file puts
/// its buffer last into the mailbox of the first editor, the buffer that was
/// opened last before, if there is one, last into the mailbox of the second
/// editor, and a request for the focus last into the third.
pub proof fn lemma_hand_off_sends(
    viewer: ProjectViewerView,
    path: Seq<Seq<char>>,
    boxes: Seq<Mailbox>,
    files: Seq<EditingView>,
)
    requires
        has_room(boxes, viewer.file_open_sender.0.index as int),
        has_room(boxes, viewer.file_open_sender.1.index as int),
        has_room(boxes, viewer.move_focus_sender.index as int),
        viewer.file_open_sender.0.index != viewer.file_open_sender.1.index,
        viewer.file_open_sender.0.index != viewer.move_focus_sender.index,
        viewer.file_open_sender.1.index != viewer.move_focus_sender.index,
    ensures
        ({
            let step = viewer.handed_off(path, boxes, files);
            let report = viewer.reported(path, boxes, files);
            let first = viewer.file_open_sender.0.index as int;
            let second = viewer.file_open_sender.1.index as int;
            let third = viewer.move_focus_sender.index as int;
            let before = step.viewer.editor_stack.drop_last();
            &&& report.shown is Ok
            &&& report.evicted is Ok
            &&& report.focus is Ok
            &&& step.boxes[first].queue == boxes[first].queue.push(
                PipeObject::Editing(report.buffer),
            )
            &&& step.boxes[second].queue == if before.len() > 0 {
                boxes[second].queue.push(PipeObject::Editing(before.last()))
            } else {
                boxes[second].queue
            }
            &&& step.boxes[third].queue == boxes[third].queue.push(PipeObject::MoveFocus)
        }),
{
    let found = first_open(viewer.editor_stack, files, path);
    let chosen = match found {
        Some(i) => viewer.editor_stack[i],
        None => EditingHandle { index: files.len() as usize },
    };
    let rest = match found {
        Some(i) => viewer.editor_stack.remove(i),
        None => viewer.editor_stack,
    };
    assert(rest.push(chosen).drop_last() =~= rest);
}

} // verus!
