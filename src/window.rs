//! Window commands: the host operations each one performs, the order in which
//! they run, and how the first failure ends a command.

use vstd::prelude::*;
use crate::failure::CommandFailure;

verus! {

/// The label of the shell's main window.
pub const MAIN_WINDOW_LABEL: &'static str = "main";

/// The title given to the main window at start-up.
pub const MAIN_WINDOW_TITLE: &'static str = "NYX OS";

/// The page that a new native window loads from the application bundle.
pub const NATIVE_WINDOW_PAGE: &'static str = "index.html";

/// The event sent to the frontend once a native window has been built.
pub const WINDOW_CREATED_EVENT: &'static str = "nyx:native-window-created";

/// One host operation on a window.
#[derive(Clone, Copy, Debug, PartialEq, Eq, Structural)]
pub enum WindowOp {
    Show,
    Hide,
    Focus,
    Close,
    Minimize,
    Maximize,
    SetAlwaysOnTop(bool),
    SetFullscreen(bool),
}

/// Bringing a window forward: show it, then give it the focus.
pub fn focus_ops() -> (r: Vec<WindowOp>)
    ensures
        r@ == seq![WindowOp::Show, WindowOp::Focus],
{
    let mut ops: Vec<WindowOp> = Vec::new();
    ops.push(WindowOp::Show);
    ops.push(WindowOp::Focus);
    proof {
        assert(ops@ =~= seq![WindowOp::Show, WindowOp::Focus]);
    }
    ops
}

/// Closing a window: the single close operation.
pub fn close_ops() -> (r: Vec<WindowOp>)
    ensures
        r@ == seq![WindowOp::Close],
{
    let mut ops: Vec<WindowOp> = Vec::new();
    ops.push(WindowOp::Close);
    proof {
        assert(ops@ =~= seq![WindowOp::Close]);
    }
    ops
}

/// What a command on a labelled window does next.
#[derive(Debug)]
pub enum Step {
    /// Perform this operation on the window and report how it went.
    Perform(WindowOp),
    /// The command is over, with this outcome.
    Done(Result<(), CommandFailure>),
}

/// The step that follows, for a command that runs `ops` in order on the window
/// with the requested label. `found` tells whether that window exists, `done`
/// how many operations have succeeded so far, and `failed` holds the host's
/// description when the operation just performed failed. A missing window
/// ends the command at once; the first failure ends it with that failure;
/// otherwise the operations run one after another and the command succeeds
/// when none is left.
pub fn next_step(found: bool, ops: &Vec<WindowOp>, done: usize, failed: Option<String>) -> (r: Step)
    requires
        done <= ops.len(),
    ensures
        !found ==> r == Step::Done(Err(CommandFailure::WindowNotFound)),
        found && failed is Some ==> r == Step::Done(Err(CommandFailure::Host(failed->0))),
        found && failed is None && done < ops.len() ==> r == Step::Perform(ops[done as int]),
        found && failed is None && done == ops.len() ==> r == Step::Done(Ok(())),
{
    if !found {
        return Step::Done(Err(CommandFailure::WindowNotFound));
    }
    match failed {
        Some(d) => Step::Done(Err(CommandFailure::Host(d))),
        None => {
            if done < ops.len() {
                Step::Perform(ops[done])
            } else {
                Step::Done(Ok(()))
            }
        },
    }
}

/// The stages of creating a native window, in the order they run.
#[derive(Clone, Copy, Debug, PartialEq, Eq, Structural)]
pub enum CreationStage {
    /// Build the window from its plan.
    Build,
    /// Send the event announcing the new window.
    Announce,
}

/// The number of stages in creating a native window.
pub const CREATION_STAGES: usize = 2;

/// The stage at position `i` of window creation.
pub open spec fn creation_stage_at(i: int) -> CreationStage {
    if i == 0 { CreationStage::Build } else { CreationStage::Announce }
}

/// The failure reported when the stage at position `i` fails with the host's
/// description `d`: building reports a creation failure, announcing passes the
/// host's description on.
pub open spec fn creation_failure_at(i: int, d: String) -> CommandFailure {
    if i == 0 { CommandFailure::CreateWindow(d) } else { CommandFailure::Host(d) }
}

/// What creating a native window does next.
#[derive(Debug)]
pub enum CreationStep {
    /// Carry out this stage and report how it went.
    Perform(CreationStage),
    /// Creation is over, with this outcome.
    Done(Result<(), CommandFailure>),
}

/// The step that follows in creating a native window: the window is built,
/// then announced. `done` tells how many stages have succeeded, and `failed`
/// holds the host's description when the stage just performed (the one at
/// position `done`) failed. The first failure ends creation; after both
/// stages it has succeeded.
pub fn next_creation_step(done: usize, failed: Option<String>) -> (r: CreationStep)
    requires
        done <= CREATION_STAGES,
        failed is Some ==> done < CREATION_STAGES,
    ensures
        failed is Some ==> r == CreationStep::Done(Err(creation_failure_at(done as int, failed->0))),
        failed is None && done < CREATION_STAGES ==> r == CreationStep::Perform(creation_stage_at(done as int)),
        failed is None && done == CREATION_STAGES ==> r == CreationStep::Done(Ok(())),
{
    match failed {
        Some(d) => {
            if done == 0 {
                CreationStep::Done(Err(CommandFailure::CreateWindow(d)))
            } else {
                CreationStep::Done(Err(CommandFailure::Host(d)))
            }
        },
        None => {
            if done == 0 {
                CreationStep::Perform(CreationStage::Build)
            } else if done == 1 {
                CreationStep::Perform(CreationStage::Announce)
            } else {
                CreationStep::Done(Ok(()))
            }
        },
    }
}

/// How a new native window is built: its label and title as requested, the
/// bundle's page, visible, sized only when both a width and a height were
/// given, and the event announcing it.
#[derive(Debug)]
pub struct NativeWindowPlan {
    pub label: String,
    pub title: String,
    pub page: String,
    pub visible: bool,
    pub sized: bool,
    pub created_event: String,
}

/// The plan for a native window with this label and title; `width_given` and
/// `height_given` tell which dimensions the caller supplied.
pub fn native_window_plan(label: String, title: String, width_given: bool, height_given: bool) -> (r: NativeWindowPlan)
    ensures
        r.label == label,
        r.title == title,
        r.page@ == NATIVE_WINDOW_PAGE@,
        r.visible,
        r.sized == (width_given && height_given),
        r.created_event@ == WINDOW_CREATED_EVENT@,
{
    NativeWindowPlan {
        label,
        title,
        page: String::from_str(NATIVE_WINDOW_PAGE),
        visible: true,
        sized: width_given && height_given,
        created_event: String::from_str(WINDOW_CREATED_EVENT),
    }
}

} // verus!
