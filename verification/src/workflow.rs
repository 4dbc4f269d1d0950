//! The daemon's image operations as machines. Each operation alternates work
//! outside the library (a database query, a `qemu-img` run, a file removal)
//! with decisions; a machine takes the outcome of the work it asked for as an
//! [`Event`] and answers with the next [`Action`], until it finishes.

use vstd::prelude::*;
use vstd::string::*;

use crate::error::{HttpError, HttpErrorView, STATUS_BAD_REQUEST, STATUS_CONFLICT};
use crate::image::{
    CommandOutcome, CommandOutcomeView, NewVmImage, NewVmImageView, QemuImgInfo, QemuImgInfoView,
    VmImageDb, VmImageUpdateDb, VmImageView,
};

verus! {

/// How the background `qemu-img` run of a clone ended.
pub enum CloneOutcome {
    /// The command could not be started; `error` renders why.
    SpawnFailed { error: String },
    /// The command started without a readable output stream.
    NoStdout,
    /// Waiting for the command failed; `error` renders why.
    WaitFailed { error: String },
    /// The command exited; `report` renders its exit status.
    Exited { success: bool, report: String },
}

pub enum CloneOutcomeView {
    SpawnFailed { error: Seq<char> },
    NoStdout,
    WaitFailed { error: Seq<char> },
    Exited { success: bool, report: Seq<char> },
}

impl View for CloneOutcome {
    type V = CloneOutcomeView;

    open spec fn view(&self) -> CloneOutcomeView {
        match self {
            CloneOutcome::SpawnFailed { error } => CloneOutcomeView::SpawnFailed { error: error@ },
            CloneOutcome::NoStdout => CloneOutcomeView::NoStdout,
            CloneOutcome::WaitFailed { error } => CloneOutcomeView::WaitFailed { error: error@ },
            CloneOutcome::Exited { success, report } => CloneOutcomeView::Exited {
                success: *success,
                report: report@,
            },
        }
    }
}

/// How the removal of a file ended: it was removed, there was no such file,
/// or it stays; `error` then renders why. No operation changes its course on
/// it: a failure is only reported to the log.
pub enum RemovalOutcome {
    Removed,
    Missing,
    Failed { error: String },
}

pub enum RemovalOutcomeView {
    Removed,
    Missing,
    Failed { error: Seq<char> },
}

impl View for RemovalOutcome {
    type V = RemovalOutcomeView;

    open spec fn view(&self) -> RemovalOutcomeView {
        match self {
            RemovalOutcome::Removed => RemovalOutcomeView::Removed,
            RemovalOutcome::Missing => RemovalOutcomeView::Missing,
            RemovalOutcome::Failed { error } => RemovalOutcomeView::Failed { error: error@ },
        }
    }
}

/// The outcome of the work that an [`Action`] asked for. Database answers come
/// in two layers: the outer error is a failure to run the query, the inner one
/// the query's own answer (such as "no such image").
pub enum Event {
    /// Answers [`Action::Lookup`].
    Lookup(Result<Result<VmImageDb, HttpError>, HttpError>),
    /// Answers [`Action::FindChildren`] with the number of images derived from it.
    Children(Result<usize, HttpError>),
    /// Answers [`Action::RemoveFile`].
    FileRemoved(RemovalOutcome),
    /// Answers [`Action::DeleteRecord`].
    Deleted(Result<Result<(), HttpError>, HttpError>),
    /// Answers [`Action::RunQemuImg`].
    Command(CommandOutcome),
    /// Answers [`Action::SpawnClone`].
    Cloned(CloneOutcome),
    /// Answers [`Action::ReadInfo`].
    Info(Result<QemuImgInfo, HttpError>),
    /// Answers [`Action::Insert`] and [`Action::Update`] with the stored record.
    Stored(Result<Result<VmImageDb, HttpError>, HttpError>),
}

pub enum EventView {
    Lookup(Result<Result<VmImageView, HttpErrorView>, HttpErrorView>),
    Children(Result<usize, HttpErrorView>),
    FileRemoved(RemovalOutcomeView),
    Deleted(Result<Result<(), HttpErrorView>, HttpErrorView>),
    Command(CommandOutcomeView),
    Cloned(CloneOutcomeView),
    Info(Result<QemuImgInfoView, HttpErrorView>),
    Stored(Result<Result<VmImageView, HttpErrorView>, HttpErrorView>),
}

pub open spec fn image_answer_view(r: Result<Result<VmImageDb, HttpError>, HttpError>) -> Result<
    Result<VmImageView, HttpErrorView>,
    HttpErrorView,
> {
    match r {
        Ok(Ok(i)) => Ok(Ok(i@)),
        Ok(Err(e)) => Ok(Err(e@)),
        Err(e) => Err(e@),
    }
}

impl View for Event {
    type V = EventView;

    open spec fn view(&self) -> EventView {
        match self {
            Event::Lookup(r) => EventView::Lookup(image_answer_view(*r)),
            Event::Children(r) => EventView::Children(
                match r {
                    Ok(n) => Ok(*n),
                    Err(e) => Err(e@),
                },
            ),
            Event::FileRemoved(o) => EventView::FileRemoved(o@),
            Event::Deleted(r) => EventView::Deleted(
                match r {
                    Ok(Ok(())) => Ok(Ok(())),
                    Ok(Err(e)) => Ok(Err(e@)),
                    Err(e) => Err(e@),
                },
            ),
            Event::Command(o) => EventView::Command(o@),
            Event::Cloned(o) => EventView::Cloned(o@),
            Event::Info(r) => EventView::Info(
                match r {
                    Ok(i) => Ok(i@),
                    Err(e) => Err(e@),
                },
            ),
            Event::Stored(r) => EventView::Stored(image_answer_view(*r)),
        }
    }
}

/// Work that a machine asks for, or its end.
pub enum Action {
    /// Look up the image named `name`.
    Lookup { name: String },
    /// Count the images derived from the image named `name`.
    FindChildren { name: String },
    /// Remove the file at `path`.
    RemoveFile { path: String },
    /// Delete the record of the image named `name`.
    DeleteRecord { name: String },
    /// Run `qemu-img` with `args` and wait for it.
    RunQemuImg { args: Vec<String> },
    /// Answer the caller with a stream, then run `qemu-img` with `args` in the
    /// background, what it reports going to the stream.
    SpawnClone { args: Vec<String> },
    /// Read what `qemu-img info` reports of the file at `path`.
    ReadInfo { path: String },
    /// Store a new image record.
    Insert { image: NewVmImage },
    /// Store new sizes in the record of the image named `name`.
    Update { name: String, update: VmImageUpdateDb },
    /// The operation ends with `result`: the caller's answer or, after
    /// [`Action::SpawnClone`], the last message of the stream.
    Finish { result: Result<Option<VmImageDb>, HttpError> },
    /// The operation ends without a last message.
    Halt,
}

pub enum ActionView {
    Lookup { name: Seq<char> },
    FindChildren { name: Seq<char> },
    RemoveFile { path: Seq<char> },
    DeleteRecord { name: Seq<char> },
    RunQemuImg { args: Seq<Seq<char>> },
    SpawnClone { args: Seq<Seq<char>> },
    ReadInfo { path: Seq<char> },
    Insert { image: NewVmImageView },
    Update { name: Seq<char>, size_actual: i64, size_virtual: i64 },
    Finish { result: Result<Option<VmImageView>, HttpErrorView> },
    Halt,
}

impl View for Action {
    type V = ActionView;

    open spec fn view(&self) -> ActionView {
        match self {
            Action::Lookup { name } => ActionView::Lookup { name: name@ },
            Action::FindChildren { name } => ActionView::FindChildren { name: name@ },
            Action::RemoveFile { path } => ActionView::RemoveFile { path: path@ },
            Action::DeleteRecord { name } => ActionView::DeleteRecord { name: name@ },
            Action::RunQemuImg { args } => ActionView::RunQemuImg { args: args.deep_view() },
            Action::SpawnClone { args } => ActionView::SpawnClone { args: args.deep_view() },
            Action::ReadInfo { path } => ActionView::ReadInfo { path: path@ },
            Action::Insert { image } => ActionView::Insert { image: image@ },
            Action::Update { name, update } => ActionView::Update {
                name: name@,
                size_actual: update.size_actual,
                size_virtual: update.size_virtual,
            },
            Action::Finish { result } => ActionView::Finish {
                result: match result {
                    Ok(Some(i)) => Ok(Some(i@)),
                    Ok(None) => Ok(None),
                    Err(e) => Err(e@),
                },
            },
            Action::Halt => ActionView::Halt,
        }
    }
}

/// Whether `e` is the outcome of the work that `a` asks for. No event answers
/// the end of an operation.
pub open spec fn answers(a: ActionView, e: EventView) -> bool {
    match a {
        ActionView::Lookup { .. } => e is Lookup,
        ActionView::FindChildren { .. } => e is Children,
        ActionView::RemoveFile { .. } => e is FileRemoved,
        ActionView::DeleteRecord { .. } => e is Deleted,
        ActionView::RunQemuImg { .. } => e is Command,
        ActionView::SpawnClone { .. } => e is Cloned,
        ActionView::ReadInfo { .. } => e is Info,
        ActionView::Insert { .. } => e is Stored,
        ActionView::Update { .. } => e is Stored,
        ActionView::Finish { .. } => false,
        ActionView::Halt => false,
    }
}

/// Whether `event` is the outcome of the work that `action` asks for.
pub fn answers_action(action: &Action, event: &Event) -> (b: bool)
    ensures
        b == answers(action@, event@),
{
    match action {
        Action::Lookup { .. } => matches!(event, Event::Lookup(_)),
        Action::FindChildren { .. } => matches!(event, Event::Children(_)),
        Action::RemoveFile { .. } => matches!(event, Event::FileRemoved(_)),
        Action::DeleteRecord { .. } => matches!(event, Event::Deleted(_)),
        Action::RunQemuImg { .. } => matches!(event, Event::Command(_)),
        Action::SpawnClone { .. } => matches!(event, Event::Cloned(_)),
        Action::ReadInfo { .. } => matches!(event, Event::Info(_)),
        Action::Insert { .. } => matches!(event, Event::Stored(_)),
        Action::Update { .. } => matches!(event, Event::Stored(_)),
        Action::Finish { .. } => false,
        Action::Halt => false,
    }
}

/// Whether `a` ends the operation.
pub open spec fn is_final(a: ActionView) -> bool {
    a is Finish || a is Halt
}

/// An error about the image named `name`: "Vm image ", the name, then `tail`.
pub open spec fn image_error(status: u16, name: Seq<char>, tail: Seq<char>) -> HttpErrorView {
    HttpErrorView { status, msg: "Vm image "@ + name + tail }
}

pub fn image_error_new(status: u16, name: &str, tail: &str) -> (e: HttpError)
    ensures
        e@ == image_error(status, name@, tail@),
        e.status == status,
        e.msg@ == "Vm image "@ + name@ + tail@,
{
    let mut msg = String::from_str("Vm image ");
    msg.append(name);
    msg.append(tail);
    HttpError::new(status, msg)
}

/// The answer to a request that would reuse the name of an existing image.
pub open spec fn name_taken(name: Seq<char>) -> HttpErrorView {
    image_error(STATUS_CONFLICT, name, " already used"@)
}

/// The answer to a request to delete an image that others derive from.
pub open spec fn has_children(name: Seq<char>) -> HttpErrorView {
    image_error(STATUS_CONFLICT, name, " has children images please delete them first"@)
}

/// The answer to a request to clone an image that is no snapshot.
pub open spec fn not_snapshot(name: Seq<char>) -> HttpErrorView {
    image_error(STATUS_BAD_REQUEST, name, " is not a snapshot"@)
}

pub open spec fn finish_err(e: HttpErrorView) -> ActionView {
    ActionView::Finish { result: Err(e) }
}


/// Once an operation ends, no event answers its last action: it takes no
/// further step.
pub proof fn lemma_end_takes_no_event(a: ActionView, e: EventView)
    requires
        is_final(a),
    ensures
        !answers(a, e),
{
}

} // verus!
