//! Cloning a snapshot into a new `Base` image: a qcow2 image made with
//! `qemu-img create` from the snapshot, kept in the daemon's state directory
//! and recorded without parent. After the name checks the caller is answered
//! with a stream, and the creation goes on in the background, reporting to
//! that stream.

use vstd::prelude::*;
use vstd::string::*;

use crate::error::{HttpError, HttpErrorView, STATUS_BAD_REQUEST, STATUS_CONFLICT, STATUS_INTERNAL_SERVER_ERROR};
use crate::image::{
    QemuImgInfoView, base_kind, snapshot_args, snapshot_command, image_file, image_file_path, image_from_info,
    NewVmImage, VmImageDb, VmImageView, snapshot_kind,
};
use crate::workflow::{
    is_final, answers, finish_err, image_error_new, name_taken, not_snapshot, Action, ActionView,
    CloneOutcome, CloneOutcomeView, Event, EventView,
};

verus! {

enum Stage {
    AwaitLookup,
    AwaitConvert,
    AwaitInfo,
    AwaitStore,
    Done,
}

pub enum CloneStage {
    AwaitLookup,
    AwaitConvert,
    AwaitInfo,
    AwaitStore,
    Done,
}

/// The cloning of the snapshot whose file is at `source` into the new image
/// `name`, to be kept at `path`.
pub struct CloneImage {
    name: String,
    source: String,
    path: String,
    stage: Stage,
}

pub struct CloneImageView {
    pub name: Seq<char>,
    pub source: Seq<char>,
    pub path: Seq<char>,
    pub stage: CloneStage,
}

impl View for CloneImage {
    type V = CloneImageView;

    closed spec fn view(&self) -> CloneImageView {
        CloneImageView {
            name: self.name@,
            source: self.source@,
            path: self.path@,
            stage: match self.stage {
                Stage::AwaitLookup => CloneStage::AwaitLookup,
                Stage::AwaitConvert => CloneStage::AwaitConvert,
                Stage::AwaitInfo => CloneStage::AwaitInfo,
                Stage::AwaitStore => CloneStage::AwaitStore,
                Stage::Done => CloneStage::Done,
            },
        }
    }
}

/// The error that a failed background `qemu-img` run leaves in the stream.
pub open spec fn clone_failure(outcome: CloneOutcomeView) -> Option<HttpErrorView> {
    let head = "Failed to convert snapshot to base"@;
    match outcome {
        CloneOutcomeView::SpawnFailed { error } => Some(
            HttpErrorView { status: STATUS_INTERNAL_SERVER_ERROR, msg: head + " "@ + error },
        ),
        CloneOutcomeView::NoStdout => Some(
            HttpErrorView { status: STATUS_INTERNAL_SERVER_ERROR, msg: head },
        ),
        CloneOutcomeView::WaitFailed { error } => Some(
            HttpErrorView { status: STATUS_INTERNAL_SERVER_ERROR, msg: head + " "@ + error },
        ),
        CloneOutcomeView::Exited { success, report } => if success {
            None
        } else {
            Some(HttpErrorView { status: STATUS_INTERNAL_SERVER_ERROR, msg: head + " "@ + report })
        },
    }
}

fn check_clone(outcome: &CloneOutcome) -> (r: Option<HttpError>)
    ensures
        match clone_failure(outcome@) {
            None => r is None,
            Some(e) => r matches Some(f) && f@ == e,
        },
{
    let head = "Failed to convert snapshot to base";
    match outcome {
        CloneOutcome::SpawnFailed { error } => {
            let mut msg = String::from_str(head);
            msg.append(" ");
            msg.append(error.as_str());
            Some(HttpError::new(STATUS_INTERNAL_SERVER_ERROR, msg))
        },
        CloneOutcome::NoStdout => Some(
            HttpError::new(STATUS_INTERNAL_SERVER_ERROR, String::from_str(head)),
        ),
        CloneOutcome::WaitFailed { error } => {
            let mut msg = String::from_str(head);
            msg.append(" ");
            msg.append(error.as_str());
            Some(HttpError::new(STATUS_INTERNAL_SERVER_ERROR, msg))
        },
        CloneOutcome::Exited { success, report } => {
            if *success {
                None
            } else {
                let mut msg = String::from_str(head);
                msg.append(" ");
                msg.append(report.as_str());
                Some(HttpError::new(STATUS_INTERNAL_SERVER_ERROR, msg))
            }
        },
    }
}

impl CloneImageView {
    /// Whether the cloning waits for an event such as `e`.
    pub open spec fn expects(self, e: EventView) -> bool {
        match self.stage {
            CloneStage::AwaitLookup => e is Lookup,
            CloneStage::AwaitConvert => e is Cloned,
            CloneStage::AwaitInfo => e is Info,
            CloneStage::AwaitStore => e is Stored,
            CloneStage::Done => false,
        }
    }

    pub open spec fn with_stage(self, stage: CloneStage) -> CloneImageView {
        CloneImageView { stage, ..self }
    }

    /// The cloning's next state and action once `e` has come. When the record
    /// of the new image cannot be stored because the query itself fails, the
    /// stream ends without a last message.
    pub open spec fn next(self, e: EventView) -> (CloneImageView, ActionView) {
        let done = self.with_stage(CloneStage::Done);
        match e {
            EventView::Lookup(Err(err)) => (done, finish_err(err)),
            EventView::Lookup(Ok(Ok(_))) => (done, finish_err(name_taken(self.name))),
            EventView::Lookup(Ok(Err(_))) => (
                self.with_stage(CloneStage::AwaitConvert),
                ActionView::SpawnClone { args: snapshot_command(self.source, self.path) },
            ),
            EventView::Cloned(outcome) => match clone_failure(outcome) {
                Some(err) => (done, finish_err(err)),
                None => (self.with_stage(CloneStage::AwaitInfo), ActionView::ReadInfo { path: self.path }),
            },
            EventView::Info(Err(err)) => (done, finish_err(err)),
            EventView::Info(Ok(info)) => (
                self.with_stage(CloneStage::AwaitStore),
                ActionView::Insert {
                    image: image_from_info(self.name, base_kind(), self.path, info, None),
                },
            ),
            EventView::Stored(Err(_)) => (done, ActionView::Halt),
            EventView::Stored(Ok(Err(err))) => (done, finish_err(err)),
            EventView::Stored(Ok(Ok(image))) => (done, ActionView::Finish { result: Ok(Some(image)) }),
            _ => (self, ActionView::Halt),
        }
    }
}

impl CloneImage {
    /// Starts cloning `image` into the new image `name`, its file to be kept
    /// under `state_dir`. Only a snapshot can be cloned; then the name is
    /// looked up first.
    pub fn clone(name: &str, image: &VmImageDb, state_dir: &str) -> (r: (CloneImage, Action))
        ensures
            r.0@.name == name@,
            r.0@.source == image@.path,
            r.0@.path == image_file(state_dir@, name@),
            image@.kind == snapshot_kind() ==> r.0@.stage == CloneStage::AwaitLookup && r.1@ == (
            ActionView::Lookup { name: name@ }),
            image@.kind != snapshot_kind() ==> r.0@.stage == CloneStage::Done && r.1@ == finish_err(
                not_snapshot(name@),
            ),
            image@.kind != "Snapshot"@ ==> r.1@ == (ActionView::Finish {
                result: Err(HttpErrorView { status: 400, msg: "Vm image "@ + name@ + " is not a snapshot"@ }),
            }),
            r.0@.path == state_dir@ + "/vms/images/"@ + name@ + ".img"@,
            forall|e: EventView| #[trigger] r.0@.expects(e) == answers(r.1@, e),
    {
        let is_snapshot = image.kind == String::from_str("Snapshot");
        let (stage, action) = if is_snapshot {
            (Stage::AwaitLookup, Action::Lookup { name: name.to_string() })
        } else {
            (
                Stage::Done,
                Action::Finish {
                    result: Err(image_error_new(STATUS_BAD_REQUEST, name, " is not a snapshot")),
                },
            )
        };
        let m = CloneImage {
            name: name.to_string(),
            source: image.path.clone(),
            path: image_file_path(state_dir, name),
            stage,
        };
        (m, action)
    }

    /// Takes the outcome of the work asked for last.
    pub fn step(&mut self, event: Event) -> (action: Action)
        requires
            old(self)@.expects(event@),
        ensures
            (final(self)@, action@) == old(self)@.next(event@),
            forall|e: EventView| #[trigger] final(self)@.expects(e) == answers(action@, e),
    {
        match event {
            Event::Lookup(Err(err)) => {
                self.stage = Stage::Done;
                Action::Finish { result: Err(err) }
            },
            Event::Lookup(Ok(Ok(_))) => {
                self.stage = Stage::Done;
                Action::Finish {
                    result: Err(image_error_new(STATUS_CONFLICT, self.name.as_str(), " already used")),
                }
            },
            Event::Lookup(Ok(Err(_))) => {
                self.stage = Stage::AwaitConvert;
                Action::SpawnClone { args: snapshot_args(self.source.as_str(), self.path.as_str()) }
            },
            Event::Cloned(outcome) => {
                match check_clone(&outcome) {
                    Some(err) => {
                        self.stage = Stage::Done;
                        Action::Finish { result: Err(err) }
                    },
                    None => {
                        self.stage = Stage::AwaitInfo;
                        Action::ReadInfo { path: self.path.clone() }
                    },
                }
            },
            Event::Info(Err(err)) => {
                self.stage = Stage::Done;
                Action::Finish { result: Err(err) }
            },
            Event::Info(Ok(info)) => {
                self.stage = Stage::AwaitStore;
                Action::Insert {
                    image: NewVmImage::from_info(self.name.as_str(), "Base", self.path.as_str(), &info, None),
                }
            },
            Event::Stored(Err(_)) => {
                self.stage = Stage::Done;
                Action::Halt
            },
            Event::Stored(Ok(Err(err))) => {
                self.stage = Stage::Done;
                Action::Finish { result: Err(err) }
            },
            Event::Stored(Ok(Ok(image))) => {
                self.stage = Stage::Done;
                Action::Finish { result: Ok(Some(image)) }
            },
            _ => Action::Halt,
        }
    }
}


impl CloneImageView {
    /// How many events the cloning may still take.
    pub open spec fn remaining(self) -> nat {
        match self.stage {
            CloneStage::AwaitLookup => 4,
            CloneStage::AwaitConvert => 3,
            CloneStage::AwaitInfo => 2,
            CloneStage::AwaitStore => 1,
            CloneStage::Done => 0,
        }
    }
}

/// Every event that a cloning expects brings it closer to its end: it ends
/// after at most four events.
pub proof fn lemma_clone_ends(s: CloneImageView, e: EventView)
    requires
        s.expects(e),
    ensures
        s.next(e).0.remaining() < s.remaining(),
{
}

/// When every step succeeds, the clone named `name` of the snapshot `image`
/// is a qcow2 image created by `qemu-img create` from its file, kept under the state
/// directory and stored as a `Base` image without parent; the stored record
/// is the stream's last message.
pub proof fn lemma_clone_success(
    name: Seq<char>,
    image: VmImageView,
    state_dir: Seq<char>,
    not_found: HttpErrorView,
    report: Seq<char>,
    info: QemuImgInfoView,
    stored: VmImageView,
)
    ensures
        ({
            let path = image_file(state_dir, name);
            let s0 = CloneImageView {
                name,
                source: image.path,
                path,
                stage: CloneStage::AwaitLookup,
            };
            let (s1, a1) = s0.next(EventView::Lookup(Ok(Err(not_found))));
            let (s2, a2) = s1.next(
                EventView::Cloned(CloneOutcomeView::Exited { success: true, report }),
            );
            let (s3, a3) = s2.next(EventView::Info(Ok(info)));
            let (s4, a4) = s3.next(EventView::Stored(Ok(Ok(stored))));
            &&& a1 == (ActionView::SpawnClone { args: snapshot_command(image.path, path) })
            &&& a2 == (ActionView::ReadInfo { path })
            &&& a3 == (ActionView::Insert {
                image: image_from_info(name, base_kind(), path, info, None),
            })
            &&& a4 == (ActionView::Finish { result: Ok(Some(stored)) })
            &&& s4.stage == CloneStage::Done
        }),
{
}

/// A clone whose name is already used is refused with a conflict before any
/// `qemu-img` run starts.
pub proof fn lemma_clone_refuses_known_name(s: CloneImageView, existing: VmImageView)
    requires
        s.stage == CloneStage::AwaitLookup,
    ensures
        s.next(EventView::Lookup(Ok(Ok(existing)))).1 == finish_err(name_taken(s.name)),
{
}


impl CloneImageView {
    /// Whether the cloning, from this state, expects each of `events` in turn.
    pub open spec fn accepts(self, events: Seq<EventView>) -> bool
        decreases events.len(),
    {
        events.len() == 0 || (self.expects(events[0]) && self.next(events[0]).0.accepts(
            events.drop_first(),
        ))
    }

    /// The actions with which the cloning, from this state, answers `events`
    /// in turn.
    pub open spec fn answers_to(self, events: Seq<EventView>) -> Seq<ActionView>
        decreases events.len(),
    {
        if events.len() == 0 {
            Seq::empty()
        } else {
            seq![self.next(events[0]).1] + self.next(events[0]).0.answers_to(events.drop_first())
        }
    }
}

/// A cloning ends once: over any run of events it expects, only the last
/// action can end it. Its stream therefore gets at most one last message,
/// the record or the error.
pub proof fn lemma_clone_ends_once(s: CloneImageView, events: Seq<EventView>)
    requires
        s.accepts(events),
    ensures
        s.answers_to(events).len() == events.len(),
        forall|i: int| 0 <= i < events.len() - 1 ==> !is_final(#[trigger] s.answers_to(events)[i]),
    decreases events.len(),
{
    if events.len() > 0 {
        let (s1, a) = s.next(events[0]);
        let rest = events.drop_first();
        assert(s1.accepts(rest));
        lemma_clone_ends_once(s1, rest);
        if rest.len() > 0 {
            assert(s1.expects(rest[0]));
            assert(!is_final(a));
        }
        assert forall|i: int| 0 <= i < events.len() - 1 implies !is_final(
            #[trigger] s.answers_to(events)[i],
        ) by {
            if i > 0 {
                assert(s.answers_to(events)[i] == s1.answers_to(rest)[i - 1]);
            }
        }
    }
}


/// How a cloning answers every outcome it waits for. A failed lookup ends it
/// with its error and a used name is refused with a conflict; a free name
/// answers the caller with a stream and starts, in the background,
/// `qemu-img create` of a qcow2 file at the clone's path from the snapshot's
/// file. A run that cannot start, loses its output, cannot be waited for or
/// fails leaves an internal error in the stream. The described clone is
/// recorded as a `Base` image without parent, at its path, with the format and
/// sizes that `qemu-img info` reports; the stream then ends with the stored
/// record, with the store's answer when it refuses, and without a last
/// message when the store cannot be reached.
pub proof fn lemma_clone_answers(s: CloneImageView, e: EventView)
    requires
        s.expects(e),
    ensures
        e matches EventView::Lookup(Err(err)) ==> s.next(e).1 == (ActionView::Finish {
            result: Err(err),
        }),
        e matches EventView::Lookup(Ok(Ok(_))) ==> s.next(e).1 == (ActionView::Finish {
            result: Err(HttpErrorView { status: 409, msg: "Vm image "@ + s.name + " already used"@ }),
        }),
        e matches EventView::Lookup(Ok(Err(_))) ==> s.next(e).1 == (ActionView::SpawnClone {
            args: seq!["create"@, "-F"@, "qcow2"@, "-f"@, "qcow2"@, "-b"@, s.source, s.path],
        }),
        e matches EventView::Cloned(CloneOutcomeView::SpawnFailed { error }) ==> s.next(e).1 == (
        ActionView::Finish {
            result: Err(
                HttpErrorView { status: 500, msg: "Failed to convert snapshot to base"@ + " "@ + error },
            ),
        }),
        e matches EventView::Cloned(CloneOutcomeView::NoStdout) ==> s.next(e).1 == (
        ActionView::Finish {
            result: Err(HttpErrorView { status: 500, msg: "Failed to convert snapshot to base"@ }),
        }),
        e matches EventView::Cloned(CloneOutcomeView::WaitFailed { error }) ==> s.next(e).1 == (
        ActionView::Finish {
            result: Err(
                HttpErrorView { status: 500, msg: "Failed to convert snapshot to base"@ + " "@ + error },
            ),
        }),
        e matches EventView::Cloned(CloneOutcomeView::Exited { success, report }) ==> (!success
            ==> s.next(e).1 == (ActionView::Finish {
            result: Err(
                HttpErrorView { status: 500, msg: "Failed to convert snapshot to base"@ + " "@ + report },
            ),
        })) && (success ==> s.next(e).1 == (ActionView::ReadInfo { path: s.path })),
        e matches EventView::Info(Ok(info)) ==> s.next(e).1 matches ActionView::Insert { image }
            && image.name == s.name && image.kind == "Base"@ && image.path == s.path
            && image.format == info.format && image.size_actual == info.actual_size
            && image.size_virtual == info.virtual_size && image.parent is None,
        e matches EventView::Info(Err(err)) ==> s.next(e).1 == (ActionView::Finish {
            result: Err(err),
        }),
        e matches EventView::Stored(Ok(Ok(image))) ==> s.next(e).1 == (ActionView::Finish {
            result: Ok(Some(image)),
        }),
        e matches EventView::Stored(Ok(Err(err))) ==> s.next(e).1 == (ActionView::Finish {
            result: Err(err),
        }),
        e matches EventView::Stored(Err(_)) ==> s.next(e).1 == ActionView::Halt,
{
}

} // verus!
