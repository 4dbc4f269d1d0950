//! Creating a snapshot image: a qcow2 file backed by an existing image,
//! resized to the requested size, stored in the daemon's state directory and
//! recorded as a `Snapshot` of that image.

use vstd::prelude::*;

use crate::error::{HttpErrorView, STATUS_CONFLICT};
use crate::image::{
    gigabytes, lemma_size_text, QemuImgInfoView, check_command, command_failure, image_file, image_file_path, image_from_info, resize_args,
    resize_command,
    snapshot_args, snapshot_command, snapshot_kind, CommandOutcomeView, NewVmImage, VmImageDb,
    VmImageView,
};
use crate::workflow::{
    answers, finish_err, image_error_new, name_taken, Action, ActionView, Event, EventView,
};

verus! {

enum Stage {
    AwaitLookup,
    AwaitCreate,
    AwaitResize,
    AwaitInfo,
    AwaitStore,
    Done,
}

pub enum SnapshotStage {
    AwaitLookup,
    AwaitCreate,
    AwaitResize,
    AwaitInfo,
    AwaitStore,
    Done,
}

/// The creation of snapshot `name` of `size` gigabytes from the image named
/// `base_name` whose file is at `base_path`, to be kept at `path`.
pub struct CreateSnapshot {
    name: String,
    size: u64,
    base_name: String,
    base_path: String,
    path: String,
    stage: Stage,
}

pub struct CreateSnapshotView {
    pub name: Seq<char>,
    pub size: u64,
    pub base_name: Seq<char>,
    pub base_path: Seq<char>,
    pub path: Seq<char>,
    pub stage: SnapshotStage,
}

impl View for CreateSnapshot {
    type V = CreateSnapshotView;

    closed spec fn view(&self) -> CreateSnapshotView {
        CreateSnapshotView {
            name: self.name@,
            size: self.size,
            base_name: self.base_name@,
            base_path: self.base_path@,
            path: self.path@,
            stage: match self.stage {
                Stage::AwaitLookup => SnapshotStage::AwaitLookup,
                Stage::AwaitCreate => SnapshotStage::AwaitCreate,
                Stage::AwaitResize => SnapshotStage::AwaitResize,
                Stage::AwaitInfo => SnapshotStage::AwaitInfo,
                Stage::AwaitStore => SnapshotStage::AwaitStore,
                Stage::Done => SnapshotStage::Done,
            },
        }
    }
}

/// The error of the run that creates the snapshot file of the image at `base`.
pub open spec fn create_failure(base: Seq<char>, outcome: CommandOutcomeView) -> Option<HttpErrorView> {
    command_failure("Failed to create snapshot of "@, base, outcome)
}

/// The error of the run that resizes the snapshot file of the image at `base`.
pub open spec fn resize_failure(base: Seq<char>, outcome: CommandOutcomeView) -> Option<HttpErrorView> {
    command_failure("Failed to resize snapshot of "@, base, outcome)
}

impl CreateSnapshotView {
    /// Whether the creation waits for an event such as `e`.
    pub open spec fn expects(self, e: EventView) -> bool {
        match self.stage {
            SnapshotStage::AwaitLookup => e is Lookup,
            SnapshotStage::AwaitCreate => e is Command,
            SnapshotStage::AwaitResize => e is Command,
            SnapshotStage::AwaitInfo => e is Info,
            SnapshotStage::AwaitStore => e is Stored,
            SnapshotStage::Done => false,
        }
    }

    pub open spec fn with_stage(self, stage: SnapshotStage) -> CreateSnapshotView {
        CreateSnapshotView { stage, ..self }
    }

    /// The creation's next state and action once `e` has come. A name that
    /// the lookup finds is refused with a conflict; a lookup that cannot run
    /// ends the creation with its error.
    pub open spec fn next(self, e: EventView) -> (CreateSnapshotView, ActionView) {
        let done = self.with_stage(SnapshotStage::Done);
        match self.stage {
            SnapshotStage::AwaitLookup => match e {
                EventView::Lookup(Ok(Ok(_))) => (done, finish_err(name_taken(self.name))),
                EventView::Lookup(Ok(Err(_))) => (
                    self.with_stage(SnapshotStage::AwaitCreate),
                    ActionView::RunQemuImg { args: snapshot_command(self.base_path, self.path) },
                ),
                EventView::Lookup(Err(err)) => (done, finish_err(err)),
                _ => (self, ActionView::Halt),
            },
            SnapshotStage::AwaitCreate => match e {
                EventView::Command(outcome) => match create_failure(self.base_path, outcome) {
                    Some(err) => (done, finish_err(err)),
                    None => (
                        self.with_stage(SnapshotStage::AwaitResize),
                        ActionView::RunQemuImg { args: resize_command(self.path, self.size, false) },
                    ),
                },
                _ => (self, ActionView::Halt),
            },
            SnapshotStage::AwaitResize => match e {
                EventView::Command(outcome) => match resize_failure(self.base_path, outcome) {
                    Some(err) => (done, finish_err(err)),
                    None => (
                        self.with_stage(SnapshotStage::AwaitInfo),
                        ActionView::ReadInfo { path: self.path },
                    ),
                },
                _ => (self, ActionView::Halt),
            },
            SnapshotStage::AwaitInfo => match e {
                EventView::Info(Ok(info)) => (
                    self.with_stage(SnapshotStage::AwaitStore),
                    ActionView::Insert {
                        image: image_from_info(
                            self.name,
                            snapshot_kind(),
                            self.path,
                            info,
                            Some(self.base_name),
                        ),
                    },
                ),
                EventView::Info(Err(err)) => (done, finish_err(err)),
                _ => (self, ActionView::Halt),
            },
            SnapshotStage::AwaitStore => match e {
                EventView::Stored(Ok(Ok(image))) => (
                    done,
                    ActionView::Finish { result: Ok(Some(image)) },
                ),
                EventView::Stored(Ok(Err(err))) => (done, finish_err(err)),
                EventView::Stored(Err(err)) => (done, finish_err(err)),
                _ => (self, ActionView::Halt),
            },
            SnapshotStage::Done => (self, ActionView::Halt),
        }
    }
}

impl CreateSnapshot {
    /// Starts creating snapshot `name` of `size` gigabytes from `image`, its
    /// file to be kept under `state_dir`: the name is looked up first.
    pub fn create_snap(name: &str, size: u64, image: &VmImageDb, state_dir: &str) -> (r: (
        CreateSnapshot,
        Action,
    ))
        ensures
            r.0@ == (CreateSnapshotView {
                name: name@,
                size,
                base_name: image@.name,
                base_path: image@.path,
                path: image_file(state_dir@, name@),
                stage: SnapshotStage::AwaitLookup,
            }),
            r.1@ == (ActionView::Lookup { name: name@ }),
            forall|e: EventView| #[trigger] r.0@.expects(e) == answers(r.1@, e),
    {
        let m = CreateSnapshot {
            name: name.to_string(),
            size,
            base_name: image.name.clone(),
            base_path: image.path.clone(),
            path: image_file_path(state_dir, name),
            stage: Stage::AwaitLookup,
        };
        (m, Action::Lookup { name: name.to_string() })
    }

    /// Takes the outcome of the work asked for last.
    pub fn step(&mut self, event: Event) -> (action: Action)
        requires
            old(self)@.expects(event@),
        ensures
            (final(self)@, action@) == old(self)@.next(event@),
            forall|e: EventView| #[trigger] final(self)@.expects(e) == answers(action@, e),
    {
        match self.stage {
            Stage::AwaitLookup => {
                match event {
                    Event::Lookup(Ok(Ok(_))) => {
                        self.stage = Stage::Done;
                        Action::Finish {
                            result: Err(
                                image_error_new(STATUS_CONFLICT, self.name.as_str(), " already used"),
                            ),
                        }
                    },
                    Event::Lookup(Ok(Err(_))) => {
                        self.stage = Stage::AwaitCreate;
                        Action::RunQemuImg {
                            args: snapshot_args(self.base_path.as_str(), self.path.as_str()),
                        }
                    },
                    Event::Lookup(Err(err)) => {
                        self.stage = Stage::Done;
                        Action::Finish { result: Err(err) }
                    },
                    _ => Action::Halt,
                }
            },
            Stage::AwaitCreate => {
                if let Event::Command(outcome) = event {
                    match check_command("Failed to create snapshot of ", self.base_path.as_str(), &outcome) {
                        Some(err) => {
                            self.stage = Stage::Done;
                            Action::Finish { result: Err(err) }
                        },
                        None => {
                            self.stage = Stage::AwaitResize;
                            Action::RunQemuImg { args: resize_args(self.path.as_str(), self.size, false) }
                        },
                    }
                } else {
                    Action::Halt
                }
            },
            Stage::AwaitResize => {
                if let Event::Command(outcome) = event {
                    match check_command("Failed to resize snapshot of ", self.base_path.as_str(), &outcome) {
                        Some(err) => {
                            self.stage = Stage::Done;
                            Action::Finish { result: Err(err) }
                        },
                        None => {
                            self.stage = Stage::AwaitInfo;
                            Action::ReadInfo { path: self.path.clone() }
                        },
                    }
                } else {
                    Action::Halt
                }
            },
            Stage::AwaitInfo => {
                match event {
                    Event::Info(Ok(info)) => {
                        self.stage = Stage::AwaitStore;
                        Action::Insert {
                            image: NewVmImage::from_info(
                                self.name.as_str(),
                                "Snapshot",
                                self.path.as_str(),
                                &info,
                                Some(self.base_name.clone()),
                            ),
                        }
                    },
                    Event::Info(Err(err)) => {
                        self.stage = Stage::Done;
                        Action::Finish { result: Err(err) }
                    },
                    _ => Action::Halt,
                }
            },
            Stage::AwaitStore => {
                match event {
                    Event::Stored(Ok(Ok(image))) => {
                        self.stage = Stage::Done;
                        Action::Finish { result: Ok(Some(image)) }
                    },
                    Event::Stored(Ok(Err(err))) => {
                        self.stage = Stage::Done;
                        Action::Finish { result: Err(err) }
                    },
                    Event::Stored(Err(err)) => {
                        self.stage = Stage::Done;
                        Action::Finish { result: Err(err) }
                    },
                    _ => Action::Halt,
                }
            },
            Stage::Done => Action::Halt,
        }
    }
}


impl CreateSnapshotView {
    /// How many events the creation may still take.
    pub open spec fn remaining(self) -> nat {
        match self.stage {
            SnapshotStage::AwaitLookup => 5,
            SnapshotStage::AwaitCreate => 4,
            SnapshotStage::AwaitResize => 3,
            SnapshotStage::AwaitInfo => 2,
            SnapshotStage::AwaitStore => 1,
            SnapshotStage::Done => 0,
        }
    }
}

/// Every event that a snapshot creation expects brings it closer to its end:
/// it ends after at most five events.
pub proof fn lemma_snapshot_ends(s: CreateSnapshotView, e: EventView)
    requires
        s.expects(e),
    ensures
        s.next(e).0.remaining() < s.remaining(),
{
}

/// A snapshot whose name the lookup finds is not created: the creation
/// answers a conflict before any `qemu-img` run.
pub proof fn lemma_snapshot_refuses_known_name(s: CreateSnapshotView, found: VmImageView)
    requires
        s.stage == SnapshotStage::AwaitLookup,
    ensures
        s.next(EventView::Lookup(Ok(Ok(found)))).1 == finish_err(name_taken(s.name)),
        s.next(EventView::Lookup(Ok(Ok(found)))).0.stage == SnapshotStage::Done,
{
}

/// When the name is free and every step succeeds, a snapshot of `image` named `name` is a qcow2
/// file under the state directory backed by the image's file, resized to the
/// requested size, described by `qemu-img info`, and stored as a `Snapshot`
/// whose parent is `image`; the stored record is the answer.
pub proof fn lemma_snapshot_success(
    name: Seq<char>,
    size: u64,
    image: VmImageView,
    state_dir: Seq<char>,
    not_found: HttpErrorView,
    create_report: Seq<char>,
    create_stderr: Seq<char>,
    resize_report: Seq<char>,
    resize_stderr: Seq<char>,
    info: QemuImgInfoView,
    stored: VmImageView,
)
    ensures
        ({
            let path = image_file(state_dir, name);
            let s0 = CreateSnapshotView {
                name,
                size,
                base_name: image.name,
                base_path: image.path,
                path,
                stage: SnapshotStage::AwaitLookup,
            };
            let (s1, a1) = s0.next(EventView::Lookup(Ok(Err(not_found))));
            let (s2, a2) = s1.next(
                EventView::Command(
                    CommandOutcomeView::Exited {
                        success: true,
                        report: create_report,
                        stderr: create_stderr,
                    },
                ),
            );
            let (s3, a3) = s2.next(
                EventView::Command(
                    CommandOutcomeView::Exited {
                        success: true,
                        report: resize_report,
                        stderr: resize_stderr,
                    },
                ),
            );
            let (s4, a4) = s3.next(EventView::Info(Ok(info)));
            let (s5, a5) = s4.next(EventView::Stored(Ok(Ok(stored))));
            &&& a1 == (ActionView::RunQemuImg { args: snapshot_command(image.path, path) })
            &&& a2 == (ActionView::RunQemuImg { args: resize_command(path, size, false) })
            &&& a3 == (ActionView::ReadInfo { path })
            &&& a4 == (ActionView::Insert {
                image: image_from_info(name, snapshot_kind(), path, info, Some(image.name)),
            })
            &&& a5 == (ActionView::Finish { result: Ok(Some(stored)) })
            &&& s5.stage == SnapshotStage::Done
        }),
{
}


/// How a snapshot creation answers every outcome it waits for. A name that
/// the lookup finds is refused with a conflict, a failed lookup ends it with
/// its error, and a free name starts `qemu-img create` of a qcow2 file at the
/// snapshot's path backed by the image's file. That run, then the resize to
/// the requested gigabytes, end it with an internal error naming the image's
/// file when they cannot start or fail. The described snapshot is recorded as
/// a `Snapshot` of the image, at its path, with the format and sizes that
/// `qemu-img info` reports.
pub proof fn lemma_snapshot_answers(s: CreateSnapshotView, e: EventView)
    requires
        s.expects(e),
    ensures
        e matches EventView::Lookup(Ok(Ok(_))) ==> s.next(e).1 == (ActionView::Finish {
            result: Err(HttpErrorView { status: 409, msg: "Vm image "@ + s.name + " already used"@ }),
        }),
        e matches EventView::Lookup(Err(err)) ==> s.next(e).1 == (ActionView::Finish {
            result: Err(err),
        }),
        e matches EventView::Lookup(Ok(Err(_))) ==> s.next(e).1 == (ActionView::RunQemuImg {
            args: seq!["create"@, "-F"@, "qcow2"@, "-f"@, "qcow2"@, "-b"@, s.base_path, s.path],
        }),
        s.stage == SnapshotStage::AwaitCreate ==> (e matches EventView::Command(
            CommandOutcomeView::SpawnFailed { error },
        ) ==> s.next(e).1 == (ActionView::Finish {
            result: Err(
                HttpErrorView {
                    status: 500,
                    msg: "Failed to create snapshot of "@ + s.base_path + ": "@ + error,
                },
            ),
        })),
        s.stage == SnapshotStage::AwaitCreate ==> (e matches EventView::Command(
            CommandOutcomeView::Exited { success, report, .. },
        ) ==> (!success ==> s.next(e).1 == (ActionView::Finish {
            result: Err(
                HttpErrorView {
                    status: 500,
                    msg: "Failed to create snapshot of "@ + s.base_path + ": "@ + report,
                },
            ),
        })) && (success ==> (s.next(e).1 matches ActionView::RunQemuImg { args } && args.len()
            == 3 && args[0] == "resize"@ && args[1] == s.path && gigabytes(
            args[2],
            s.size as nat,
        )))),
        s.stage == SnapshotStage::AwaitResize ==> (e matches EventView::Command(
            CommandOutcomeView::SpawnFailed { error },
        ) ==> s.next(e).1 == (ActionView::Finish {
            result: Err(
                HttpErrorView {
                    status: 500,
                    msg: "Failed to resize snapshot of "@ + s.base_path + ": "@ + error,
                },
            ),
        })),
        s.stage == SnapshotStage::AwaitResize ==> (e matches EventView::Command(
            CommandOutcomeView::Exited { success, report, .. },
        ) ==> (!success ==> s.next(e).1 == (ActionView::Finish {
            result: Err(
                HttpErrorView {
                    status: 500,
                    msg: "Failed to resize snapshot of "@ + s.base_path + ": "@ + report,
                },
            ),
        })) && (success ==> s.next(e).1 == (ActionView::ReadInfo { path: s.path }))),
        e matches EventView::Info(Ok(info)) ==> s.next(e).1 matches ActionView::Insert { image }
            && image.name == s.name && image.kind == "Snapshot"@ && image.path == s.path
            && image.format == info.format && image.size_actual == info.actual_size
            && image.size_virtual == info.virtual_size && image.parent == Some(s.base_name),
        e matches EventView::Info(Err(err)) ==> s.next(e).1 == (ActionView::Finish {
            result: Err(err),
        }),
        e matches EventView::Stored(Ok(Ok(image))) ==> s.next(e).1 == (ActionView::Finish {
            result: Ok(Some(image)),
        }),
        e matches EventView::Stored(Ok(Err(err))) ==> s.next(e).1 == (ActionView::Finish {
            result: Err(err),
        }),
        e matches EventView::Stored(Err(err)) ==> s.next(e).1 == (ActionView::Finish {
            result: Err(err),
        }),
{
    lemma_size_text(s.size);
}

} // verus!
