//! Resizing an image file and recording its new sizes.

use vstd::prelude::*;
use vstd::string::*;

use crate::error::{HttpError, HttpErrorView, STATUS_INTERNAL_SERVER_ERROR};
use crate::image::{gigabytes, lemma_command_lines, QemuImgInfoView, resize_args, resize_command, CommandOutcome, CommandOutcomeView, VmImageDb,
    VmImageResizePayload, VmImageUpdateDb, VmImageView};
use crate::workflow::{answers, finish_err, Action, ActionView, Event, EventView};

verus! {

enum Stage {
    AwaitImage,
    AwaitCommand,
    AwaitInfo,
    AwaitStore,
    Done,
}

pub enum ResizeStage {
    AwaitImage,
    AwaitCommand,
    AwaitInfo,
    AwaitStore,
    Done,
}

/// The resizing of the image named `name`, whose file is at `path`, to `size`
/// gigabytes; it may shrink only when `shrink` is set.
pub struct ResizeImage {
    name: String,
    path: String,
    payload: VmImageResizePayload,
    stage: Stage,
}

pub struct ResizeImageView {
    pub name: Seq<char>,
    pub path: Seq<char>,
    pub size: u64,
    pub shrink: bool,
    pub stage: ResizeStage,
}

impl View for ResizeImage {
    type V = ResizeImageView;

    closed spec fn view(&self) -> ResizeImageView {
        ResizeImageView {
            name: self.name@,
            path: self.path@,
            size: self.payload.size,
            shrink: self.payload.shrink,
            stage: match self.stage {
                Stage::AwaitImage => ResizeStage::AwaitImage,
                Stage::AwaitCommand => ResizeStage::AwaitCommand,
                Stage::AwaitInfo => ResizeStage::AwaitInfo,
                Stage::AwaitStore => ResizeStage::AwaitStore,
                Stage::Done => ResizeStage::Done,
            },
        }
    }
}

/// The error of the resize run described by `outcome`: what could not start
/// it, or what the command wrote to its error stream.
pub open spec fn resize_failure(outcome: CommandOutcomeView) -> Option<HttpErrorView> {
    let head = "Unable to resize image "@;
    match outcome {
        CommandOutcomeView::SpawnFailed { error } => Some(
            HttpErrorView { status: STATUS_INTERNAL_SERVER_ERROR, msg: head + error },
        ),
        CommandOutcomeView::Exited { success, report, stderr } => if success {
            None
        } else {
            Some(HttpErrorView { status: STATUS_INTERNAL_SERVER_ERROR, msg: head + stderr })
        },
    }
}

fn check_resize(outcome: &CommandOutcome) -> (r: Option<HttpError>)
    ensures
        match resize_failure(outcome@) {
            None => r is None,
            Some(e) => r matches Some(f) && f@ == e,
        },
{
    match outcome {
        CommandOutcome::SpawnFailed { error } => {
            let mut msg = String::from_str("Unable to resize image ");
            msg.append(error.as_str());
            Some(HttpError::new(STATUS_INTERNAL_SERVER_ERROR, msg))
        },
        CommandOutcome::Exited { success, report, stderr } => {
            if *success {
                None
            } else {
                let mut msg = String::from_str("Unable to resize image ");
                msg.append(stderr.as_str());
                Some(HttpError::new(STATUS_INTERNAL_SERVER_ERROR, msg))
            }
        },
    }
}

impl ResizeImageView {
    /// Whether the resizing waits for an event such as `e`.
    pub open spec fn expects(self, e: EventView) -> bool {
        match self.stage {
            ResizeStage::AwaitImage => e is Lookup,
            ResizeStage::AwaitCommand => e is Command,
            ResizeStage::AwaitInfo => e is Info,
            ResizeStage::AwaitStore => e is Stored,
            ResizeStage::Done => false,
        }
    }

    pub open spec fn with_stage(self, stage: ResizeStage) -> ResizeImageView {
        ResizeImageView { stage, ..self }
    }

    /// The resize run of this image.
    pub open spec fn run(self) -> ActionView {
        ActionView::RunQemuImg { args: resize_command(self.path, self.size, self.shrink) }
    }

    /// The resizing's next state and action once `e` has come.
    pub open spec fn next(self, e: EventView) -> (ResizeImageView, ActionView) {
        let done = self.with_stage(ResizeStage::Done);
        match e {
            EventView::Lookup(Err(err)) => (done, finish_err(err)),
            EventView::Lookup(Ok(Err(err))) => (done, finish_err(err)),
            EventView::Lookup(Ok(Ok(image))) => {
                let found = ResizeImageView {
                    name: image.name,
                    path: image.path,
                    stage: ResizeStage::AwaitCommand,
                    ..self
                };
                (found, found.run())
            },
            EventView::Command(outcome) => match resize_failure(outcome) {
                Some(err) => (done, finish_err(err)),
                None => (self.with_stage(ResizeStage::AwaitInfo), ActionView::ReadInfo { path: self.path }),
            },
            EventView::Info(Err(err)) => (done, finish_err(err)),
            EventView::Info(Ok(info)) => (
                self.with_stage(ResizeStage::AwaitStore),
                ActionView::Update {
                    name: self.name,
                    size_actual: info.actual_size,
                    size_virtual: info.virtual_size,
                },
            ),
            EventView::Stored(Err(err)) => (done, finish_err(err)),
            EventView::Stored(Ok(Err(err))) => (done, finish_err(err)),
            EventView::Stored(Ok(Ok(image))) => (done, ActionView::Finish { result: Ok(Some(image)) }),
            _ => (self, ActionView::Halt),
        }
    }
}

impl ResizeImage {
    /// Starts resizing `image` as `payload` asks: the file is resized first.
    pub fn resize(image: &VmImageDb, payload: &VmImageResizePayload) -> (r: (ResizeImage, Action))
        ensures
            r.0@ == (ResizeImageView {
                name: image@.name,
                path: image@.path,
                size: payload.size,
                shrink: payload.shrink,
                stage: ResizeStage::AwaitCommand,
            }),
            r.1@ == r.0@.run(),
            forall|e: EventView| #[trigger] r.0@.expects(e) == answers(r.1@, e),
    {
        let m = ResizeImage {
            name: image.name.clone(),
            path: image.path.clone(),
            payload: *payload,
            stage: Stage::AwaitCommand,
        };
        let a = Action::RunQemuImg {
            args: resize_args(image.path.as_str(), payload.size, payload.shrink),
        };
        (m, a)
    }

    /// Starts resizing the image named `name` as `payload` asks: the image is
    /// looked up first.
    pub fn resize_by_name(name: &str, payload: &VmImageResizePayload) -> (r: (ResizeImage, Action))
        ensures
            r.0@ == (ResizeImageView {
                name: name@,
                path: Seq::empty(),
                size: payload.size,
                shrink: payload.shrink,
                stage: ResizeStage::AwaitImage,
            }),
            r.1@ == (ActionView::Lookup { name: name@ }),
            forall|e: EventView| #[trigger] r.0@.expects(e) == answers(r.1@, e),
    {
        let m = ResizeImage {
            name: name.to_string(),
            path: String::new(),
            payload: *payload,
            stage: Stage::AwaitImage,
        };
        (m, Action::Lookup { name: name.to_string() })
    }

    /// Takes the outcome of the work asked for last.
    pub fn step(&mut self, event: Event) -> (action: Action)
        requires
            old(self)@.expects(event@),
        ensures
            (final(self)@, action@) == old(self)@.next(event@),
            forall|e: EventView| #[trigger] final(self)@.expects(e) == answers(action@, e),
    {
        match event {
            Event::Lookup(Err(err)) => {
                self.stage = Stage::Done;
                Action::Finish { result: Err(err) }
            },
            Event::Lookup(Ok(Err(err))) => {
                self.stage = Stage::Done;
                Action::Finish { result: Err(err) }
            },
            Event::Lookup(Ok(Ok(image))) => {
                let args = resize_args(image.path.as_str(), self.payload.size, self.payload.shrink);
                self.name = image.name;
                self.path = image.path;
                self.stage = Stage::AwaitCommand;
                Action::RunQemuImg { args }
            },
            Event::Command(outcome) => {
                match check_resize(&outcome) {
                    Some(err) => {
                        self.stage = Stage::Done;
                        Action::Finish { result: Err(err) }
                    },
                    None => {
                        self.stage = Stage::AwaitInfo;
                        Action::ReadInfo { path: self.path.clone() }
                    },
                }
            },
            Event::Info(Err(err)) => {
                self.stage = Stage::Done;
                Action::Finish { result: Err(err) }
            },
            Event::Info(Ok(info)) => {
                self.stage = Stage::AwaitStore;
                Action::Update {
                    name: self.name.clone(),
                    update: VmImageUpdateDb {
                        size_actual: info.actual_size,
                        size_virtual: info.virtual_size,
                    },
                }
            },
            Event::Stored(Err(err)) => {
                self.stage = Stage::Done;
                Action::Finish { result: Err(err) }
            },
            Event::Stored(Ok(Err(err))) => {
                self.stage = Stage::Done;
                Action::Finish { result: Err(err) }
            },
            Event::Stored(Ok(Ok(image))) => {
                self.stage = Stage::Done;
                Action::Finish { result: Ok(Some(image)) }
            },
            _ => Action::Halt,
        }
    }
}


impl ResizeImageView {
    /// How many events the resizing may still take.
    pub open spec fn remaining(self) -> nat {
        match self.stage {
            ResizeStage::AwaitImage => 4,
            ResizeStage::AwaitCommand => 3,
            ResizeStage::AwaitInfo => 2,
            ResizeStage::AwaitStore => 1,
            ResizeStage::Done => 0,
        }
    }
}

/// Every event that a resizing expects brings it closer to its end: it ends
/// after at most four events.
pub proof fn lemma_resize_ends(s: ResizeImageView, e: EventView)
    requires
        s.expects(e),
    ensures
        s.next(e).0.remaining() < s.remaining(),
{
}

/// Resizing by name resizes the image that the lookup finds, as resizing that
/// image directly does, and from then on the two go the same way.
pub proof fn lemma_resize_by_name_is_resize(
    name: Seq<char>,
    size: u64,
    shrink: bool,
    image: VmImageView,
)
    ensures
        ({
            let by_name = ResizeImageView {
                name,
                path: Seq::empty(),
                size,
                shrink,
                stage: ResizeStage::AwaitImage,
            };
            let direct = ResizeImageView {
                name: image.name,
                path: image.path,
                size,
                shrink,
                stage: ResizeStage::AwaitCommand,
            };
            by_name.next(EventView::Lookup(Ok(Ok(image)))) == (direct, direct.run())
        }),
{
}

/// When every step succeeds, resizing `image` runs `qemu-img resize` on its
/// file (with `--shrink` when asked), then stores the sizes that `qemu-img
/// info` reports; the stored record is the answer.
pub proof fn lemma_resize_success(
    image: VmImageView,
    size: u64,
    shrink: bool,
    report: Seq<char>,
    stderr: Seq<char>,
    info: QemuImgInfoView,
    stored: VmImageView,
)
    ensures
        ({
            let s0 = ResizeImageView {
                name: image.name,
                path: image.path,
                size,
                shrink,
                stage: ResizeStage::AwaitCommand,
            };
            let (s1, a1) = s0.next(
                EventView::Command(CommandOutcomeView::Exited { success: true, report, stderr }),
            );
            let (s2, a2) = s1.next(EventView::Info(Ok(info)));
            let (s3, a3) = s2.next(EventView::Stored(Ok(Ok(stored))));
            &&& s0.run() == (ActionView::RunQemuImg { args: resize_command(image.path, size, shrink) })
            &&& a1 == (ActionView::ReadInfo { path: image.path })
            &&& a2 == (ActionView::Update {
                name: image.name,
                size_actual: info.actual_size,
                size_virtual: info.virtual_size,
            })
            &&& a3 == (ActionView::Finish { result: Ok(Some(stored)) })
            &&& s3.stage == ResizeStage::Done
        }),
{
}


/// How a resizing answers every outcome it waits for. A failed lookup ends
/// it with its error; a found image is resized with `qemu-img resize` of its
/// file to the requested gigabytes, with `--shrink` exactly when shrinking is
/// allowed. A run that cannot start, or fails, is an internal error with the
/// start error or the command's error stream; the sizes that `qemu-img info`
/// then reports are stored for the image, and the stored record, or the
/// store's error, is the answer.
pub proof fn lemma_resize_answers(s: ResizeImageView, e: EventView)
    requires
        s.expects(e),
    ensures
        s.run() matches ActionView::RunQemuImg { args } && args[0] == "resize"@ && (
        s.shrink ==> args.len() == 4 && args[1] == "--shrink"@) && (!s.shrink ==> args.len() == 3)
            && args[args.len() - 2] == s.path && gigabytes(args.last(), s.size as nat),
        e matches EventView::Lookup(Err(err)) ==> s.next(e).1 == (ActionView::Finish {
            result: Err(err),
        }),
        e matches EventView::Lookup(Ok(Err(err))) ==> s.next(e).1 == (ActionView::Finish {
            result: Err(err),
        }),
        e matches EventView::Lookup(Ok(Ok(image))) ==> s.next(e).0.name == image.name
            && s.next(e).0.path == image.path && s.next(e).1 == s.next(e).0.run(),
        e matches EventView::Command(CommandOutcomeView::SpawnFailed { error }) ==> s.next(e).1
            == (ActionView::Finish {
            result: Err(HttpErrorView { status: 500, msg: "Unable to resize image "@ + error }),
        }),
        e matches EventView::Command(CommandOutcomeView::Exited { success, stderr, .. }) ==> (
        !success ==> s.next(e).1 == (ActionView::Finish {
            result: Err(HttpErrorView { status: 500, msg: "Unable to resize image "@ + stderr }),
        })) && (success ==> s.next(e).1 == (ActionView::ReadInfo { path: s.path })),
        e matches EventView::Info(Ok(info)) ==> s.next(e).1 == (ActionView::Update {
            name: s.name,
            size_actual: info.actual_size,
            size_virtual: info.virtual_size,
        }),
        e matches EventView::Info(Err(err)) ==> s.next(e).1 == (ActionView::Finish {
            result: Err(err),
        }),
        e matches EventView::Stored(Ok(Ok(image))) ==> s.next(e).1 == (ActionView::Finish {
            result: Ok(Some(image)),
        }),
        e matches EventView::Stored(Ok(Err(err))) ==> s.next(e).1 == (ActionView::Finish {
            result: Err(err),
        }),
        e matches EventView::Stored(Err(err)) ==> s.next(e).1 == (ActionView::Finish {
            result: Err(err),
        }),
{
    lemma_command_lines(s.path, s.path, s.size, s.shrink);
    if let EventView::Lookup(Ok(Ok(image))) = e {
        lemma_command_lines(image.path, image.path, s.size, s.shrink);
    }
}

} // verus!
