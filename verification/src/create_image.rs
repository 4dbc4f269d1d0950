//! Recording an uploaded image file as a new `Base` image.

use vstd::prelude::*;

use crate::error::{HttpError, HttpErrorView};
use crate::image::{QemuImgInfoView, base_kind, image_from_info, NewVmImage, VmImageView};
use crate::workflow::{RemovalOutcomeView, answers, finish_err, Action, ActionView, Event, EventView};

verus! {

enum Stage {
    AwaitInfo,
    AwaitCleanup { error: HttpError },
    AwaitStore,
    Done,
}

pub enum CreateStage {
    AwaitInfo,
    AwaitCleanup { error: HttpErrorView },
    AwaitStore,
    Done,
}

/// The recording of the file at `path` as the new image `name`.
pub struct CreateImage {
    name: String,
    path: String,
    stage: Stage,
}

pub struct CreateImageView {
    pub name: Seq<char>,
    pub path: Seq<char>,
    pub stage: CreateStage,
}

impl View for CreateImage {
    type V = CreateImageView;

    closed spec fn view(&self) -> CreateImageView {
        CreateImageView {
            name: self.name@,
            path: self.path@,
            stage: match self.stage {
                Stage::AwaitInfo => CreateStage::AwaitInfo,
                Stage::AwaitCleanup { error } => CreateStage::AwaitCleanup { error: error@ },
                Stage::AwaitStore => CreateStage::AwaitStore,
                Stage::Done => CreateStage::Done,
            },
        }
    }
}

impl CreateImageView {
    /// Whether the recording waits for an event such as `e`.
    pub open spec fn expects(self, e: EventView) -> bool {
        match self.stage {
            CreateStage::AwaitInfo => e is Info,
            CreateStage::AwaitCleanup { .. } => e is FileRemoved,
            CreateStage::AwaitStore => e is Stored,
            CreateStage::Done => false,
        }
    }

    pub open spec fn with_stage(self, stage: CreateStage) -> CreateImageView {
        CreateImageView { stage, ..self }
    }

    /// The recording's next state and action once `e` has come. A file that
    /// `qemu-img` cannot describe is removed before the error is answered;
    /// whether the removal succeeds does not change the answer.
    pub open spec fn next(self, e: EventView) -> (CreateImageView, ActionView) {
        let done = self.with_stage(CreateStage::Done);
        match e {
            EventView::Info(Err(err)) => (
                self.with_stage(CreateStage::AwaitCleanup { error: err }),
                ActionView::RemoveFile { path: self.path },
            ),
            EventView::Info(Ok(info)) => (
                self.with_stage(CreateStage::AwaitStore),
                ActionView::Insert {
                    image: image_from_info(self.name, base_kind(), self.path, info, None),
                },
            ),
            EventView::FileRemoved(_) => match self.stage {
                CreateStage::AwaitCleanup { error } => (done, finish_err(error)),
                _ => (self, ActionView::Halt),
            },
            EventView::Stored(Err(err)) => (done, finish_err(err)),
            EventView::Stored(Ok(Err(err))) => (done, finish_err(err)),
            EventView::Stored(Ok(Ok(image))) => (done, ActionView::Finish { result: Ok(Some(image)) }),
            _ => (self, ActionView::Halt),
        }
    }
}

impl CreateImage {
    /// Starts recording the file at `filepath` as the new image `name`: the
    /// file is described by `qemu-img` first.
    pub fn create(name: &str, filepath: &str) -> (r: (CreateImage, Action))
        ensures
            r.0@ == (CreateImageView { name: name@, path: filepath@, stage: CreateStage::AwaitInfo }),
            r.1@ == (ActionView::ReadInfo { path: filepath@ }),
            forall|e: EventView| #[trigger] r.0@.expects(e) == answers(r.1@, e),
    {
        let m = CreateImage { name: name.to_string(), path: filepath.to_string(), stage: Stage::AwaitInfo };
        (m, Action::ReadInfo { path: filepath.to_string() })
    }

    /// Takes the outcome of the work asked for last.
    pub fn step(&mut self, event: Event) -> (action: Action)
        requires
            old(self)@.expects(event@),
        ensures
            (final(self)@, action@) == old(self)@.next(event@),
            forall|e: EventView| #[trigger] final(self)@.expects(e) == answers(action@, e),
    {
        match event {
            Event::Info(Err(err)) => {
                self.stage = Stage::AwaitCleanup { error: err };
                Action::RemoveFile { path: self.path.clone() }
            },
            Event::Info(Ok(info)) => {
                self.stage = Stage::AwaitStore;
                Action::Insert {
                    image: NewVmImage::from_info(self.name.as_str(), "Base", self.path.as_str(), &info, None),
                }
            },
            Event::FileRemoved(_) => {
                let mut stage = Stage::Done;
                std::mem::swap(&mut stage, &mut self.stage);
                match stage {
                    Stage::AwaitCleanup { error } => Action::Finish { result: Err(error) },
                    _ => {
                        self.stage = stage;
                        Action::Halt
                    },
                }
            },
            Event::Stored(Err(err)) => {
                self.stage = Stage::Done;
                Action::Finish { result: Err(err) }
            },
            Event::Stored(Ok(Err(err))) => {
                self.stage = Stage::Done;
                Action::Finish { result: Err(err) }
            },
            Event::Stored(Ok(Ok(image))) => {
                self.stage = Stage::Done;
                Action::Finish { result: Ok(Some(image)) }
            },
            _ => Action::Halt,
        }
    }
}


impl CreateImageView {
    /// How many events the recording may still take.
    pub open spec fn remaining(self) -> nat {
        match self.stage {
            CreateStage::AwaitInfo => 2,
            CreateStage::AwaitCleanup { .. } => 1,
            CreateStage::AwaitStore => 1,
            CreateStage::Done => 0,
        }
    }
}

/// Every event that a recording expects brings it closer to its end: it ends
/// after at most two events.
pub proof fn lemma_create_ends(s: CreateImageView, e: EventView)
    requires
        s.expects(e),
    ensures
        s.next(e).0.remaining() < s.remaining(),
{
}

/// A file that `qemu-img` cannot describe is removed, and the error that
/// describing it gave is the answer; nothing is stored.
pub proof fn lemma_create_discards_unreadable(
    name: Seq<char>,
    path: Seq<char>,
    err: HttpErrorView,
    removal: RemovalOutcomeView,
)
    ensures
        ({
            let s0 = CreateImageView { name, path, stage: CreateStage::AwaitInfo };
            let (s1, a1) = s0.next(EventView::Info(Err(err)));
            let (s2, a2) = s1.next(EventView::FileRemoved(removal));
            &&& a1 == (ActionView::RemoveFile { path })
            &&& a2 == finish_err(err)
            &&& s2.stage == CreateStage::Done
        }),
{
}

/// A file that `qemu-img` describes is stored as a `Base` image without
/// parent, at the path it was uploaded to; the stored record is the answer.
pub proof fn lemma_create_success(
    name: Seq<char>,
    path: Seq<char>,
    info: QemuImgInfoView,
    stored: VmImageView,
)
    ensures
        ({
            let s0 = CreateImageView { name, path, stage: CreateStage::AwaitInfo };
            let (s1, a1) = s0.next(EventView::Info(Ok(info)));
            let (s2, a2) = s1.next(EventView::Stored(Ok(Ok(stored))));
            &&& a1 == (ActionView::Insert { image: image_from_info(name, base_kind(), path, info, None) })
            &&& a2 == (ActionView::Finish { result: Ok(Some(stored)) })
            &&& s2.stage == CreateStage::Done
        }),
{
}


/// How a recording answers every outcome it waits for. A described file is
/// recorded as a `Base` image without parent at its path, with the format
/// and sizes that `qemu-img info` reports, whatever they are; a file that
/// cannot be described is removed and the error answered; the stored record,
/// or the store's error, is the answer.
pub proof fn lemma_create_answers(s: CreateImageView, e: EventView)
    requires
        s.expects(e),
    ensures
        e matches EventView::Info(Ok(info)) ==> s.next(e).1 matches ActionView::Insert { image }
            && image.name == s.name && image.kind == "Base"@ && image.path == s.path
            && image.format == info.format && image.size_actual == info.actual_size
            && image.size_virtual == info.virtual_size && image.parent is None,
        e matches EventView::Info(Err(err)) ==> s.next(e).1 == (ActionView::RemoveFile {
            path: s.path,
        }) && s.next(e).0.stage == (CreateStage::AwaitCleanup { error: err }),
        e is FileRemoved ==> (s.stage matches CreateStage::AwaitCleanup { error } && s.next(e).1
            == (ActionView::Finish { result: Err(error) })),
        e matches EventView::Stored(Ok(Ok(image))) ==> s.next(e).1 == (ActionView::Finish {
            result: Ok(Some(image)),
        }),
        e matches EventView::Stored(Ok(Err(err))) ==> s.next(e).1 == (ActionView::Finish {
            result: Err(err),
        }),
        e matches EventView::Stored(Err(err)) ==> s.next(e).1 == (ActionView::Finish {
            result: Err(err),
        }),
{
}

} // verus!
