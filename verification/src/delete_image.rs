//! Deleting an image: its record and its file go, unless other images derive
//! from it.

use vstd::prelude::*;

use crate::error::{HttpErrorView, STATUS_CONFLICT};
use crate::image::VmImageView;
use crate::workflow::{
    RemovalOutcomeView,
    answers, finish_err, has_children, image_error_new, Action, ActionView, Event, EventView,
};

verus! {

enum Stage {
    AwaitImage,
    AwaitChildren { path: String },
    AwaitRemoval,
    AwaitDeletion,
    Done,
}

pub enum DeleteStage {
    AwaitImage,
    AwaitChildren { path: Seq<char> },
    AwaitRemoval,
    AwaitDeletion,
    Done,
}

/// The deletion of the image named `name`.
pub struct DeleteImage {
    name: String,
    stage: Stage,
}

pub struct DeleteImageView {
    pub name: Seq<char>,
    pub stage: DeleteStage,
}

impl View for DeleteImage {
    type V = DeleteImageView;

    closed spec fn view(&self) -> DeleteImageView {
        DeleteImageView {
            name: self.name@,
            stage: match self.stage {
                Stage::AwaitImage => DeleteStage::AwaitImage,
                Stage::AwaitChildren { path } => DeleteStage::AwaitChildren { path: path@ },
                Stage::AwaitRemoval => DeleteStage::AwaitRemoval,
                Stage::AwaitDeletion => DeleteStage::AwaitDeletion,
                Stage::Done => DeleteStage::Done,
            },
        }
    }
}

impl DeleteImageView {
    /// Whether the deletion waits for an event such as `e`.
    pub open spec fn expects(self, e: EventView) -> bool {
        match self.stage {
            DeleteStage::AwaitImage => e is Lookup,
            DeleteStage::AwaitChildren { .. } => e is Children,
            DeleteStage::AwaitRemoval => e is FileRemoved,
            DeleteStage::AwaitDeletion => e is Deleted,
            DeleteStage::Done => false,
        }
    }

    pub open spec fn with_stage(self, stage: DeleteStage) -> DeleteImageView {
        DeleteImageView { stage, ..self }
    }

    /// The deletion's next state and action once `e` has come.
    pub open spec fn next(self, e: EventView) -> (DeleteImageView, ActionView) {
        let done = self.with_stage(DeleteStage::Done);
        match e {
            EventView::Lookup(Err(err)) => (done, finish_err(err)),
            EventView::Lookup(Ok(Err(err))) => (done, finish_err(err)),
            EventView::Lookup(Ok(Ok(image))) => (
                self.with_stage(DeleteStage::AwaitChildren { path: image.path }),
                ActionView::FindChildren { name: self.name },
            ),
            EventView::Children(Err(err)) => (done, finish_err(err)),
            EventView::Children(Ok(n)) => if n > 0 {
                (done, finish_err(has_children(self.name)))
            } else {
                match self.stage {
                    DeleteStage::AwaitChildren { path } => (
                        self.with_stage(DeleteStage::AwaitRemoval),
                        ActionView::RemoveFile { path },
                    ),
                    _ => (self, ActionView::Halt),
                }
            },
            EventView::FileRemoved(_) => (
                self.with_stage(DeleteStage::AwaitDeletion),
                ActionView::DeleteRecord { name: self.name },
            ),
            EventView::Deleted(Err(err)) => (done, finish_err(err)),
            EventView::Deleted(Ok(Err(err))) => (done, finish_err(err)),
            EventView::Deleted(Ok(Ok(()))) => (done, ActionView::Finish { result: Ok(None) }),
            _ => (self, ActionView::Halt),
        }
    }
}

impl DeleteImage {
    /// Starts deleting the image named `name`: it is looked up first.
    pub fn delete_by_name(name: &str) -> (r: (DeleteImage, Action))
        ensures
            r.0@ == (DeleteImageView { name: name@, stage: DeleteStage::AwaitImage }),
            r.1@ == (ActionView::Lookup { name: name@ }),
            forall|e: EventView| #[trigger] r.0@.expects(e) == answers(r.1@, e),
    {
        let m = DeleteImage { name: name.to_string(), stage: Stage::AwaitImage };
        let a = Action::Lookup { name: name.to_string() };
        (m, a)
    }

    /// Takes the outcome of the work asked for last.
    pub fn step(&mut self, event: Event) -> (action: Action)
        requires
            old(self)@.expects(event@),
        ensures
            (final(self)@, action@) == old(self)@.next(event@),
            forall|e: EventView| #[trigger] final(self)@.expects(e) == answers(action@, e),
    {
        match event {
            Event::Lookup(Err(err)) => {
                self.stage = Stage::Done;
                Action::Finish { result: Err(err) }
            },
            Event::Lookup(Ok(Err(err))) => {
                self.stage = Stage::Done;
                Action::Finish { result: Err(err) }
            },
            Event::Lookup(Ok(Ok(image))) => {
                self.stage = Stage::AwaitChildren { path: image.path };
                Action::FindChildren { name: self.name.clone() }
            },
            Event::Children(Err(err)) => {
                self.stage = Stage::Done;
                Action::Finish { result: Err(err) }
            },
            Event::Children(Ok(n)) => {
                if n > 0 {
                    self.stage = Stage::Done;
                    Action::Finish {
                        result: Err(
                            image_error_new(
                                STATUS_CONFLICT,
                                self.name.as_str(),
                                " has children images please delete them first",
                            ),
                        ),
                    }
                } else {
                    let mut stage = Stage::Done;
                    std::mem::swap(&mut stage, &mut self.stage);
                    match stage {
                        Stage::AwaitChildren { path } => {
                            self.stage = Stage::AwaitRemoval;
                            Action::RemoveFile { path }
                        },
                        _ => {
                            self.stage = stage;
                            Action::Halt
                        },
                    }
                }
            },
            Event::FileRemoved(_) => {
                self.stage = Stage::AwaitDeletion;
                Action::DeleteRecord { name: self.name.clone() }
            },
            Event::Deleted(Err(err)) => {
                self.stage = Stage::Done;
                Action::Finish { result: Err(err) }
            },
            Event::Deleted(Ok(Err(err))) => {
                self.stage = Stage::Done;
                Action::Finish { result: Err(err) }
            },
            Event::Deleted(Ok(Ok(()))) => {
                self.stage = Stage::Done;
                Action::Finish { result: Ok(None) }
            },
            _ => Action::Halt,
        }
    }
}


impl DeleteImageView {
    /// How many events the deletion may still take.
    pub open spec fn remaining(self) -> nat {
        match self.stage {
            DeleteStage::AwaitImage => 4,
            DeleteStage::AwaitChildren { .. } => 3,
            DeleteStage::AwaitRemoval => 2,
            DeleteStage::AwaitDeletion => 1,
            DeleteStage::Done => 0,
        }
    }
}

/// Every event that a deletion expects brings it closer to its end: a deletion
/// ends after at most four events.
pub proof fn lemma_delete_ends(s: DeleteImageView, e: EventView)
    requires
        s.expects(e),
    ensures
        s.next(e).0.remaining() < s.remaining(),
{
}

/// Deleting an image that other images derive from answers a conflict and
/// touches neither its file nor its record.
pub proof fn lemma_delete_refuses_parent(name: Seq<char>, image: VmImageView, children: usize)
    requires
        children > 0,
    ensures
        ({
            let s0 = DeleteImageView { name, stage: DeleteStage::AwaitImage };
            let (s1, a1) = s0.next(EventView::Lookup(Ok(Ok(image))));
            let (s2, a2) = s1.next(EventView::Children(Ok(children)));
            &&& a1 == (ActionView::FindChildren { name })
            &&& a2 == finish_err(has_children(name))
            &&& !s2.expects(EventView::FileRemoved(RemovalOutcomeView::Removed))
            &&& !s2.expects(EventView::Deleted(Ok(Ok(()))))
        }),
{
}

/// Deleting an image that no image derives from removes its file, then its
/// record, and succeeds. A file that cannot be removed is only reported to the
/// log: the record is deleted all the same.
pub proof fn lemma_delete_success(name: Seq<char>, image: VmImageView, removal: RemovalOutcomeView)
    ensures
        ({
            let s0 = DeleteImageView { name, stage: DeleteStage::AwaitImage };
            let (s1, a1) = s0.next(EventView::Lookup(Ok(Ok(image))));
            let (s2, a2) = s1.next(EventView::Children(Ok(0)));
            let (s3, a3) = s2.next(EventView::FileRemoved(removal));
            let (s4, a4) = s3.next(EventView::Deleted(Ok(Ok(()))));
            &&& a1 == (ActionView::FindChildren { name })
            &&& a2 == (ActionView::RemoveFile { path: image.path })
            &&& a3 == (ActionView::DeleteRecord { name })
            &&& a4 == (ActionView::Finish { result: Ok(None) })
        }),
{
}



/// How a deletion answers every outcome it waits for. A failed lookup or
/// children query ends it with that error; an image that others derive from
/// is refused with a conflict; the file is removed only once the children
/// query has found none, the record deleted only after that removal, and
/// success answered only once the record is deleted.
pub proof fn lemma_delete_answers(s: DeleteImageView, e: EventView)
    requires
        s.expects(e),
    ensures
        e matches EventView::Lookup(Err(err)) ==> s.next(e).1 == (ActionView::Finish {
            result: Err(err),
        }) && s.next(e).0.stage == DeleteStage::Done,
        e matches EventView::Lookup(Ok(Err(err))) ==> s.next(e).1 == (ActionView::Finish {
            result: Err(err),
        }) && s.next(e).0.stage == DeleteStage::Done,
        e matches EventView::Lookup(Ok(Ok(image))) ==> s.next(e).1 == (ActionView::FindChildren {
            name: s.name,
        }) && s.next(e).0.stage == (DeleteStage::AwaitChildren { path: image.path }),
        e matches EventView::Children(Err(err)) ==> s.next(e).1 == (ActionView::Finish {
            result: Err(err),
        }) && s.next(e).0.stage == DeleteStage::Done,
        e matches EventView::Children(Ok(n)) && n > 0 ==> s.next(e).1 == (ActionView::Finish {
            result: Err(
                HttpErrorView {
                    status: 409,
                    msg: "Vm image "@ + s.name + " has children images please delete them first"@,
                },
            ),
        }) && s.next(e).0.stage == DeleteStage::Done,
        e == EventView::Children(Ok(0)) ==> (s.stage matches DeleteStage::AwaitChildren { path }
            && s.next(e).1 == (ActionView::RemoveFile { path })),
        s.next(e).1 is RemoveFile ==> e == EventView::Children(Ok(0)),
        s.next(e).1 is DeleteRecord ==> e is FileRemoved,
        e is FileRemoved ==> s.next(e).1 == (ActionView::DeleteRecord { name: s.name }),
        e matches EventView::Deleted(Err(err)) ==> s.next(e).1 == (ActionView::Finish {
            result: Err(err),
        }),
        e matches EventView::Deleted(Ok(Err(err))) ==> s.next(e).1 == (ActionView::Finish {
            result: Err(err),
        }),
        s.next(e).1 == (ActionView::Finish { result: Ok(None) }) ==> e matches EventView::Deleted(
            Ok(Ok(_)),
        ),
{
}

} // verus!
