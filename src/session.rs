//! A run over a batch of targets, as a state machine. The caller performs
//! each `Action` (a prompt, a filesystem operation, a look at a target) and
//! feeds the outcome back as an `Event`, until the session hands out `Finish`.
use vstd::prelude::*;
use crate::answer::Answer;
use crate::error::XiloError;
use crate::relocation::{
    asks_for, is_planned, needs_confirmation, plan_removal, reports_failure, Flags, Question,
    Removal,
};

verus! {

/// What the caller is asked to do next.
#[derive(Debug, PartialEq, Eq)]
pub enum Action {
    /// Put a question to the user; answer with `Answered` or `ConsoleFailed`.
    Ask(Question),
    /// Create the directory if it does not exist; answer with `Succeeded` or `Failed`.
    CreateDirIfMissing(String),
    /// Remove a directory and everything in it; answer with `Succeeded` or `Failed`.
    RemoveDirAll(String),
    /// Remove a file; answer with `Succeeded` or `Failed`.
    RemoveFile(String),
    /// Rename `from` to `to`; answer with `Succeeded` or `Failed`.
    Rename { from: String, to: String },
    /// Tell whether the target is a directory and read the clock; answer with `Inspected`.
    Inspect(String),
    /// The run is over, with this outcome.
    Finish(Result<(), XiloError>),
}

/// What the caller reports back.
#[derive(Clone, Debug, PartialEq, Eq)]
pub enum Event {
    Answered(Answer),
    ConsoleFailed(String),
    Inspected { is_dir: bool, timestamp: String },
    Succeeded,
    Failed(String),
}

/// Where a session stands: what it last asked for.
#[derive(Clone, Debug, PartialEq, Eq)]
pub enum Phase {
    AwaitResetAnswer,
    AwaitReset,
    AwaitTrashbin,
    AwaitInspection,
    AwaitAnswer { removal: Removal },
    AwaitOperation { removal: Removal },
    Finished,
}

/// A run: its flags, its trashbin, its targets in order, and the index of
/// the target at hand.
pub struct Session {
    pub flags: Flags,
    pub trashbin: String,
    pub targets: Vec<String>,
    pub current: usize,
    pub phase: Phase,
}

/// The operations that take something away from the filesystem.
pub open spec fn is_destructive(a: Action) -> bool {
    ||| a is RemoveDirAll
    ||| a is RemoveFile
    ||| a is Rename
}

/// Whether `a` carries out `r`.
pub open spec fn performs(a: Action, r: Removal) -> bool {
    match r {
        Removal::Trash { from, to, .. } => a matches Action::Rename { from: f, to: t } && f@
            == from@ && t@ == to@,
        Removal::Delete { path, is_dir } => if is_dir {
            a matches Action::RemoveDirAll(p) && p@ == path@
        } else {
            a matches Action::RemoveFile(p) && p@ == path@
        },
    }
}

/// Whether the session ended with error `e`.
pub open spec fn fails_with(pre: Session, post: Session, a: Action, e: XiloError) -> bool {
    &&& post.phase is Finished
    &&& post.current == pre.current
    &&& a == Action::Finish(Err(e))
}

impl Session {
    /// Targets are looked at only while one is at hand.
    pub open spec fn wf(&self) -> bool {
        match self.phase {
            Phase::AwaitInspection | Phase::AwaitAnswer { .. } | Phase::AwaitOperation { .. } => {
                self.current < self.targets.len()
            },
            _ => self.current <= self.targets.len(),
        }
    }

    /// The path of the target at hand.
    pub open spec fn target(&self) -> Seq<char> {
        self.targets@[self.current as int]@
    }

    /// `post` follows `pre` with every setting and the target list kept.
    pub open spec fn keeps_setup(pre: Session, post: Session) -> bool {
        &&& post.flags == pre.flags
        &&& post.trashbin == pre.trashbin
        &&& post.targets == pre.targets
    }

    /// Moving on from the target at hand: look at the next one, or finish
    /// with success after the last.
    pub open spec fn advances(pre: Session, post: Session, a: Action) -> bool {
        &&& post.current == pre.current + 1
        &&& if post.current < pre.targets.len() {
            post.phase is AwaitInspection && (a matches Action::Inspect(p) && p@ == post.target())
        } else {
            post.phase is Finished && a == Action::Finish(Ok(()))
        }
    }

    /// Starting on the targets once the trashbin exists.
    pub open spec fn begins_targets(pre: Session, post: Session, a: Action) -> bool {
        &&& post.current == 0
        &&& if pre.targets.len() > 0 {
            post.phase is AwaitInspection && (a matches Action::Inspect(p) && p@ == post.target())
        } else {
            post.phase is Finished && a == Action::Finish(Ok(()))
        }
    }

    /// Making sure the trashbin exists.
    pub open spec fn prepares_trashbin(pre: Session, post: Session, a: Action) -> bool {
        &&& post.current == pre.current
        &&& post.phase is AwaitTrashbin
        &&& a matches Action::CreateDirIfMissing(p) && p@ == pre.trashbin@
    }

    /// The session's response to `ev`: `post` and `a` as owed from `pre`.
    pub open spec fn transition(pre: Session, ev: Event, post: Session, a: Action) -> bool {
        &&& Session::keeps_setup(pre, post)
        &&& match (pre.phase, ev) {
            (Phase::AwaitResetAnswer, Event::Answered(Answer::Yes)) => {
                &&& post.current == pre.current
                &&& post.phase is AwaitReset
                &&& a matches Action::RemoveDirAll(p) && p@ == pre.trashbin@
            },
            (Phase::AwaitResetAnswer, Event::Answered(Answer::No)) => Session::prepares_trashbin(
                pre,
                post,
                a,
            ),
            (Phase::AwaitReset, Event::Succeeded) => Session::prepares_trashbin(pre, post, a),
            (Phase::AwaitReset, Event::Failed(d)) => post.phase is Finished && post.current == pre.current && (a matches Action::Finish(
                Err(XiloError::RippingTrashbinFailed { path, detail }),
            ) && path@ == pre.trashbin@ && detail@ == d@),
            (Phase::AwaitTrashbin, Event::Succeeded) => Session::begins_targets(pre, post, a),
            (Phase::AwaitTrashbin, Event::Failed(d)) => post.phase is Finished && post.current == pre.current && (a matches Action::Finish(
                Err(XiloError::XiloInitFailed { path, detail }),
            ) && path@ == pre.trashbin@ && detail@ == d@),
            (Phase::AwaitInspection, Event::Inspected { is_dir, timestamp }) => {
                &&& post.current == pre.current
                &&& exists|r: Result<Removal, XiloError>|
                    #![trigger is_planned(r, pre.target(), is_dir, pre.flags, pre.trashbin@, timestamp@)]
                    is_planned(r, pre.target(), is_dir, pre.flags, pre.trashbin@, timestamp@)
                        && match r {
                        Err(e) => fails_with(pre, post, a, e),
                        Ok(removal) => if needs_confirmation(removal, pre.flags) {
                            post.phase == (Phase::AwaitAnswer { removal }) && (a matches Action::Ask(q)
                                && asks_for(q, removal))
                        } else {
                            post.phase == (Phase::AwaitOperation { removal }) && performs(
                                a,
                                removal,
                            )
                        },
                    }
            },
            (Phase::AwaitAnswer { removal }, Event::Answered(Answer::Yes)) => {
                &&& post.current == pre.current
                &&& post.phase == (Phase::AwaitOperation { removal })
                &&& performs(a, removal)
            },
            (Phase::AwaitAnswer { .. }, Event::Answered(Answer::No)) => Session::advances(
                pre,
                post,
                a,
            ),
            (Phase::AwaitOperation { .. }, Event::Succeeded) => Session::advances(pre, post, a),
            (Phase::AwaitOperation { removal }, Event::Failed(d)) => post.phase is Finished
                && post.current == pre.current && (a matches Action::Finish(Err(e)) && reports_failure(e, removal, d@)),
            (_, Event::ConsoleFailed(d)) => post.phase is Finished && post.current == pre.current && (a matches Action::Finish(
                Err(XiloError::Unexpected { detail }),
            ) && detail@ == d@),
            _ => post.phase is Finished && post.current == pre.current && a matches Action::Finish(
                Err(XiloError::Unexpected { .. }),
            ),
        }
    }
}

/// The action that carries out `r`.
fn perform(r: &Removal) -> (a: Action)
    ensures
        performs(a, *r),
{
    match r {
        Removal::Trash { from, to, .. } => Action::Rename { from: from.clone(), to: to.clone() },
        Removal::Delete { path, is_dir } => if *is_dir {
            Action::RemoveDirAll(path.clone())
        } else {
            Action::RemoveFile(path.clone())
        },
    }
}

impl Session {
    /// What a new session owes: with no targets, permanent mode empties the
    /// trashbin after asking, and without it there is nothing to do; with
    /// targets, the trashbin is made sure of first.
    pub open spec fn starts(flags: Flags, trashbin: Seq<char>, targets: Seq<String>, s: Session, a: Action) -> bool {
        &&& s.flags == flags
        &&& s.trashbin@ == trashbin
        &&& s.targets@ == targets
        &&& s.current == 0
        &&& if targets.len() > 0 {
            s.phase is AwaitTrashbin && (a matches Action::CreateDirIfMissing(p) && p@ == trashbin)
        } else if flags.permanent {
            s.phase is AwaitResetAnswer && (a matches Action::Ask(
                Question::EmptyTrashbin { trashbin: t },
            ) && t@ == trashbin)
        } else {
            s.phase is Finished && a == Action::Finish(Ok(()))
        }
    }

    /// Opens a run over `targets` and returns its first action.
    pub fn start(flags: Flags, trashbin: String, targets: Vec<String>) -> (r: (Session, Action))
        ensures
            r.0.wf(),
            Session::starts(flags, trashbin@, targets@, r.0, r.1),
    {
        let (phase, action) = if targets.len() > 0 {
            (Phase::AwaitTrashbin, Action::CreateDirIfMissing(trashbin.clone()))
        } else if flags.permanent {
            (
                Phase::AwaitResetAnswer,
                Action::Ask(Question::EmptyTrashbin { trashbin: trashbin.clone() }),
            )
        } else {
            (Phase::Finished, Action::Finish(Ok(())))
        };
        (Session { flags, trashbin, targets, current: 0, phase }, action)
    }

    /// Whether the run is over.
    pub fn is_finished(&self) -> (r: bool)
        ensures
            r == self.phase is Finished,
    {
        matches!(self.phase, Phase::Finished)
    }

    /// Moves on from the target at hand.
    fn advance(&mut self) -> (a: Action)
        requires
            old(self).current < old(self).targets.len(),
        ensures
            Session::keeps_setup(*old(self), *final(self)),
            Session::advances(*old(self), *final(self), a),
            final(self).wf(),
    {
        self.current = self.current + 1;
        if self.current < self.targets.len() {
            self.phase = Phase::AwaitInspection;
            Action::Inspect(self.targets[self.current].clone())
        } else {
            self.phase = Phase::Finished;
            Action::Finish(Ok(()))
        }
    }

    /// Ends the run with `e`.
    fn fail(&mut self, e: XiloError) -> (a: Action)
        requires
            old(self).current <= old(self).targets.len(),
        ensures
            Session::keeps_setup(*old(self), *final(self)),
            final(self).current == old(self).current,
            fails_with(*old(self), *final(self), a, e),
            final(self).wf(),
    {
        self.phase = Phase::Finished;
        Action::Finish(Err(e))
    }

    /// Asks for the trashbin to exist.
    fn prepare_trashbin(&mut self) -> (a: Action)
        requires
            old(self).current <= old(self).targets.len(),
        ensures
            Session::keeps_setup(*old(self), *final(self)),
            Session::prepares_trashbin(*old(self), *final(self), a),
            final(self).wf(),
    {
        self.phase = Phase::AwaitTrashbin;
        Action::CreateDirIfMissing(self.trashbin.clone())
    }

    /// Takes in the outcome of the last action and returns the next one.
    pub fn step(&mut self, ev: Event) -> (a: Action)
        requires
            old(self).wf(),
            !(old(self).phase is Finished),
        ensures
            final(self).wf(),
            Session::transition(*old(self), ev, *final(self), a),
    {
        let mut phase = Phase::Finished;
        std::mem::swap(&mut phase, &mut self.phase);
        match (phase, ev) {
            (Phase::AwaitResetAnswer, Event::Answered(Answer::Yes)) => {
                self.phase = Phase::AwaitReset;
                Action::RemoveDirAll(self.trashbin.clone())
            },
            (Phase::AwaitResetAnswer, Event::Answered(Answer::No)) => self.prepare_trashbin(),
            (Phase::AwaitReset, Event::Succeeded) => self.prepare_trashbin(),
            (Phase::AwaitReset, Event::Failed(detail)) => {
                let path = self.trashbin.clone();
                self.fail(XiloError::RippingTrashbinFailed { path, detail })
            },
            (Phase::AwaitTrashbin, Event::Succeeded) => {
                self.current = 0;
                if self.targets.len() > 0 {
                    self.phase = Phase::AwaitInspection;
                    Action::Inspect(self.targets[0].clone())
                } else {
                    self.phase = Phase::Finished;
                    Action::Finish(Ok(()))
                }
            },
            (Phase::AwaitTrashbin, Event::Failed(detail)) => {
                let path = self.trashbin.clone();
                self.fail(XiloError::XiloInitFailed { path, detail })
            },
            (Phase::AwaitInspection, Event::Inspected { is_dir, timestamp }) => {
                let planned = plan_removal(
                    self.targets[self.current].as_str(),
                    is_dir,
                    self.flags,
                    self.trashbin.as_str(),
                    timestamp.as_str(),
                );
                assert(is_planned(planned, old(self).target(), is_dir, old(self).flags, old(self).trashbin@, timestamp@));
                match planned {
                    Err(e) => self.fail(e),
                    Ok(removal) => {
                        if matches!(removal, Removal::Delete { .. }) || !self.flags.force {
                            let q = removal.question();
                            self.phase = Phase::AwaitAnswer { removal };
                            Action::Ask(q)
                        } else {
                            let a = perform(&removal);
                            self.phase = Phase::AwaitOperation { removal };
                            a
                        }
                    },
                }
            },
            (Phase::AwaitAnswer { removal }, Event::Answered(Answer::Yes)) => {
                let a = perform(&removal);
                self.phase = Phase::AwaitOperation { removal };
                a
            },
            (Phase::AwaitAnswer { .. }, Event::Answered(Answer::No)) => self.advance(),
            (Phase::AwaitOperation { .. }, Event::Succeeded) => self.advance(),
            (Phase::AwaitOperation { removal }, Event::Failed(detail)) => {
                let e = removal.failure(detail);
                self.fail(e)
            },
            (_, Event::ConsoleFailed(detail)) => self.fail(XiloError::Unexpected { detail }),
            _ => self.fail(XiloError::Unexpected { detail: String::new() }),
        }
    }
}

/// Whether to note that the recursive flag has no effect: there is at
/// least one target and none of them is a directory.
pub fn recursive_flag_unused(is_dir: &[bool]) -> (r: bool)
    ensures
        r == (is_dir@.len() > 0 && forall|i: int| 0 <= i < is_dir@.len() ==> !is_dir@[i]),
{
    let mut i: usize = 0;
    while i < is_dir.len()
        invariant
            i <= is_dir@.len(),
            forall|j: int| 0 <= j < i ==> !is_dir@[j],
        decreases is_dir@.len() - i,
    {
        if is_dir[i] {
            return false;
        }
        i = i + 1;
    }
    is_dir.len() > 0
}

} // verus!
