//! Properties of a run that hold across its steps.
use vstd::prelude::*;
use crate::answer::Answer;
use crate::error::XiloError;
use crate::relocation::{is_planned, Question, Removal};
use crate::session::{is_destructive, Action, Event, Session};

verus! {

/// Declining a confirmation removes nothing and is no error: the declined
/// target is skipped (or the trashbin kept), and the run goes on or ends in success.
pub proof fn law_declining_changes_nothing(pre: Session, post: Session, a: Action)
    requires
        pre.wf(),
        pre.phase is AwaitAnswer || pre.phase is AwaitResetAnswer,
        Session::transition(pre, Event::Answered(Answer::No), post, a),
    ensures
        !is_destructive(a),
        !(a matches Action::Finish(Err(_))),
        pre.phase is AwaitAnswer ==> post.current == pre.current + 1,
{
}

/// A directory without the recursive flag is refused with the policy error,
/// whatever the force and permanent flags, and the run stops there.
pub proof fn law_directory_needs_recursive(pre: Session, timestamp: String, post: Session, a: Action)
    requires
        pre.wf(),
        pre.phase is AwaitInspection,
        !pre.flags.recursive,
        Session::transition(pre, Event::Inspected { is_dir: true, timestamp }, post, a),
    ensures
        post.phase is Finished,
        a matches Action::Finish(Err(XiloError::RemoveDirWithoutRecursiveFlag { path })) && path@
            == pre.target(),
{
    let r = choose|r: Result<Removal, XiloError>|
        is_planned(r, pre.target(), true, pre.flags, pre.trashbin@, timestamp@) && match r {
            Err(e) => crate::session::fails_with(pre, post, a, e),
            Ok(_) => false,
        };
}

/// Permanent mode always asks before deleting, even with the force flag:
/// the step after looking at the target is the question, never the deletion.
pub proof fn law_permanent_always_asks(
    pre: Session,
    is_dir: bool,
    timestamp: String,
    post: Session,
    a: Action,
)
    requires
        pre.wf(),
        pre.phase is AwaitInspection,
        pre.flags.permanent,
        !is_dir || pre.flags.recursive,
        Session::transition(pre, Event::Inspected { is_dir, timestamp }, post, a),
    ensures
        post.phase is AwaitAnswer,
        a matches Action::Ask(Question::RemovePermanently { path }) && path@ == pre.target(),
        !is_destructive(a),
{
}

/// The first error ends the run: the session is finished, the target at
/// hand is the one that failed, and no later target is looked at, since a
/// finished session takes no further event.
pub proof fn law_first_error_ends_run(pre: Session, ev: Event, post: Session, a: Action)
    requires
        pre.wf(),
        !(pre.phase is Finished),
        Session::transition(pre, ev, post, a),
        a matches Action::Finish(Err(_)),
    ensures
        post.phase is Finished,
        post.current == pre.current,
{
}

} // verus!
