//! Properties that hold of the membership operations and of the controller
//! across several steps.
use vstd::prelude::*;
use crate::controller::{accepts, next, ActionView, ControllerError, ControllerView, InputView, Phase};
use crate::event::{
    apply_event, apply_events, lemma_apply_events, lemma_occurrences, occurrences, pods_after_all,
    MemberEventView,
};
use crate::topology::{add_member, lemma_add_member, lemma_remove_member, lemma_snapshot, remove_member,
    snapshot,
};

verus! {

/// Publishing is idempotent: once the cluster acknowledges a record, the
/// stored record is the one that was sent, and it lists no pod twice; when
/// that same record was already stored, the stored record stays as it was.
pub proof fn lemma_publish_idempotent(c: ControllerView)
    requires
        c.wf(),
        c.phase == Phase::Publishing,
    ensures
        next(c, InputView::Published).0.stored == Some(c.spec),
        c.spec.pods.no_duplicates(),
        c.stored == Some(c.spec) ==> next(c, InputView::Published).0.stored == c.stored,
        next(c, InputView::Published).0.wf(),
{
}

/// However many times a pod is reported to appear, the member list holds it
/// exactly once.
pub proof fn lemma_append_guard(m: Seq<Seq<char>>, x: Seq<char>, es: Seq<MemberEventView>)
    requires
        m.no_duplicates(),
        es.len() > 0,
        forall|i: int| 0 <= i < es.len() ==> es[i] == MemberEventView::Appeared(x),
    ensures
        occurrences(apply_events(m, es), x) == 1,
{
    lemma_apply_events(m, es);
    let before = apply_events(m, es.drop_last());
    assert(es.last() == MemberEventView::Appeared(x));
    lemma_add_member(before, x);
    assert(apply_events(m, es) == add_member(before, x));
    lemma_occurrences(apply_events(m, es), x);
}

/// A pod that disappears leaves no occurrence of its name behind, even if
/// the list held it more than once, and every other name stays.
pub proof fn lemma_remove_all(m: Seq<Seq<char>>, x: Seq<char>)
    ensures
        occurrences(apply_event(m, MemberEventView::Disappeared(x)), x) == 0,
        forall|y: Seq<char>|
            y != x ==> (apply_event(m, MemberEventView::Disappeared(x)).contains(y) <==> m.contains(y)),
{
    lemma_remove_member(m, x);
    assert(apply_event(m, MemberEventView::Disappeared(x)) == remove_member(m, x));

    lemma_occurrences(apply_event(m, MemberEventView::Disappeared(x)), x);
}

/// Starting from the snapshot of a listing, after any run of events the
/// member list holds exactly the pods that the listing and the events leave
/// in existence, each once, whatever order the list keeps them in.
pub proof fn lemma_order_independence(names: Seq<Seq<char>>, es: Seq<MemberEventView>)
    ensures
        apply_events(snapshot(names), es).to_set() == pods_after_all(names.to_set(), es),
        apply_events(snapshot(names), es).no_duplicates(),
{
    lemma_snapshot(names);
    assert(snapshot(names).to_set() =~= names.to_set());
    lemma_apply_events(snapshot(names), es);
}

/// An event other than an appearance or a disappearance changes neither the
/// in-memory record nor the stored one, and nothing is published.
pub proof fn lemma_other_event_no_op(c: ControllerView)
    requires
        c.wf(),
        c.phase == Phase::Watching,
    ensures
        accepts(c.phase, InputView::Event(MemberEventView::Other)),
        next(c, InputView::Event(MemberEventView::Other)) == (c, ActionView::NextEvent),
{
}

/// When the resource type is not established in time, the controller stops
/// with a registration timeout and has published nothing.
pub proof fn lemma_timeout_aborts(c: ControllerView)
    requires
        c.wf(),
        c.phase == Phase::AwaitingEstablished,
    ensures
        next(c, InputView::EstablishTimedOut).1 == ActionView::Exit(ControllerError::RegistrationTimeout),
        next(c, InputView::EstablishTimedOut).0.phase == Phase::Stopped(ControllerError::RegistrationTimeout),
        next(c, InputView::EstablishTimedOut).0.stored is None,
        forall|i: InputView| !accepts(next(c, InputView::EstablishTimedOut).0.phase, i),
{
}

} // verus!
