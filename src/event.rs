//! Membership change events and what each does to the member list.
use vstd::prelude::*;
use crate::topology::{
    add_member, lemma_add_member, lemma_push_contains, lemma_remove_member, remove_member,
    TopologySpec,
};

verus! {

/// A change in the namespace's pods, as the watch stream reports it.
pub enum MemberEvent {
    /// A pod with this name was created or updated.
    Appeared(String),
    /// A pod with this name was deleted.
    Disappeared(String),
    /// Any other notice of the stream (a restart, a bookmark).
    Other,
}

/// What a `MemberEvent` holds, as plain values.
pub enum MemberEventView {
    Appeared(Seq<char>),
    Disappeared(Seq<char>),
    Other,
}

impl View for MemberEvent {
    type V = MemberEventView;

    open spec fn view(&self) -> MemberEventView {
        match self {
            MemberEvent::Appeared(s) => MemberEventView::Appeared(s@),
            MemberEvent::Disappeared(s) => MemberEventView::Disappeared(s@),
            MemberEvent::Other => MemberEventView::Other,
        }
    }
}

/// The member list after one event.
pub open spec fn apply_event(m: Seq<Seq<char>>, e: MemberEventView) -> Seq<Seq<char>> {
    match e {
        MemberEventView::Appeared(x) => add_member(m, x),
        MemberEventView::Disappeared(x) => remove_member(m, x),
        MemberEventView::Other => m,
    }
}

/// The member list after a run of events, taken in order.
pub open spec fn apply_events(m: Seq<Seq<char>>, es: Seq<MemberEventView>) -> Seq<Seq<char>>
    decreases es.len(),
{
    if es.len() == 0 {
        m
    } else {
        apply_event(apply_events(m, es.drop_last()), es.last())
    }
}

/// The set of pods that exist after one event, starting from `t`.
pub open spec fn pods_after(t: Set<Seq<char>>, e: MemberEventView) -> Set<Seq<char>> {
    match e {
        MemberEventView::Appeared(x) => t.insert(x),
        MemberEventView::Disappeared(x) => t.remove(x),
        MemberEventView::Other => t,
    }
}

/// The set of pods that exist after a run of events, starting from `t`.
pub open spec fn pods_after_all(t: Set<Seq<char>>, es: Seq<MemberEventView>) -> Set<Seq<char>>
    decreases es.len(),
{
    if es.len() == 0 {
        t
    } else {
        pods_after(pods_after_all(t, es.drop_last()), es.last())
    }
}

/// How many times `x` stands in `m`.
pub open spec fn occurrences(m: Seq<Seq<char>>, x: Seq<char>) -> nat
    decreases m.len(),
{
    if m.len() == 0 {
        0
    } else {
        occurrences(m.drop_last(), x) + if m.last() == x {
            1nat
        } else {
            0nat
        }
    }
}

/// A name that a list does not hold occurs in it zero times; one that a list
/// free of duplicates holds occurs in it once.
pub proof fn lemma_occurrences(m: Seq<Seq<char>>, x: Seq<char>)
    ensures
        !m.contains(x) ==> occurrences(m, x) == 0,
        m.no_duplicates() && m.contains(x) ==> occurrences(m, x) == 1,
    decreases m.len(),
{
    if m.len() > 0 {
        let p = m.drop_last();
        lemma_occurrences(p, x);
        assert(m =~= p.push(m.last()));
        lemma_push_contains(p, m.last());
        assert(m.contains(x) <==> (p.contains(x) || x == m.last()));
        if m.no_duplicates() {
            assert(p.no_duplicates());
            assert(!p.contains(m.last())) by {
                if p.contains(m.last()) {
                    let k = choose|k: int| 0 <= k < p.len() && p[k] == m.last();
                    assert(m[k] == m[m.len() - 1]);
                }
            }
        }
    }
}

/// One event keeps a list free of duplicates, and changes what it holds as
/// the event changes the set of pods.
pub proof fn lemma_apply_event(m: Seq<Seq<char>>, e: MemberEventView)
    ensures
        m.no_duplicates() ==> apply_event(m, e).no_duplicates(),
        apply_event(m, e).to_set() == pods_after(m.to_set(), e),
{
    match e {
        MemberEventView::Appeared(x) => lemma_add_member(m, x),
        MemberEventView::Disappeared(x) => lemma_remove_member(m, x),
        MemberEventView::Other => {},
    }
    assert(apply_event(m, e).to_set() =~= pods_after(m.to_set(), e));
}

/// A run of events keeps a list free of duplicates, and changes what it
/// holds as the events change the set of pods.
pub proof fn lemma_apply_events(m: Seq<Seq<char>>, es: Seq<MemberEventView>)
    ensures
        m.no_duplicates() ==> apply_events(m, es).no_duplicates(),
        apply_events(m, es).to_set() == pods_after_all(m.to_set(), es),
    decreases es.len(),
{
    if es.len() > 0 {
        lemma_apply_events(m, es.drop_last());
        lemma_apply_event(apply_events(m, es.drop_last()), es.last());
    }
}

impl TopologySpec {
    /// Applies one event to the pod list. Returns whether the record is to
    /// be published again: after a pod appeared or disappeared, not after
    /// any other notice.
    pub fn apply_event(&mut self, e: &MemberEvent) -> (publish: bool)
        ensures
            final(self)@.name == old(self)@.name,
            final(self)@.pods == apply_event(old(self)@.pods, e@),
            publish == !(e@ is Other),
    {
        match e {
            MemberEvent::Appeared(p) => {
                self.add_pod(p.clone());
                true
            },
            MemberEvent::Disappeared(p) => {
                self.remove_pod(p);
                true
            },
            MemberEvent::Other => false,
        }
    }
}

} // verus!
