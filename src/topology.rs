//! The topology record and the operations that change its member list.
use vstd::prelude::*;

verus! {

/// The fixed name of the single topology record kept in a namespace.
pub const RECORD_NAME: &'static str = "default";

/// A list of pod names as the contracts see it.
pub open spec fn names_view(v: Seq<String>) -> Seq<Seq<char>> {
    v.map_values(|s: String| s@)
}

/// `m` with `x` appended, unless `x` is already in it.
pub open spec fn add_member(m: Seq<Seq<char>>, x: Seq<char>) -> Seq<Seq<char>> {
    if m.contains(x) {
        m
    } else {
        m.push(x)
    }
}

/// `m` with every occurrence of `x` taken out, the rest in order.
pub open spec fn remove_member(m: Seq<Seq<char>>, x: Seq<char>) -> Seq<Seq<char>>
    decreases m.len(),
{
    if m.len() == 0 {
        m
    } else {
        let rest = remove_member(m.drop_last(), x);
        if m.last() == x {
            rest
        } else {
            rest.push(m.last())
        }
    }
}

/// The member list built from a listing: each name once, at its first place.
pub open spec fn snapshot(names: Seq<Seq<char>>) -> Seq<Seq<char>>
    decreases names.len(),
{
    if names.len() == 0 {
        Seq::empty()
    } else {
        add_member(snapshot(names.drop_last()), names.last())
    }
}

/// The desired state of the topology record: its name and its pods.
pub struct TopologySpec {
    pub name: String,
    pub pods: Vec<String>,
}

/// What a `TopologySpec` holds, as plain sequences.
pub struct TopologyView {
    pub name: Seq<char>,
    pub pods: Seq<Seq<char>>,
}

impl View for TopologySpec {
    type V = TopologyView;

    open spec fn view(&self) -> TopologyView {
        TopologyView { name: self.name@, pods: names_view(self.pods@) }
    }
}

impl TopologyView {
    /// The record is the namespace's single one and lists no pod twice.
    pub open spec fn wf(self) -> bool {
        &&& self.name == RECORD_NAME@
        &&& self.pods.no_duplicates()
    }
}


/// What a sequence holds after a push.
pub proof fn lemma_push_contains(s: Seq<Seq<char>>, a: Seq<char>)
    ensures
        forall|y: Seq<char>| s.push(a).contains(y) <==> (s.contains(y) || y == a),
{
    let r = s.push(a);
    assert(r[s.len() as int] == a);
    assert forall|y: Seq<char>| r.contains(y) <==> (s.contains(y) || y == a) by {
        if r.contains(y) {
            let k = choose|k: int| 0 <= k < r.len() && r[k] == y;
            if k < s.len() {
                assert(s[k] == y);
            }
        }
        if s.contains(y) {
            let k = choose|k: int| 0 <= k < s.len() && s[k] == y;
            assert(r[k] == y);
        }
    }
}

/// Facts about `add_member`: what it holds afterwards, and that it keeps a
/// list free of duplicates.
pub proof fn lemma_add_member(m: Seq<Seq<char>>, x: Seq<char>)
    ensures
        add_member(m, x).contains(x),
        forall|y: Seq<char>| add_member(m, x).contains(y) <==> (m.contains(y) || y == x),
        m.no_duplicates() ==> add_member(m, x).no_duplicates(),
{
    lemma_push_contains(m, x);
}

/// Facts about `remove_member`: what is left, and that it keeps a list free
/// of duplicates.
pub proof fn lemma_remove_member(m: Seq<Seq<char>>, x: Seq<char>)
    ensures
        forall|y: Seq<char>| remove_member(m, x).contains(y) <==> (m.contains(y) && y != x),
        !remove_member(m, x).contains(x),
        m.no_duplicates() ==> remove_member(m, x).no_duplicates(),
    decreases m.len(),
{
    if m.len() > 0 {
        let p = m.drop_last();
        lemma_remove_member(p, x);
        assert(m =~= p.push(m.last()));
        lemma_push_contains(p, m.last());
        lemma_push_contains(remove_member(p, x), m.last());
        if m.no_duplicates() {
            assert(p.no_duplicates());
            assert(!p.contains(m.last())) by {
                if p.contains(m.last()) {
                    let k = choose|k: int| 0 <= k < p.len() && p[k] == m.last();
                    assert(m[k] == m[m.len() - 1]);
                }
            }
        }
        if m.last() != x {
            lemma_add_member(remove_member(p, x), m.last());
        }
        assert forall|y: Seq<char>| remove_member(m, x).contains(y) <==> (m.contains(y) && y != x) by {
            assert(p.push(m.last()).contains(y) <==> (p.contains(y) || y == m.last()));
            assert(remove_member(p, x).push(m.last()).contains(y) <==> (remove_member(p, x).contains(y) || y == m.last()));
        }
    }
}

/// The snapshot of a listing holds exactly the listed names, each once.
pub proof fn lemma_snapshot(names: Seq<Seq<char>>)
    ensures
        snapshot(names).no_duplicates(),
        forall|y: Seq<char>| snapshot(names).contains(y) <==> names.contains(y),
    decreases names.len(),
{
    if names.len() > 0 {
        let p = names.drop_last();
        lemma_snapshot(p);
        lemma_add_member(snapshot(p), names.last());
        assert(names =~= p.push(names.last()));
        lemma_push_contains(p, names.last());
        assert forall|y: Seq<char>| snapshot(names).contains(y) <==> names.contains(y) by {
            assert(p.push(names.last()).contains(y) <==> (p.contains(y) || y == names.last()));
            assert(add_member(snapshot(p), names.last()).contains(y) <==> (snapshot(p).contains(y) || y == names.last()));
        }
    }
}

/// Whether `pod` is among `pods`.
pub fn contains_pod(pods: &Vec<String>, pod: &String) -> (r: bool)
    ensures
        r == names_view(pods@).contains(pod@),
{
    let mut i: usize = 0;
    while i < pods.len()
        invariant
            i <= pods.len(),
            forall|k: int| 0 <= k < i ==> pods@[k]@ != pod@,
        decreases pods.len() - i,
    {
        if pods[i] == *pod {
            assert(names_view(pods@)[i as int] == pod@);
            return true;
        }
        i += 1;
    }
    assert(!names_view(pods@).contains(pod@)) by {
        if names_view(pods@).contains(pod@) {
            let k = choose|k: int| 0 <= k < names_view(pods@).len() && names_view(pods@)[k] == pod@;
            assert(pods@[k]@ == pod@);
        }
    }
    false
}

impl TopologySpec {
    /// The record of the given name with no pods.
    pub fn new(name: &str) -> (r: TopologySpec)
        ensures
            r@.name == name@,
            r@.pods == Seq::<Seq<char>>::empty(),
    {
        let r = TopologySpec { name: name.to_owned(), pods: Vec::new() };
        assert(r@.pods =~= Seq::<Seq<char>>::empty());
        r
    }

    /// A copy of the record.
    pub fn duplicate(&self) -> (r: TopologySpec)
        ensures
            r@ == self@,
    {
        let mut pods: Vec<String> = Vec::new();
        let mut i: usize = 0;
        while i < self.pods.len()
            invariant
                i <= self.pods.len(),
                names_view(pods@) == names_view(self.pods@).subrange(0, i as int),
            decreases self.pods.len() - i,
        {
            let ghost before = pods@;
            let s = self.pods[i].clone();
            pods.push(s);
            assert(names_view(pods@) =~= names_view(before).push(s@));
            assert(names_view(pods@) =~= names_view(self.pods@).subrange(0, i + 1));
            i += 1;
        }
        assert(names_view(pods@) =~= names_view(self.pods@));
        TopologySpec { name: self.name.clone(), pods }
    }

    /// Appends `pod` unless the record already lists it.
    pub fn add_pod(&mut self, pod: String)
        ensures
            final(self)@.name == old(self)@.name,
            final(self)@.pods == add_member(old(self)@.pods, pod@),
    {
        if !contains_pod(&self.pods, &pod) {
            let ghost before = self.pods@;
            self.pods.push(pod);
            assert(names_view(self.pods@) =~= names_view(before).push(pod@));
        }
    }

    /// Takes every occurrence of `pod` out of the record, the rest in order.
    pub fn remove_pod(&mut self, pod: &String)
        ensures
            final(self)@.name == old(self)@.name,
            final(self)@.pods == remove_member(old(self)@.pods, pod@),
    {
        let mut kept: Vec<String> = Vec::new();
        let mut i: usize = 0;
        while i < self.pods.len()
            invariant
                i <= self.pods.len(),
                names_view(kept@) == remove_member(names_view(self.pods@).subrange(0, i as int), pod@),
            decreases self.pods.len() - i,
        {
            let ghost all = names_view(self.pods@);
            assert(all.subrange(0, i + 1).drop_last() =~= all.subrange(0, i as int));
            if self.pods[i] != *pod {
                let ghost before = kept@;
                let s = self.pods[i].clone();
                kept.push(s);
                assert(names_view(kept@) =~= names_view(before).push(all[i as int]));
            }
            i += 1;
        }
        assert(names_view(self.pods@).subrange(0, self.pods.len() as int) =~= names_view(self.pods@));
        self.pods = kept;
    }
}

/// The record that a listing of pod names yields: named `default`, each
/// listed name once, in the order of its first appearance.
pub fn create_spec(names: &Vec<String>) -> (r: TopologySpec)
    ensures
        r@.name == RECORD_NAME@,
        r@.pods == snapshot(names_view(names@)),
        r@.wf(),
{
    let mut spec = TopologySpec::new(RECORD_NAME);
    let mut i: usize = 0;
    while i < names.len()
        invariant
            i <= names.len(),
            spec@.name == RECORD_NAME@,
            spec@.pods == snapshot(names_view(names@).subrange(0, i as int)),
        decreases names.len() - i,
    {
        let ghost all = names_view(names@);
        assert(all.subrange(0, i + 1).drop_last() =~= all.subrange(0, i as int));
        spec.add_pod(names[i].clone());
        i += 1;
    }
    assert(names_view(names@).subrange(0, names.len() as int) =~= names_view(names@));
    proof {
        lemma_snapshot(names_view(names@));
    }
    spec
}

} // verus!
