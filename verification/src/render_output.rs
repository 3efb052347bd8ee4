//! The output of rendering a template node: nothing, one entity, or a
//! fragment of outputs, flattened before it is attached to a parent node.
use vstd::prelude::*;

verus! {

/// Output of a rendered node, which may be a single node or a fragment
/// (multiple nodes). An entity is held by its bits.
#[derive(Debug, PartialEq)]
pub enum RenderOutput {
    /// Nothing was rendered: the state before the first render, or a
    /// conditional render that rendered nothing.
    Empty,
    /// Template rendered a single node
    Node(u64),
    /// Template rendered a fragment or a list of nodes.
    Fragment(Vec<RenderOutput>),
}

/// The entities of an output, in order.
pub open spec fn entities(r: RenderOutput) -> Seq<u64>
    decreases r,
{
    match r {
        RenderOutput::Empty => Seq::empty(),
        RenderOutput::Node(e) => seq![e],
        RenderOutput::Fragment(nodes) => entities_of(nodes@),
    }
}

/// The entities of a list of outputs, in order.
pub open spec fn entities_of(s: Seq<RenderOutput>) -> Seq<u64>
    decreases s,
{
    if s.len() == 0 {
        Seq::empty()
    } else {
        entities_of(s.subrange(0, s.len() - 1)) + entities(s[s.len() - 1])
    }
}

/// Two outputs are the same: the same variant, entity, or fragment of the
/// same outputs in the same order.
pub open spec fn same_output(a: RenderOutput, b: RenderOutput) -> bool
    decreases a,
{
    match a {
        RenderOutput::Empty => b is Empty,
        RenderOutput::Node(x) => b matches RenderOutput::Node(y) && x == y,
        RenderOutput::Fragment(s) => b matches RenderOutput::Fragment(t) && same_outputs(s@, t@),
    }
}

/// Two lists of outputs are the same, item by item.
pub open spec fn same_outputs(s: Seq<RenderOutput>, t: Seq<RenderOutput>) -> bool
    decreases s,
{
    if s.len() == 0 {
        t.len() == 0
    } else {
        t.len() == s.len() && same_outputs(s.subrange(0, s.len() - 1), t.subrange(0, t.len() - 1))
            && same_output(s[s.len() - 1], t[t.len() - 1])
    }
}

/// Lists of the same length are the same where every item is.
proof fn lemma_same_outputs(s: Seq<RenderOutput>, t: Seq<RenderOutput>)
    requires
        s.len() == t.len(),
    ensures
        same_outputs(s, t) <==> forall|i: int| 0 <= i < s.len() ==> same_output(#[trigger] s[i], t[i]),
    decreases s.len(),
{
    if s.len() > 0 {
        let n = s.len() - 1;
        let ps = s.subrange(0, n);
        let pt = t.subrange(0, n);
        lemma_same_outputs(ps, pt);
        assert((forall|i: int| 0 <= i < n ==> same_output(#[trigger] ps[i], pt[i])) <==> (forall|i: int|
            0 <= i < n ==> same_output(#[trigger] s[i], t[i]))) by {
            assert forall|i: int| 0 <= i < n implies ps[i] == s[i] && pt[i] == t[i] by {}
        }
        assert((forall|i: int| 0 <= i < s.len() ==> same_output(#[trigger] s[i], t[i])) <==> ((forall|i: int|
            0 <= i < n ==> same_output(#[trigger] s[i], t[i])) && same_output(s[n], t[n])));
    }
}

impl Default for RenderOutput {
    fn default() -> (r: RenderOutput)
        ensures
            r == RenderOutput::Empty,
    {
        RenderOutput::Empty
    }
}

impl RenderOutput {
    /// Returns the number of actual entities in the template output.
    pub fn count(&self) -> (r: usize)
        requires
            entities(*self).len() <= usize::MAX,
        ensures
            r == entities(*self).len(),
        decreases *self,
    {
        match self {
            RenderOutput::Empty => 0,
            RenderOutput::Node(_) => 1,
            RenderOutput::Fragment(nodes) => {
                let mut total: usize = 0;
                let mut i: usize = 0;
                while i < nodes.len()
                    invariant
                        *self == RenderOutput::Fragment(*nodes),
                        entities(*self).len() <= usize::MAX,
                        i <= nodes@.len(),
                        total == entities_of(nodes@.subrange(0, i as int)).len(),
                    decreases nodes@.len() - i,
                {
                    proof {
                        lemma_entities_of_prefix(nodes@, i as int + 1);
                        assert(nodes@.subrange(0, i + 1).subrange(0, i as int) == nodes@.subrange(
                            0,
                            i as int,
                        ));
                    }
                    let c = nodes[i].count();
                    total = total + c;
                    i = i + 1;
                }
                assert(nodes@.subrange(0, nodes@.len() as int) == nodes@);
                total
            },
        }
    }

    /// Whether this output is the same as `other`.
    pub fn same_as(&self, other: &RenderOutput) -> (r: bool)
        ensures
            r == same_output(*self, *other),
        decreases *self,
    {
        match (self, other) {
            (RenderOutput::Empty, RenderOutput::Empty) => true,
            (RenderOutput::Node(x), RenderOutput::Node(y)) => *x == *y,
            (RenderOutput::Fragment(s), RenderOutput::Fragment(t)) => {
                if s.len() != t.len() {
                    proof {
                        if s@.len() > 0 {
                            assert(!same_outputs(s@, t@));
                        }
                    }
                    return false;
                }
                proof {
                    lemma_same_outputs(s@, t@);
                }
                let mut i: usize = 0;
                while i < s.len()
                    invariant
                        *self == RenderOutput::Fragment(*s),
                        *other == RenderOutput::Fragment(*t),
                        s@.len() == t@.len(),
                        i <= s@.len(),
                        forall|j: int| 0 <= j < i ==> same_output(#[trigger] s@[j], t@[j]),
                    decreases s@.len() - i,
                {
                    proof {
                        assert(decreases_to!(*self => (*self)->Fragment_0));
                        assert((*self)->Fragment_0 == *s);
                        assert(decreases_to!(*s => s@));
                        assert(decreases_to!(s@ => s@[i as int]));
                        assert(decreases_to!(*self => s@[i as int]));
                    }
                    if !s[i].same_as(&t[i]) {
                        proof {
                            lemma_same_outputs(s@, t@);
                        }
                        return false;
                    }
                    i = i + 1;
                }
                proof {
                    lemma_same_outputs(s@, t@);
                }
                true
            },
            _ => false,
        }
    }

    /// Appends the entities of this output to `out`, in order.
    pub fn flatten(&self, out: &mut Vec<u64>)
        ensures
            final(out)@ == old(out)@ + entities(*self),
        decreases *self,
    {
        match self {
            RenderOutput::Empty => {
                assert(old(out)@ + Seq::<u64>::empty() == old(out)@);
            },
            RenderOutput::Node(e) => {
                out.push(*e);
            },
            RenderOutput::Fragment(nodes) => {
                let mut i: usize = 0;
                assert(nodes@.subrange(0, 0).len() == 0);
                assert(old(out)@ + entities_of(nodes@.subrange(0, 0)) == old(out)@);
                while i < nodes.len()
                    invariant
                        *self == RenderOutput::Fragment(*nodes),
                        i <= nodes@.len(),
                        out@ == old(out)@ + entities_of(nodes@.subrange(0, i as int)),
                    decreases nodes@.len() - i,
                {
                    proof {
                        assert(nodes@.subrange(0, i + 1).subrange(0, i as int) == nodes@.subrange(
                            0,
                            i as int,
                        ));
                        assert(decreases_to!(*self => (*self)->Fragment_0));
                        assert((*self)->Fragment_0 == *nodes);
                        assert(decreases_to!(*nodes => nodes@));
                        assert(decreases_to!(nodes@ => nodes@[i as int]));
                        assert(decreases_to!(*self => nodes@[i as int]));
                    }
                    nodes[i].flatten(out);
                    i = i + 1;
                }
                assert(nodes@.subrange(0, nodes@.len() as int) == nodes@);
            },
        }
    }
}

/// The entities of a prefix are at most those of the whole list.
proof fn lemma_entities_of_prefix(s: Seq<RenderOutput>, n: int)
    requires
        0 <= n <= s.len(),
    ensures
        entities_of(s.subrange(0, n)).len() <= entities_of(s).len(),
    decreases s.len() - n,
{
    if n < s.len() {
        lemma_entities_of_prefix(s, n + 1);
        assert(s.subrange(0, n + 1).subrange(0, n) == s.subrange(0, n));
    } else {
        assert(s.subrange(0, n) == s);
    }
}

/// Flattening an output appends as many entities as it counts.
pub proof fn lemma_flatten_adds_count(r: RenderOutput, out: Seq<u64>)
    ensures
        (out + entities(r)).len() == out.len() + entities(r).len(),
{
}

} // verus!
