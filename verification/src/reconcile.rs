//! The decisions that bring a rendered view in line with its template: keep
//! and patch an element or create it anew, which children to keep and which
//! to despawn, and whether the children of a node must be replaced. The
//! engine carries the decisions out and renders the children in between.
use vstd::prelude::*;
use crate::keywords::str_eq;
use crate::render_output::{entities_of, same_output, RenderOutput};

verus! {

/// The properties of a view element that come from its template: its id,
/// the asset paths of its style sets, and its inline style (of type `S`).
pub struct ElementProps<S> {
    pub id: Option<String>,
    pub styleset: Vec<String>,
    pub inline_style: Option<S>,
}

/// The element that the old output of a node stands for: its entity, the
/// controller it was made with, its properties, and the outputs of its
/// children.
pub struct ExistingElement<S> {
    pub entity: u64,
    pub controller: Option<String>,
    pub props: ElementProps<S>,
    pub children: Vec<RenderOutput>,
}

/// What an element of the template asks for: its controller, its
/// properties, and the number of its children.
pub struct ElementTemplate<S> {
    pub controller: Option<String>,
    pub props: ElementProps<S>,
    pub child_count: usize,
}

/// What to do for an element of the template.
pub enum ElementPlan<S> {
    /// Keep the existing element and patch it: it takes the template's
    /// properties; its children start from the old outputs, as many as the
    /// template has (nothing where there was no old one), and the old
    /// children past that count are despawned.
    Patch { entity: u64, props: ElementProps<S>, children: Vec<RenderOutput>, despawn: Vec<RenderOutput> },
    /// Despawn the old node, where there is one, and create the element
    /// anew with the template's properties, its children starting from
    /// nothing.
    Create { despawn_node: Option<u64>, props: ElementProps<S>, child_count: usize },
}

/// What to do for a text of the template.
pub enum TextPlan {
    /// Replace the sections of the existing text entity.
    Update(u64),
    /// Spawn a new text entity.
    Spawn,
}

/// Two controllers are the same: both absent, or both named alike.
pub open spec fn same_controller(a: Option<String>, b: Option<String>) -> bool {
    match (a, b) {
        (None, None) => true,
        (Some(x), Some(y)) => x@ == y@,
        _ => false,
    }
}

/// The children an element is patched with: the first `n` old outputs,
/// padded with nothing up to `n`.
pub open spec fn kept_children(old: Seq<RenderOutput>, n: int) -> Seq<RenderOutput> {
    Seq::new(n as nat, |i: int| if i < old.len() { old[i] } else { RenderOutput::Empty })
}

/// The old children past the first `n`, which are despawned.
pub open spec fn dropped_children(old: Seq<RenderOutput>, n: int) -> Seq<RenderOutput> {
    if n < old.len() {
        old.subrange(n, old.len() as int)
    } else {
        Seq::empty()
    }
}

fn same_controller_x(a: &Option<String>, b: &Option<String>) -> (r: bool)
    ensures
        r == same_controller(*a, *b),
{
    match (a, b) {
        (None, None) => true,
        (Some(x), Some(y)) => str_eq(x.as_str(), y.as_str()),
        _ => false,
    }
}

/// Decides what happens to the node whose old output is `old` for an
/// element of the template. `existing` is the element that `old` stands for,
/// where it is a node with an element. An element with the same controller
/// is patched and takes the template's properties; otherwise the old node is
/// despawned and the element created with them.
pub fn plan_element<S>(old: &RenderOutput, existing: Option<ExistingElement<S>>, template: ElementTemplate<S>) -> (r: ElementPlan<S>)
    requires
        existing matches Some(e) ==> *old == RenderOutput::Node(e.entity),
    ensures
        match existing {
            Some(e) => if same_controller(e.controller, template.controller) {
                r matches ElementPlan::Patch { entity, props, children, despawn }
                    && entity == e.entity
                    && props == template.props
                    && children@ == kept_children(e.children@, template.child_count as int)
                    && despawn@ == dropped_children(e.children@, template.child_count as int)
            } else {
                r == (ElementPlan::Create {
                    despawn_node: Some(e.entity),
                    props: template.props,
                    child_count: template.child_count,
                })
            },
            None => r == (ElementPlan::Create {
                despawn_node: match *old {
                    RenderOutput::Node(x) => Some(x),
                    _ => None,
                },
                props: template.props,
                child_count: template.child_count,
            }),
        },
{
    let ElementTemplate { controller, props, child_count } = template;
    match existing {
        Some(e) => {
            if same_controller_x(&e.controller, &controller) {
                let n = child_count;
                let mut children = e.children;
                let ghost all = children@;
                let despawn = if n < children.len() {
                    children.split_off(n)
                } else {
                    Vec::new()
                };
                assert(n < all.len() ==> children@ == all.subrange(0, n as int));
                assert(despawn@ == dropped_children(all, n as int));
                while children.len() < n
                    invariant
                        children@.len() <= n,
                        children@.len() >= all.len() || children@.len() == n,
                        forall|i: int| 0 <= i < children@.len() ==> #[trigger] children@[i] == (if i
                            < all.len() {
                            all[i]
                        } else {
                            RenderOutput::Empty
                        }),
                    decreases n - children@.len(),
                {
                    children.push(RenderOutput::Empty);
                }
                assert(children@ =~= kept_children(all, n as int));
                ElementPlan::Patch { entity: e.entity, props, children, despawn }
            } else {
                ElementPlan::Create { despawn_node: Some(e.entity), props, child_count }
            }
        },
        None => {
            let despawn = match old {
                RenderOutput::Node(x) => Some(*x),
                _ => None,
            };
            ElementPlan::Create { despawn_node: despawn, props, child_count }
        },
    }
}

/// Decides what happens to the node whose old output is `old` for a text of
/// the template: a node that holds a text is updated, else a text is spawned.
pub fn plan_text(old: &RenderOutput, has_text: bool) -> (r: TextPlan)
    ensures
        match *old {
            RenderOutput::Node(x) => if has_text {
                r == TextPlan::Update(x)
            } else {
                r == TextPlan::Spawn
            },
            _ => r == TextPlan::Spawn,
        },
{
    match old {
        RenderOutput::Node(x) => if has_text {
            TextPlan::Update(*x)
        } else {
            TextPlan::Spawn
        },
        _ => TextPlan::Spawn,
    }
}

/// The children of an element changed: an old child was despawned, or a
/// child renders otherwise than before.
pub open spec fn children_changed(before: Seq<RenderOutput>, after: Seq<RenderOutput>, dropped: bool) -> bool {
    dropped || exists|i: int| 0 <= i < after.len() && !same_output(before[i], #[trigger] after[i])
}

/// Once the children of a patched element are rendered (`before` as it was
/// patched, `after` as rendered), the entities to attach to it in order,
/// where its children changed; none where they did not.
pub fn finish_children(before: &Vec<RenderOutput>, after: &Vec<RenderOutput>, dropped: bool) -> (r: Option<Vec<u64>>)
    requires
        before@.len() == after@.len(),
    ensures
        r is Some <==> children_changed(before@, after@, dropped),
        r matches Some(f) ==> f@ == entities_of(after@),
{
    let mut changed = dropped;
    let mut i: usize = 0;
    while i < after.len()
        invariant
            before@.len() == after@.len(),
            i <= after@.len(),
            changed == (dropped || exists|j: int| 0 <= j < i && !same_output(before@[j], #[trigger] after@[j])),
        decreases after@.len() - i,
    {
        if !before[i].same_as(&after[i]) {
            changed = true;
        }
        i = i + 1;
    }
    if !changed {
        return None;
    }
    let mut flat: Vec<u64> = Vec::new();
    let mut k: usize = 0;
    assert(after@.subrange(0, 0).len() == 0);
    while k < after.len()
        invariant
            k <= after@.len(),
            flat@ == entities_of(after@.subrange(0, k as int)),
        decreases after@.len() - k,
    {
        after[k].flatten(&mut flat);
        assert(after@.subrange(0, k + 1).subrange(0, k as int) == after@.subrange(0, k as int));
        k = k + 1;
    }
    assert(after@.subrange(0, after@.len() as int) == after@);
    Some(flat)
}

/// Patching keeps exactly as many children as the template has: the old
/// ones first, in order, then nothing; what is despawned is the old children
/// past that count, so together they are all the old children.
pub proof fn lemma_children_split(old: Seq<RenderOutput>, n: nat)
    ensures
        kept_children(old, n as int).len() == n,
        forall|i: int| 0 <= i < n && i < old.len() ==> #[trigger] kept_children(old, n as int)[i] == old[i],
        forall|i: int| old.len() <= i < n ==> #[trigger] kept_children(old, n as int)[i] == RenderOutput::Empty,
        n <= old.len() ==> kept_children(old, n as int) + dropped_children(old, n as int) == old,
        n >= old.len() ==> dropped_children(old, n as int).len() == 0,
{
    if n <= old.len() {
        assert(kept_children(old, n as int) + dropped_children(old, n as int) =~= old);
    }
}

/// Two controllers are the same exactly where both are absent or both have
/// the same name.
pub proof fn lemma_same_controller(a: Option<String>, b: Option<String>)
    ensures
        same_controller(a, b) <==> (a is None && b is None) || (a is Some && b is Some && a->0@ == b->0@),
{
}

/// The children of an element changed where an old child was despawned or
/// some child renders otherwise; where every child renders the same and none
/// was despawned, they did not.
pub proof fn lemma_children_changed(before: Seq<RenderOutput>, after: Seq<RenderOutput>, dropped: bool)
    ensures
        dropped ==> children_changed(before, after, dropped),
        (forall|i: int| 0 <= i < after.len() ==> same_output(before[i], #[trigger] after[i])) && !dropped
            ==> !children_changed(before, after, dropped),
        forall|i: int| 0 <= i < after.len() && !same_output(before[i], #[trigger] after[i])
            ==> children_changed(before, after, dropped),
{
}

} // verus!
