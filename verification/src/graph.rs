//! The graph that the blocks of a target form: which links it may hold, how
//! a new block enters it, and the proof that entering keeps the links
//! consistent.

use crate::block::{link_view, Id, InputView, KeyView, Node, Ref, Sketch, SlotView};
use vstd::prelude::*;

verus! {

/// Where a block attaches to the block before it.
#[derive(Clone, Copy, Debug, PartialEq, Eq, Structural)]
pub enum Place {
    /// As the block that follows.
    Next,
    /// As the first block of the first nested sequence.
    Substack1,
    /// As the first block of the second nested sequence.
    Substack2,
}

/// An insertion point: the block that the next block attaches to, if any,
/// and the place where it attaches.
pub struct PointView {
    pub parent: Option<Ref>,
    pub place: Place,
}

impl PointView {
    /// The point at which a block attaches to nothing.
    pub open spec fn top() -> PointView {
        PointView { parent: None, place: Place::Next }
    }

    /// The point behind the block `r`.
    pub open spec fn after(r: Ref) -> PointView {
        PointView { parent: Some(r), place: Place::Next }
    }
}

/// The slot through which `child` becomes the first block of a nested
/// sequence: `SUBSTACK` for the first sequence, `SUBSTACK2` for the second.
pub open spec fn branch_slot(place: Place, child: Ref) -> SlotView {
    SlotView {
        key: KeyView::Name(
            if place == Place::Substack2 {
                "SUBSTACK2"@
            } else {
                "SUBSTACK"@
            },
        ),
        value: InputView::Substack(child),
    }
}

/// Whether `r` names a block of the graph: the block at its index has its
/// identifier.
pub open spec fn owns(g: Seq<Node>, r: Ref) -> bool {
    r.index < g.len() && g[r.index as int].id == r.uid
}

/// The reference to the block at index `i`.
pub open spec fn at(g: Seq<Node>, i: int) -> Ref {
    Ref { uid: g[i].id, index: i as nat }
}

/// Whether one of the slots holds the block `r`.
pub open spec fn among(inputs: Seq<SlotView>, r: Ref) -> bool {
    exists|k: int| 0 <= k < inputs.len() && #[trigger] inputs[k].value.child() == Some(r)
}

/// Whether the block `node` has `r` as a child: as the block that follows
/// it, or in one of its slots.
pub open spec fn holds(node: Node, r: Ref) -> bool {
    node.next == Some(r) || among(node.inputs, r)
}

/// No block stands in two of the slots.
pub open spec fn distinct(inputs: Seq<SlotView>) -> bool {
    forall|j: int, k: int|
        0 <= j < k < inputs.len() && (#[trigger] inputs[j].value.child()) is Some
            ==> inputs[j].value.child() != #[trigger] inputs[k].value.child()
}

/// No block is a child of `node` twice.
pub open spec fn tidy(node: Node) -> bool {
    &&& distinct(node.inputs)
    &&& node.next matches Some(r) ==> !among(node.inputs, r)
}

/// The child `r` of the block at `i` is a block of the graph, and names the
/// block at `i` as its parent.
pub open spec fn child_ok(g: Seq<Node>, i: int, r: Ref) -> bool {
    owns(g, r) && g[r.index as int].parent == Some(at(g, i))
}

/// The parent of the block at `i`, if it has one, is a block of the graph and
/// has the block at `i` as a child.
pub open spec fn parent_ok(g: Seq<Node>, i: int) -> bool {
    g[i].parent matches Some(p) ==> owns(g, p) && holds(g[p.index as int], at(g, i))
}

/// The block that follows the block at `i`, if any, stands behind it in the
/// graph.
pub open spec fn forward_ok(g: Seq<Node>, i: int) -> bool {
    g[i].next matches Some(r) ==> r.index > i
}

/// The identifiers of the blocks increase along the graph.
pub open spec fn ascending(g: Seq<Node>) -> bool {
    forall|i: int, j: int| 0 <= i < j < g.len() ==> (#[trigger] g[i]).id < (#[trigger] g[j]).id
}

/// The links of the graph are consistent: every child names its parent,
/// every parent holds its child, no block is held twice, and a sequence only
/// runs forward.
pub open spec fn wf(g: Seq<Node>) -> bool {
    &&& ascending(g)
    &&& forall|i: int, r: Ref| 0 <= i < g.len() && #[trigger] holds(g[i], r) ==> child_ok(g, i, r)
    &&& forall|i: int| 0 <= i < g.len() ==> #[trigger] parent_ok(g, i)
    &&& forall|i: int| 0 <= i < g.len() ==> tidy(#[trigger] g[i])
    &&& forall|i: int| 0 <= i < g.len() ==> #[trigger] forward_ok(g, i)
}

/// Every identifier of the graph lies below `uid`.
pub open spec fn fresh(g: Seq<Node>, uid: nat) -> bool {
    forall|i: int| 0 <= i < g.len() ==> (#[trigger] g[i]).id < uid
}

/// Whether a block can attach at `point`: the block that the point names is
/// in the graph, and where the new block is to follow it, nothing follows it
/// yet.
pub open spec fn admits(g: Seq<Node>, point: PointView) -> bool {
    point.parent matches Some(p) ==> owns(g, p) && (point.place == Place::Next
        ==> g[p.index as int].next is None)
}

/// Whether a new block can take `inputs`: each block among them is in the
/// graph and has no parent yet, and none stands in two slots.
pub open spec fn accepts(g: Seq<Node>, inputs: Seq<SlotView>) -> bool {
    &&& distinct(inputs)
    &&& forall|k: int|
        0 <= k < inputs.len() ==> (#[trigger] inputs[k].value.child() matches Some(r) ==> owns(
            g,
            r,
        ) && g[r.index as int].parent is None)
}

/// The graph in which every block that `inputs` holds has `by` as its
/// parent.
pub open spec fn adopt(g: Seq<Node>, inputs: Seq<SlotView>, by: Ref) -> Seq<Node> {
    Seq::new(
        g.len(),
        |j: int|
            if among(inputs, at(g, j)) {
                Node { parent: Some(by), ..g[j] }
            } else {
                g[j]
            },
    )
}

/// The block `node` with `child` attached at `place`.
pub open spec fn attached(node: Node, place: Place, child: Ref) -> Node {
    match place {
        Place::Next => Node { next: Some(child), ..node },
        _ => Node { inputs: node.inputs.push(branch_slot(place, child)), ..node },
    }
}

/// The graph in which the block that `point` names, if any, has `child`
/// attached.
pub open spec fn attach(g: Seq<Node>, point: PointView, child: Ref) -> Seq<Node> {
    match point.parent {
        Some(p) => g.update(p.index as int, attached(g[p.index as int], point.place, child)),
        None => g,
    }
}

/// The graph after the block `sketch` has entered it at `point` under the
/// identifier `uid`: the blocks that it holds have it as their parent, it
/// stands at the end with the block of `point` as its own parent, and that
/// block has it attached.
pub open spec fn placed(g: Seq<Node>, uid: nat, point: PointView, sketch: Sketch) -> Seq<Node> {
    let me = Ref { uid, index: g.len() };
    attach(adopt(g, sketch.inputs, me).push(Node::new(uid, point.parent, sketch)), point, me)
}

proof fn among_push(inputs: Seq<SlotView>, slot: SlotView, r: Ref)
    ensures
        among(inputs.push(slot), r) <==> among(inputs, r) || slot.value.child() == Some(r),
{
    let longer = inputs.push(slot);
    if among(inputs, r) {
        let k = choose|k: int|
            0 <= k < inputs.len() && #[trigger] inputs[k].value.child() == Some(r);
        assert(longer[k].value.child() == Some(r));
    }
    if slot.value.child() == Some(r) {
        assert(longer[inputs.len() as int].value.child() == Some(r));
    }
}

/// What a block of the old graph holds after a new block entered: what it
/// held, and the new block where it is the one that the point names.
proof fn holds_after_placing(
    g: Seq<Node>,
    uid: nat,
    point: PointView,
    sketch: Sketch,
    i: int,
    r: Ref,
)
    requires
        0 <= i < g.len(),
        admits(g, point),
    ensures
        holds(placed(g, uid, point, sketch)[i], r) <==> holds(g[i], r) || (point.parent
            == Some(at(g, i)) && r == (Ref { uid, index: g.len() })),
{
    let me = Ref { uid, index: g.len() };
    match point.parent {
        Some(p) => {
            if p.index == i && point.place != Place::Next {
                among_push(g[i].inputs, branch_slot(point.place, me), r);
            }
        },
        None => {},
    }
}

/// A block that enters a consistent graph at a point that admits it, with
/// inputs that the graph accepts and an identifier above all others, leaves
/// the graph consistent.
pub proof fn placing_keeps_wf(g: Seq<Node>, uid: nat, point: PointView, sketch: Sketch)
    requires
        wf(g),
        fresh(g, uid),
        admits(g, point),
        accepts(g, sketch.inputs),
    ensures
        wf(placed(g, uid, point, sketch)),
        placed(g, uid, point, sketch).len() == g.len() + 1,
        forall|i: int|
            0 <= i < g.len() ==> (#[trigger] placed(g, uid, point, sketch)[i]).id == g[i].id,
{
    let grown = placed(g, uid, point, sketch);
    let me = Ref { uid, index: g.len() };
    let n = g.len() as int;

    // Every child names its parent: the new block adopted its children, which
    // had no parent and so were the children of no old block; the old blocks
    // keep theirs; and the block of the point gets the new block, which names
    // it.
    assert forall|i: int, r: Ref| 0 <= i < grown.len() && #[trigger] holds(
        grown[i],
        r,
    ) implies child_ok(grown, i, r) by {
        if i < n {
            holds_after_placing(g, uid, point, sketch, i, r);
        }
    }

    // Every parent holds its child: the new block is attached to the block of
    // the point, the adopted blocks stand among its inputs, and the old
    // parents hold what they held.
    assert forall|i: int| 0 <= i < grown.len() implies #[trigger] parent_ok(grown, i) by {
        if i == n {
            match point.parent {
                Some(p) => {
                    holds_after_placing(g, uid, point, sketch, p.index as int, me);
                },
                None => {},
            }
        } else if !among(sketch.inputs, at(g, i)) {
            assert(parent_ok(g, i));
            match g[i].parent {
                Some(q) => {
                    holds_after_placing(g, uid, point, sketch, q.index as int, at(g, i));
                },
                None => {},
            }
        }
    }

    // No block is held twice: the new block is held by no old block, so the
    // block of the point gets a child that it did not have.
    assert forall|i: int| 0 <= i < grown.len() implies tidy(#[trigger] grown[i]) by {
        if i < n {
            assert(tidy(g[i]));
            match point.parent {
                Some(p) => {
                    if p.index == i {
                        if among(g[i].inputs, me) || g[i].next == Some(me) {
                            assert(holds(g[i], me));
                            assert(child_ok(g, i, me));
                        }
                        if point.place != Place::Next {
                            let slot = branch_slot(point.place, me);
                            let longer = g[i].inputs.push(slot);
                            assert forall|j: int, k: int|
                                0 <= j < k < longer.len() && (
                                #[trigger] longer[j].value.child()) is Some implies
                                longer[j].value.child() != #[trigger] longer[k].value.child() by {
                                if k == g[i].inputs.len() {
                                    if longer[j].value.child() == Some(me) {
                                        assert(g[i].inputs[j].value.child() == Some(me));
                                    }
                                } else {
                                    assert(g[i].inputs[j].value.child() is Some);
                                }
                            }
                            match g[i].next {
                                Some(r) => {
                                    among_push(g[i].inputs, slot, r);
                                },
                                None => {},
                            }
                        }
                    }
                },
                None => {},
            }
        }
    }

    assert forall|i: int| 0 <= i < grown.len() implies #[trigger] forward_ok(grown, i) by {
        if i < n {
            assert(forward_ok(g, i));
        }
    }
}

/// An insertion point: where the next block of a target attaches.
pub struct InsertionPoint {
    parent: Option<Id>,
    place: Place,
}

impl View for InsertionPoint {
    type V = PointView;

    closed spec fn view(&self) -> PointView {
        PointView { parent: link_view(self.parent), place: self.place }
    }
}

impl InsertionPoint {
    /// The point at which a block attaches to `parent`, if any, at `place`.
    pub(crate) fn new(parent: Option<Id>, place: Place) -> (point: InsertionPoint)
        ensures
            point@ == (PointView { parent: link_view(parent), place }),
    {
        InsertionPoint { parent, place }
    }

    /// The block that the next block attaches to.
    pub(crate) fn parent(&self) -> (parent: Option<Id>)
        ensures
            link_view(parent) == self@.parent,
    {
        self.parent
    }

    /// The place where the next block attaches.
    pub(crate) fn place(&self) -> (place: Place)
        ensures
            place == self@.place,
    {
        self.place
    }
}

/// Whether the operand `operand` can still be taken: the block that it
/// stands for, if any, is in the graph and has no parent yet.
pub open spec fn free(g: Seq<Node>, operand: InputView) -> bool {
    operand.child() matches Some(r) ==> owns(g, r) && g[r.index as int].parent is None
}

/// Whether the two operands stand for different blocks, where they stand for
/// blocks at all.
pub open spec fn apart(a: InputView, b: InputView) -> bool {
    a.child() is Some ==> a.child() != b.child()
}

/// After a block has entered the graph, every identifier lies below the one
/// that follows its own.
pub proof fn placing_keeps_fresh(g: Seq<Node>, uid: nat, point: PointView, sketch: Sketch)
    requires
        fresh(g, uid),
        admits(g, point),
    ensures
        fresh(placed(g, uid, point, sketch), uid + 1),
{
}

/// A point that the graph admitted is still admitted after a block has
/// entered elsewhere: only the point behind a block is used up, by the block
/// that follows.
pub proof fn placing_keeps_point(
    g: Seq<Node>,
    uid: nat,
    point: PointView,
    sketch: Sketch,
    other: PointView,
)
    requires
        admits(g, point),
        admits(g, other),
        !(point.place == Place::Next && other.place == Place::Next && point.parent is Some
            && point.parent == other.parent),
    ensures
        admits(placed(g, uid, point, sketch), other),
{
}

/// The block that has just entered the graph can be followed.
pub proof fn placing_opens_point(g: Seq<Node>, uid: nat, point: PointView, sketch: Sketch)
    requires
        admits(g, point),
    ensures
        admits(
            placed(g, uid, point, sketch),
            PointView::after(Ref { uid, index: g.len() }),
        ),
        forall|place: Place|
            admits(
                placed(g, uid, point, sketch),
                PointView { parent: Some(Ref { uid, index: g.len() }), place },
            ),
{
}

/// An operand that was free is still free after a block has entered that
/// does not take it.
pub proof fn placing_keeps_free(
    g: Seq<Node>,
    uid: nat,
    point: PointView,
    sketch: Sketch,
    operand: InputView,
)
    requires
        admits(g, point),
        free(g, operand),
        operand.child() matches Some(r) ==> !among(sketch.inputs, r),
    ensures
        free(placed(g, uid, point, sketch), operand),
{
}

/// A block that has entered the graph at the top level is a free operand.
pub proof fn placing_at_top_is_free(g: Seq<Node>, uid: nat, sketch: Sketch)
    ensures
        free(
            placed(g, uid, PointView::top(), sketch),
            InputView::Substack(Ref { uid, index: g.len() }),
        ),
        free(
            placed(g, uid, PointView::top(), sketch),
            InputView::Prototype(Ref { uid, index: g.len() }),
        ),
{
}

/// One free operand makes inputs that the graph accepts.
pub proof fn accepts_one(g: Seq<Node>, slot: SlotView)
    requires
        free(g, slot.value),
    ensures
        accepts(g, seq![slot]),
{
}

/// Two free operands that are apart make inputs that the graph accepts.
pub proof fn accepts_two(g: Seq<Node>, first: SlotView, second: SlotView)
    requires
        free(g, first.value),
        free(g, second.value),
        apart(first.value, second.value),
    ensures
        accepts(g, seq![first, second]),
{
}

/// No inputs are inputs that the graph accepts.
pub proof fn accepts_none(g: Seq<Node>)
    ensures
        accepts(g, Seq::<SlotView>::empty()),
{
}

} // verus!
