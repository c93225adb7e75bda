//! The arena of a target: its blocks in the order in which they entered.
//! Entering a block is the one operation that changes the links of the
//! graph.

use crate::block::{
    link_view, sketch_of, slot_views, Block, Fields, Id, Input, Key, Node, Ref, Slot, SlotView,
};
use crate::custom::Mutation;
use crate::graph::{
    accepts, admits, adopt, among, at, attached, placed, Place,
    PointView,
};
use crate::uid::Uid;
use vstd::prelude::*;

verus! {

/// The blocks of the arena as the graph sees them.
pub open spec fn nodes(blocks: Seq<Block>) -> Seq<Node> {
    Seq::new(blocks.len(), |i: int| blocks[i]@)
}

proof fn among_take_step(inputs: Seq<SlotView>, k: int, r: Ref)
    requires
        0 <= k < inputs.len(),
    ensures
        among(inputs.take(k + 1), r) <==> among(inputs.take(k), r) || inputs[k].value.child()
            == Some(r),
{
    if inputs[k].value.child() == Some(r) {
        assert(inputs.take(k + 1)[k].value.child() == Some(r));
    }
}

/// Makes `by` the parent of every block that `inputs` holds.
fn adopt_all(blocks: &mut Vec<Block>, inputs: &Vec<Slot>, by: Id)
    requires
        accepts(nodes(old(blocks)@), slot_views(inputs@)),
    ensures
        nodes(final(blocks)@) == adopt(nodes(old(blocks)@), slot_views(inputs@), by@),
{
    let ghost g = nodes(blocks@);
    let ghost slots = slot_views(inputs@);
    let mut k: usize = 0;
    while k < inputs.len()
        invariant
            k <= inputs.len(),
            slots == slot_views(inputs@),
            accepts(g, slots),
            blocks.len() == g.len(),
            nodes(blocks@) == adopt(g, slots.take(k as int), by@),
        decreases inputs.len() - k,
    {
        let ghost before = nodes(blocks@);
        match inputs[k].value.child() {
            Some(child) => {
                assert(slots[k as int].value.child() == Some(child@));
                let index = child.index();
                blocks[index].set_parent(by);
                assert(nodes(blocks@) == adopt(g, slots.take(k + 1), by@)) by {
                    assert forall|j: int| 0 <= j < g.len() implies nodes(blocks@)[j] == adopt(
                        g,
                        slots.take(k + 1),
                        by@,
                    )[j] by {
                        among_take_step(slots, k as int, at(g, j));
                        assert(before[j] == adopt(g, slots.take(k as int), by@)[j]);
                    }
                }
            },
            None => {
                assert(nodes(blocks@) == adopt(g, slots.take(k + 1), by@)) by {
                    assert forall|j: int| 0 <= j < g.len() implies nodes(blocks@)[j] == adopt(
                        g,
                        slots.take(k + 1),
                        by@,
                    )[j] by {
                        among_take_step(slots, k as int, at(g, j));
                    }
                }
            },
        }
        k = k + 1;
    }
    assert(slots.take(k as int) == slots);
}

/// Attaches `child` to the block at `parent`, at `place`.
fn attach_to(blocks: &mut Vec<Block>, parent: Id, place: Place, child: Id)
    requires
        parent@.index < old(blocks).len(),
    ensures
        nodes(final(blocks)@) == nodes(old(blocks)@).update(
            parent@.index as int,
            attached(nodes(old(blocks)@)[parent@.index as int], place, child@),
        ),
{
    let index = parent.index();
    match place {
        Place::Next => {
            blocks[index].set_next(child);
        },
        Place::Substack1 => {
            blocks[index].push_input(
                Slot { key: Key::Name("SUBSTACK"), value: Input::Substack(child) },
            );
        },
        Place::Substack2 => {
            blocks[index].push_input(
                Slot { key: Key::Name("SUBSTACK2"), value: Input::Substack(child) },
            );
        },
    }
}

/// Enters a block into the arena under the identifier `uid`, at the point
/// that `parent` and `place` make, and returns the reference to it.
pub(crate) fn enter(
    blocks: &mut Vec<Block>,
    uid: Uid,
    parent: Option<Id>,
    place: Place,
    opcode: &'static str,
    inputs: Vec<Slot>,
    fields: Option<Fields>,
    mutation: Option<Mutation>,
) -> (id: Id)
    requires
        admits(nodes(old(blocks)@), PointView { parent: link_view(parent), place }),
        accepts(nodes(old(blocks)@), slot_views(inputs@)),
    ensures
        id@ == (Ref { uid: uid@, index: old(blocks)@.len() }),
        nodes(final(blocks)@) == placed(
            nodes(old(blocks)@),
            uid@,
            PointView { parent: link_view(parent), place },
            sketch_of(opcode, inputs@, fields, mutation),
        ),
{
    let id = Id::new(uid, blocks.len());
    adopt_all(blocks, &inputs, id);
    blocks.push(Block::new(uid, opcode, parent, inputs, fields, mutation));
    match parent {
        Some(p) => {
            attach_to(blocks, p, place, id);
        },
        None => {},
    }
    id
}

} // verus!
