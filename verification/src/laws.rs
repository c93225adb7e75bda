//! What holds of every project that the builder makes.

use crate::block::{Node, Sketch};
use crate::graph::{
    admits, at, forward_ok, holds, owns, parent_ok, placed, placing_keeps_wf, tidy, wf, Place,
    PointView,
};
use crate::project::ProjectView;
use crate::text::{keys_differ, tagged};
use crate::model::{named_is_issued, put_keeps_wf, report_keeps_wf, TargetView};
use crate::unit::UnitView;
use vstd::prelude::*;
use vstd::utf8::encode_utf8;

verus! {

/// The script that starts at the block at `i`: the places in the graph of
/// that block and of the blocks that follow it, in order.
pub open spec fn chain(g: Seq<Node>, i: int) -> Seq<int>
    decreases g.len() - i,
{
    if 0 <= i < g.len() {
        match g[i].next {
            Some(r) => if i < r.index < g.len() {
                seq![i] + chain(g, r.index as int)
            } else {
                seq![i]
            },
            None => seq![i],
        }
    } else {
        Seq::empty()
    }
}

/// A call of the builder that lets one block enter the target.
pub enum Step {
    /// The block is placed at the insertion point.
    Put(Sketch),
    /// The block enters at the top level, as an operand.
    Report(Sketch),
}

impl Step {
    /// The block that enters.
    pub open spec fn sketch(self) -> Sketch {
        match self {
            Step::Put(sketch) => sketch,
            Step::Report(sketch) => sketch,
        }
    }
}

impl TargetView {
    /// The target after the call `step`.
    pub open spec fn step(self, step: Step) -> TargetView {
        match step {
            Step::Put(sketch) => self.put(sketch),
            Step::Report(sketch) => self.report(sketch),
        }
    }

    /// The target after the calls `steps`, in order.
    pub open spec fn run(self, steps: Seq<Step>) -> TargetView
        decreases steps.len(),
    {
        if steps.len() == 0 {
            self
        } else {
            self.run(steps.drop_last()).step(steps.last())
        }
    }

    /// Whether each of the calls `steps` can be made when its turn comes: the
    /// target then takes the inputs of the block.
    pub open spec fn allows(self, steps: Seq<Step>) -> bool
        decreases steps.len(),
    {
        steps.len() == 0 || (self.allows(steps.drop_last()) && self.run(steps.drop_last()).takes(
            steps.last().sketch().inputs,
        ))
    }
}

/// The places in the graph of the blocks that the calls `steps` place, in the
/// order of the calls, where the graph holds `base` blocks before the first
/// call. Every call adds one block at the end of the graph.
pub open spec fn trail(base: int, steps: Seq<Step>) -> Seq<int>
    decreases steps.len(),
{
    if steps.len() == 0 {
        Seq::empty()
    } else {
        match steps.last() {
            Step::Put(_) => trail(base, steps.drop_last()).push(base + steps.len() - 1),
            Step::Report(_) => trail(base, steps.drop_last()),
        }
    }
}

/// Whether `node` is the block that `sketch` became under the identifier
/// `id`: it has that identifier, and does and holds what the sketch says.
pub open spec fn came_from(node: Node, id: nat, sketch: Sketch) -> bool {
    &&& node.id == id
    &&& node.opcode == sketch.opcode
    &&& node.inputs == sketch.inputs
    &&& node.fields == sketch.fields
    &&& node.mutation == sketch.mutation
}

/// A script has a first block, and ends at a block of the graph.
proof fn chain_has_ends(g: Seq<Node>, i: int)
    requires
        0 <= i < g.len(),
    ensures
        chain(g, i).len() >= 1,
        chain(g, i)[0] == i,
        0 <= chain(g, i).last() < g.len(),
    decreases g.len() - i,
{
    match g[i].next {
        Some(r) => {
            if i < r.index < g.len() {
                chain_has_ends(g, r.index as int);
            }
        },
        None => {},
    }
}

/// What a script is after a block has entered the graph: the script as it
/// was, and at its end the new block, if that was placed behind the last block
/// of the script.
pub proof fn chain_after_placing(
    g: Seq<Node>,
    uid: nat,
    point: PointView,
    sketch: Sketch,
    start: int,
)
    requires
        wf(g),
        admits(g, point),
        0 <= start < g.len(),
    ensures
        chain(placed(g, uid, point, sketch), start) == if point.place == Place::Next && (
        point.parent matches Some(p) && chain(g, start).last() == p.index) {
            chain(g, start).push(g.len() as int)
        } else {
            chain(g, start)
        },
    decreases g.len() - start,
{
    let grown = placed(g, uid, point, sketch);
    let end = g.len() as int;
    chain_has_ends(g, start);
    assert(chain(grown, end) == seq![end]);
    let follows_start = point.place == Place::Next && (point.parent matches Some(p) && p.index
        == start);
    if !follows_start {
        match g[start].next {
            Some(r) => {
                assert(holds(g[start], r));
                assert(forward_ok(g, start));
                chain_after_placing(g, uid, point, sketch, r.index as int);
                chain_has_ends(g, r.index as int);
            },
            None => {},
        }
    }
}

/// Blocks that are placed one after another follow one another in the order
/// of the calls.
///
/// Let the insertion point be behind the last block of the script that starts
/// at `start`, as it is after `start_script`. After any calls that place
/// blocks or make operands, the script is what it was, followed by the blocks
/// that were placed, in the order in which they were placed; and the
/// insertion point is behind its last block again. The block that the call
/// `k` let enter stands `k` places behind the old end of the graph, and is
/// the block that the call gave.
pub proof fn script_follows_call_order(t: TargetView, start: int, steps: Seq<Step>)
    requires
        t.wf(),
        t.room(steps.len() as int),
        0 <= start < t.unit.blocks.len(),
        t.point.place == Place::Next,
        t.point.parent matches Some(p) && p.index == chain(t.unit.blocks, start).last(),
        t.allows(steps),
    ensures
        t.run(steps).wf(),
        t.run(steps).next == t.next + steps.len(),
        t.run(steps).unit.blocks.len() == t.unit.blocks.len() + steps.len(),
        chain(t.run(steps).unit.blocks, start) == chain(t.unit.blocks, start) + trail(
            t.unit.blocks.len() as int,
            steps,
        ),
        t.run(steps).point.place == Place::Next,
        t.run(steps).point.parent matches Some(p) && p.index == chain(
            t.run(steps).unit.blocks,
            start,
        ).last(),
        forall|k: int|
            0 <= k < steps.len() ==> came_from(
                #[trigger] t.run(steps).unit.blocks[t.unit.blocks.len() + k],
                (t.next + k) as nat,
                steps[k].sketch(),
            ),
    decreases steps.len(),
{
    if steps.len() > 0 {
        let earlier = steps.drop_last();
        script_follows_call_order(t, start, earlier);
        let before = t.run(earlier);
        let g = before.unit.blocks;
        chain_has_ends(t.unit.blocks, start);
        match steps.last() {
            Step::Put(sketch) => {
                put_keeps_wf(before, sketch);
                chain_after_placing(g, before.next, before.point, sketch, start);
                placing_keeps_wf(g, before.next, before.point, sketch);
            },
            Step::Report(sketch) => {
                report_keeps_wf(before, sketch);
                chain_after_placing(g, before.next, PointView::top(), sketch, start);
                placing_keeps_wf(g, before.next, PointView::top(), sketch);
            },
        }
    }
}

/// Every block that names a parent is held by that parent, and by no other
/// block; and no block holds a block twice.
pub proof fn parent_holds_child_alone(g: Seq<Node>, i: int)
    requires
        wf(g),
        0 <= i < g.len(),
        g[i].parent is Some,
    ensures
        owns(g, g[i].parent->0),
        holds(g[g[i].parent->0.index as int], at(g, i)),
        forall|q: int| 0 <= q < g.len() && holds(g[q], at(g, i)) ==> q == g[i].parent->0.index,
        forall|q: int| 0 <= q < g.len() ==> tidy(#[trigger] g[q]),
{
    assert(parent_ok(g, i));
}

/// A block that no block names as its parent is held by no block: it stands
/// at the top level.
pub proof fn top_level_block_is_held_by_none(g: Seq<Node>, i: int)
    requires
        wf(g),
        0 <= i < g.len(),
        g[i].parent is None,
    ensures
        forall|q: int| 0 <= q < g.len() ==> !holds(#[trigger] g[q], at(g, i)),
{
}

/// The blocks of a consistent target have identifiers of their own: no two
/// blocks share one, so that each stands under a key of its own in the map of
/// blocks, and all of them have been issued.
pub proof fn blocks_have_distinct_ids(t: TargetView, i: int, j: int)
    requires
        t.sound(),
        0 <= i < t.unit.blocks.len(),
        0 <= j < t.unit.blocks.len(),
        i != j,
    ensures
        t.unit.blocks[i].id != t.unit.blocks[j].id,
        tagged('b', t.unit.blocks[i].id) != tagged('b', t.unit.blocks[j].id),
        t.unit.blocks[i].id < t.next,
{
    keys_differ('b', t.unit.blocks[i].id, t.unit.blocks[j].id);
}

/// Variables that were added one by one have identifiers of their own, also
/// where they share a display name, and so stand under keys of their own in
/// the map of variables; and so it is with lists and with comments.
pub proof fn entities_have_distinct_ids(unit: UnitView, next: nat, i: int, j: int)
    requires
        unit.wf(next),
        0 <= i < j,
    ensures
        j < unit.variables.len() ==> unit.variables[i].id != unit.variables[j].id && tagged(
            'v',
            unit.variables[i].id,
        ) != tagged('v', unit.variables[j].id),
        j < unit.lists.len() ==> unit.lists[i].id != unit.lists[j].id && tagged(
            'l',
            unit.lists[i].id,
        ) != tagged('l', unit.lists[j].id),
        j < unit.comments.len() ==> unit.comments[i].id != unit.comments[j].id && tagged(
            'c',
            unit.comments[i].id,
        ) != tagged('c', unit.comments[j].id),
{
    if j < unit.variables.len() {
        keys_differ('v', unit.variables[i].id, unit.variables[j].id);
    }
    if j < unit.lists.len() {
        keys_differ('l', unit.lists[i].id, unit.lists[j].id);
    }
    if j < unit.comments.len() {
        keys_differ('c', unit.comments[i].id, unit.comments[j].id);
    }
}

/// The identifiers that a custom block gets for its parameters differ from
/// one another, and from every identifier that is in the target before.
pub proof fn parameter_ids_are_new(t: TargetView, n: nat, i: int, j: int)
    requires
        t.sound(),
        0 <= i < n,
        0 <= j < n,
    ensures
        i != j ==> t.parameter_ids(n)[i] != t.parameter_ids(n)[j],
        t.parameter_ids(n)[i] >= t.next,
        !t.unit.names(t.parameter_ids(n)[i]),
{
    if t.unit.names(t.parameter_ids(n)[i]) {
        named_is_issued(t.unit, t.next, t.parameter_ids(n)[i]);
    }
}

/// A consistent unit stays consistent when the generator moves on.
pub proof fn unit_stays_consistent(unit: UnitView, next: nat, later: nat)
    requires
        unit.wf(next),
        next <= later,
    ensures
        unit.wf(later),
{
}

/// A project is consistent again once a handle has been given back: the
/// target that the handle was on is what the handle left, the others are what
/// they were, and the generator is where the handle left it.
pub proof fn handing_back_keeps_wf(before: ProjectView, index: int, handle: TargetView)
    requires
        before.wf(),
        0 <= index < before.units.len(),
        handle.sound(),
        handle.grown_from(before.lend(before.units[index])),
    ensures
        (ProjectView { next: handle.next, units: before.units.update(index, handle.unit) }).wf(),
{
    let after = ProjectView { next: handle.next, units: before.units.update(index, handle.unit) };
    assert forall|i: int| 0 <= i < after.units.len() implies (#[trigger] after.units[i]).wf(
        after.next,
    ) by {
        if i != index {
            unit_stays_consistent(before.units[i], before.next, after.next);
        }
    }
    assert forall|i: int, j: int, id: nat| 0 <= i < j < after.units.len() implies !(
    #[trigger] after.units[i].names(id) && #[trigger] after.units[j].names(id)) by {
        // An identifier that the handle brought is new, so the other target,
        // which is what it was, does not have it.
        if after.units[i].names(id) && after.units[j].names(id) {
            let other = if i == index {
                j
            } else {
                i
            };
            named_is_issued(before.units[other], before.next, id);
        }
    }
}

/// A project stays consistent when a sprite with nothing in it is added.
pub proof fn new_sprite_keeps_wf(before: ProjectView, name: Seq<char>)
    requires
        before.wf(),
    ensures
        (ProjectView {
            next: before.next,
            units: before.units.push(UnitView::empty(name, false)),
        }).wf(),
{
    let after = ProjectView {
        next: before.next,
        units: before.units.push(UnitView::empty(name, false)),
    };
    assert forall|i: int, j: int, id: nat| 0 <= i < j < after.units.len() implies !(
    #[trigger] after.units[i].names(id) && #[trigger] after.units[j].names(id)) by {
        // The new sprite has no identifier in it.
        assert(j == before.units.len() ==> !after.units[j].names(id));
    }
}

/// Encoding is a function of the project: two encodings of one project are
/// the same text, and the same bytes.
pub proof fn encoding_is_deterministic(project: ProjectView, first: Seq<char>, second: Seq<char>)
    requires
        first == project.text(),
        second == project.text(),
    ensures
        first == second,
        encode_utf8(first) == encode_utf8(second),
{
}

} // verus!
