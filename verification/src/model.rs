//! The builder as a function: what a target is after each call, and the
//! proofs that the calls keep it consistent.

use crate::block::{InputView, KeyView, Ref, Sketch, SlotView};
use crate::custom::{argument_reporter, CustomBlockView, MutationView, Parameter};
use crate::graph::{
    accepts, admits, free, placed, placing_at_top_is_free, placing_keeps_fresh,
    placing_keeps_point, placing_keeps_wf, placing_opens_point, Place, PointView,
};
use crate::operand::Operand;
use crate::unit::UnitView;
use vstd::prelude::*;

verus! {

/// A target under construction, as the builder sees it: the unit, the
/// identifier that the generator issues next, and the insertion point.
pub struct TargetView {
    pub unit: UnitView,
    pub next: nat,
    pub point: PointView,
}

impl TargetView {
    /// The unit is consistent for the generator, which has issued at least
    /// nothing and at most everything.
    pub open spec fn sound(self) -> bool {
        &&& 1 <= self.next <= u32::MAX
        &&& self.unit.wf(self.next)
    }

    /// The target is consistent: its unit is, and a block can attach at its
    /// insertion point.
    pub open spec fn wf(self) -> bool {
        &&& self.sound()
        &&& admits(self.unit.blocks, self.point)
    }

    /// The generator can issue `n` more identifiers.
    pub open spec fn room(self, n: int) -> bool {
        self.next + n <= u32::MAX
    }

    /// The reference that the next block gets.
    pub open spec fn me(self) -> Ref {
        Ref { uid: self.next, index: self.unit.blocks.len() }
    }

    /// Whether the operand can still be taken by a block of this target.
    pub open spec fn free(self, operand: InputView) -> bool {
        free(self.unit.blocks, operand)
    }

    /// Whether a new block of this target can take `inputs`.
    pub open spec fn takes(self, inputs: Seq<SlotView>) -> bool {
        accepts(self.unit.blocks, inputs)
    }

    /// Whether building can go on at `point`.
    pub open spec fn resumes(self, point: PointView) -> bool {
        admits(self.unit.blocks, point)
    }

    /// The target after the block `sketch` has entered it at `point`, under
    /// the identifier that the generator issued for it.
    pub open spec fn insert(self, point: PointView, sketch: Sketch) -> TargetView {
        TargetView {
            unit: UnitView {
                blocks: placed(self.unit.blocks, self.next, point, sketch),
                ..self.unit
            },
            next: self.next + 1,
            point: self.point,
        }
    }

    /// The target after the block `sketch` has entered it at the top level,
    /// attached to nothing: an operand that waits to be taken, or the first
    /// block of a script.
    pub open spec fn report(self, sketch: Sketch) -> TargetView {
        self.insert(PointView::top(), sketch)
    }

    /// The target after the block `sketch` has been placed: it has entered
    /// at the insertion point, and the insertion point is behind it.
    pub open spec fn put(self, sketch: Sketch) -> TargetView {
        TargetView { point: PointView::after(self.me()), ..self.insert(self.point, sketch) }
    }

    /// The target with the insertion point moved to `place` of the same
    /// block.
    pub open spec fn enter(self, place: Place) -> TargetView {
        TargetView { point: PointView { place, ..self.point }, ..self }
    }

    /// The target with the insertion point `point`.
    pub open spec fn at(self, point: PointView) -> TargetView {
        TargetView { point, ..self }
    }

    /// The target after the generator has issued `n` identifiers that name
    /// nothing in it.
    pub open spec fn skip(self, n: nat) -> TargetView {
        TargetView { next: self.next + n, ..self }
    }

    /// The target after the blocks `sketches` have entered it at the top
    /// level, in order.
    pub open spec fn reports(self, sketches: Seq<Sketch>) -> TargetView
        decreases sketches.len(),
    {
        if sketches.len() == 0 {
            self
        } else {
            self.reports(sketches.drop_last()).report(sketches.last())
        }
    }

    /// Whether the target has come from `earlier` by issuing identifiers:
    /// it is the same target, the stage or a sprite of the same name, and
    /// every identifier that names something in it named that in `earlier`,
    /// or has been issued since.
    pub open spec fn grown_from(self, earlier: TargetView) -> bool {
        &&& self.unit.name == earlier.unit.name
        &&& self.unit.is_stage == earlier.unit.is_stage
        &&& earlier.next <= self.next
        &&& forall|id: nat| #[trigger]
            self.unit.names(id) ==> earlier.unit.names(id) || earlier.next <= id < self.next
    }
}

/// The views of the operands `operands`, one for one.
pub open spec fn operand_views(operands: Seq<Operand>) -> Seq<InputView> {
    Seq::new(operands.len(), |i: int| operands[i]@)
}

/// The inputs of a call of a custom block: the arguments in order, each in
/// the slot of the parameter at its position, as far as both go.
pub open spec fn call_slots(param_ids: Seq<nat>, arguments: Seq<InputView>) -> Seq<SlotView> {
    Seq::new(
        if param_ids.len() <= arguments.len() {
            param_ids.len()
        } else {
            arguments.len()
        },
        |i: int| SlotView { key: KeyView::Argument(param_ids[i]), value: arguments[i] },
    )
}

/// The block that calls the custom block `block` with `arguments`.
pub open spec fn call_sketch(block: CustomBlockView, arguments: Seq<InputView>) -> Sketch {
    Sketch {
        opcode: "procedures_call"@,
        inputs: call_slots(block.param_ids, arguments),
        fields: None,
        mutation: Some(block.mutation),
    }
}

impl TargetView {
    /// The identifiers that a custom block with `n` parameters gets for
    /// them: the next `n` of the generator.
    pub open spec fn parameter_ids(self, n: nat) -> Seq<nat> {
        Seq::new(n, |i: int| (self.next + i) as nat)
    }

    /// The blocks that stand for the parameters of a custom block inside its
    /// body.
    pub open spec fn argument_reporters(parameters: Seq<Parameter>) -> Seq<Sketch> {
        Seq::new(parameters.len(), |i: int| argument_reporter(parameters[i]))
    }

    /// The inputs of the prototype of a custom block with `n` parameters:
    /// under the identifier of each parameter, the block that stands for it.
    /// Those blocks enter the target first, after the identifiers of the
    /// parameters have been issued.
    pub open spec fn prototype_slots(self, n: nat) -> Seq<SlotView> {
        Seq::new(
            n,
            |i: int|
                SlotView {
                    key: KeyView::Argument((self.next + i) as nat),
                    value: InputView::Substack(
                        Ref {
                            uid: (self.next + n + i) as nat,
                            index: (self.unit.blocks.len() + i) as nat,
                        },
                    ),
                },
        )
    }

    /// The prototype of the custom block `name` with the given parameters.
    pub open spec fn prototype(self, name: Seq<char>, parameters: Seq<Parameter>) -> Sketch {
        Sketch {
            opcode: "procedures_prototype"@,
            inputs: self.prototype_slots(parameters.len()),
            fields: None,
            mutation: Some(
                MutationView::prototype(name, parameters, self.parameter_ids(parameters.len())),
            ),
        }
    }

    /// The reference to the prototype of a custom block with `n` parameters
    /// that is defined next.
    pub open spec fn prototype_ref(self, n: nat) -> Ref {
        Ref { uid: self.next + 2 * n, index: self.unit.blocks.len() + n }
    }

    /// The reference to the definition of a custom block with `n` parameters
    /// that is defined next.
    pub open spec fn definition_ref(self, n: nat) -> Ref {
        Ref { uid: self.next + 2 * n + 1, index: self.unit.blocks.len() + n + 1 }
    }

    /// The target after the custom block `name` has been defined: the
    /// generator has issued an identifier for each parameter; the blocks that
    /// stand for the parameters have entered, then the prototype, which holds
    /// them, then the definition, which holds the prototype and stands at the
    /// top level. The insertion point is where it was.
    pub open spec fn define(self, name: Seq<char>, parameters: Seq<Parameter>) -> TargetView {
        let n = parameters.len();
        self.skip(n).reports(Self::argument_reporters(parameters)).report(
            self.prototype(name, parameters),
        ).report(
            Sketch::unary(
                "procedures_definition"@,
                "custom_block"@,
                InputView::Prototype(self.prototype_ref(n)),
            ),
        )
    }

    /// What the calls of the custom block `name` need, once it has been
    /// defined in this target: the mutation of its prototype without the
    /// names and default values, and the identifiers of its parameters.
    pub open spec fn defined(self, name: Seq<char>, parameters: Seq<Parameter>) -> CustomBlockView {
        CustomBlockView {
            mutation: MutationView::prototype(
                name,
                parameters,
                self.parameter_ids(parameters.len()),
            ).call(),
            param_ids: self.parameter_ids(parameters.len()),
        }
    }
}

/// Identifiers that are issued for nothing leave a consistent target
/// consistent.
pub proof fn skip_keeps_wf(t: TargetView, n: nat)
    requires
        t.wf(),
        t.room(n as int),
    ensures
        t.skip(n).wf(),
{
}

/// What the target is after one more block of `sketches` has entered at the
/// top level.
pub proof fn reports_step(t: TargetView, sketches: Seq<Sketch>, i: int)
    requires
        0 <= i < sketches.len(),
    ensures
        t.reports(sketches.take(i + 1)) == t.reports(sketches.take(i)).report(sketches[i]),
{
    assert(sketches.take(i + 1).drop_last() == sketches.take(i));
}

/// Entering a block keeps a target sound.
pub proof fn insert_keeps_sound(t: TargetView, point: PointView, sketch: Sketch)
    requires
        t.sound(),
        t.room(1),
        t.resumes(point),
        t.takes(sketch.inputs),
    ensures
        t.insert(point, sketch).sound(),
{
    placing_keeps_wf(t.unit.blocks, t.next, point, sketch);
    placing_keeps_fresh(t.unit.blocks, t.next, point, sketch);
}

/// A block that enters at the top level leaves a consistent target
/// consistent, and is then a free operand of it.
pub proof fn report_keeps_wf(t: TargetView, sketch: Sketch)
    requires
        t.wf(),
        t.room(1),
        t.takes(sketch.inputs),
    ensures
        t.report(sketch).wf(),
        t.report(sketch).free(InputView::Substack(t.me())),
        t.report(sketch).free(InputView::Prototype(t.me())),
        t.report(sketch).resumes(PointView::after(t.me())),
{
    insert_keeps_sound(t, PointView::top(), sketch);
    placing_keeps_point(t.unit.blocks, t.next, PointView::top(), sketch, t.point);
    placing_at_top_is_free(t.unit.blocks, t.next, sketch);
    placing_opens_point(t.unit.blocks, t.next, PointView::top(), sketch);
}

/// A block that is placed leaves a consistent target consistent.
pub proof fn put_keeps_wf(t: TargetView, sketch: Sketch)
    requires
        t.wf(),
        t.room(1),
        t.takes(sketch.inputs),
    ensures
        t.put(sketch).wf(),
        forall|place: Place| #[trigger] t.put(sketch).enter(place).wf(),
{
    insert_keeps_sound(t, t.point, sketch);
    placing_opens_point(t.unit.blocks, t.next, t.point, sketch);
}

/// Every identifier that names something in a consistent unit has been
/// issued.
pub proof fn named_is_issued(unit: UnitView, next: nat, id: nat)
    requires
        unit.wf(next),
        unit.names(id),
    ensures
        id < next,
{
}

/// A block that enters a target gets the identifier that the generator
/// issues, and no other identifier enters with it.
pub proof fn insert_grows(t: TargetView, point: PointView, sketch: Sketch)
    requires
        t.resumes(point),
    ensures
        t.insert(point, sketch).grown_from(t),
{
}

/// Growth adds up: what has grown from a target that has grown from another
/// has grown from that one.
pub proof fn growth_adds_up(first: TargetView, second: TargetView, third: TargetView)
    requires
        second.grown_from(first),
        third.grown_from(second),
    ensures
        third.grown_from(first),
{
}

} // verus!
