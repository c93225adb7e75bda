//! The builder: a handle on one target through which blocks, variables,
//! lists, costumes and comments enter it.

use crate::block::{
    fields_view, link_view, no_slots, one_slot, sketch_of, slot, slot_views, two_slots, Fields,
    FieldsView, Hat, Id, Input, InputView, Key, Sketch, Slot, SlotView, Stacking,
};
use crate::costume::Costume;
use crate::custom::{
    argument_reporter, id_values, render_defaults, render_ids, render_names, render_signature,
    CustomBlock, Mutation, Parameter, ParameterKind,
};
use crate::entity::{List, ListRef, Variable, VariableRef};
use crate::graph::{
    accepts_none, accepts_one, accepts_two, apart, placing_keeps_free, placing_keeps_wf,
    InsertionPoint, Place, PointView,
};
use crate::model::{
    call_sketch, call_slots, insert_grows, insert_keeps_sound, operand_views, put_keeps_wf,
    report_keeps_wf, reports_step, skip_keeps_wf, TargetView,
};
use crate::operand::Operand;
use crate::uid::{Generator, Uid};
use crate::unit::{CommentEntry, ListEntry, Unit, UnitView, VariableEntry};
use vstd::prelude::*;

verus! {

/// A handle on one target of a project: the builder.
///
/// It borrows the target and the project's generator, and carries the
/// insertion point: where the next block that is placed attaches.
///
/// What a method does to the target is stated over the view of the handle,
/// a [`TargetView`]. Each method also says that the handle is on the same
/// target and the same generator afterwards as before: what the two borrows
/// give back in the end is the same, so that everything that was done through
/// the handle is found in the project once the handle is gone.
pub struct Target<'a> {
    /// The target.
    pub inner: &'a mut Unit,
    /// The generator of the project.
    pub generator: &'a mut Generator,
    /// The insertion point.
    pub point: InsertionPoint,
}

impl<'a> View for Target<'a> {
    type V = TargetView;

    open spec fn view(&self) -> TargetView {
        TargetView { unit: (*self.inner)@, next: self.generator.next(), point: self.point@ }
    }
}

impl<'a> Target<'a> {
    /// Enters a block at the point that `parent` and `place` make.
    fn emit(
        &mut self,
        parent: Option<Id>,
        place: Place,
        opcode: &'static str,
        inputs: Vec<Slot>,
        fields: Option<Fields>,
        mutation: Option<Mutation>,
    ) -> (id: Id)
        requires
            old(self)@.sound(),
            old(self)@.room(1),
            old(self)@.resumes(PointView { parent: link_view(parent), place }),
            old(self)@.takes(slot_views(inputs@)),
        ensures
            id@ == old(self)@.me(),
            final(self)@ == old(self)@.insert(
                PointView { parent: link_view(parent), place },
                sketch_of(opcode, inputs@, fields, mutation),
            ),
            final(self)@.sound(),
            final(self)@.grown_from(old(self)@),
            *final(final(self).inner) == *final(old(self).inner),
            *final(final(self).generator) == *final(old(self).generator),
    {
        proof {
            insert_grows(
                self@,
                PointView { parent: link_view(parent), place },
                sketch_of(opcode, inputs@, fields, mutation),
            );
            insert_keeps_sound(
                self@,
                PointView { parent: link_view(parent), place },
                sketch_of(opcode, inputs@, fields, mutation),
            );
        }
        let uid = self.generator.new_uid();
        self.inner.insert(uid, parent, place, opcode, inputs, fields, mutation)
    }

    /// Enters an operand block: a block at the top level that waits to be
    /// taken.
    fn op(&mut self, opcode: &'static str, inputs: Vec<Slot>, fields: Option<Fields>) -> (result:
        Operand)
        requires
            old(self)@.wf(),
            old(self)@.room(1),
            old(self)@.takes(slot_views(inputs@)),
        ensures
            result@ == InputView::Substack(old(self)@.me()),
            final(self)@ == old(self)@.report(sketch_of(opcode, inputs@, fields, None)),
            final(self)@.wf(),
            final(self)@.free(result@),
            final(self)@.grown_from(old(self)@),
            *final(final(self).inner) == *final(old(self).inner),
            *final(final(self).generator) == *final(old(self).generator),
    {
        proof {
            report_keeps_wf(
                self@,
                sketch_of(opcode, inputs@, fields, None),
            );
        }
        let id = self.emit(None, Place::Next, opcode, inputs, fields, None);
        Operand::block(id)
    }

    /// How many identifiers the generator can still issue: each block,
    /// variable, list and comment takes one, and so does each parameter of a
    /// custom block.
    pub fn spare(&self) -> (n: u32)
        ensures
            self@.room(n as int),
            !self@.room(n + 1),
    {
        self.generator.remaining()
    }

    /// Adds a comment to the target.
    pub fn add_comment(&mut self, text: String)
        requires
            old(self)@.wf(),
            old(self)@.room(1),
        ensures
            final(self)@ == (TargetView {
                unit: UnitView {
                    comments: old(self)@.unit.comments.push(
                        CommentEntry { id: old(self)@.next, comment: text@ },
                    ),
                    ..old(self)@.unit
                },
                next: old(self)@.next + 1,
                ..old(self)@
            }),
            final(self)@.wf(),
            final(self)@.grown_from(old(self)@),
            *final(final(self).inner) == *final(old(self).inner),
            *final(final(self).generator) == *final(old(self).generator),
    {
        let id = self.generator.new_uid();
        self.inner.add_comment(id, text);
    }

    /// Adds a costume to the target.
    pub fn add_costume(&mut self, costume: Costume)
        ensures
            final(self)@ == (TargetView {
                unit: UnitView {
                    costumes: old(self)@.unit.costumes.push(costume@),
                    ..old(self)@.unit
                },
                ..old(self)@
            }),
            old(self)@.wf() ==> final(self)@.wf(),
            final(self)@.grown_from(old(self)@),
            *final(final(self).inner) == *final(old(self).inner),
            *final(final(self).generator) == *final(old(self).generator),
    {
        self.inner.add_costume(costume);
    }

    /// Adds a variable to the target, under a fresh identifier, and returns
    /// a reference to it.
    pub fn add_variable(&mut self, variable: Variable) -> (r: VariableRef)
        requires
            old(self)@.wf(),
            old(self)@.room(1),
        ensures
            r@.name == variable.name@,
            r@.id == old(self)@.next,
            final(self)@ == (TargetView {
                unit: UnitView {
                    variables: old(self)@.unit.variables.push(
                        VariableEntry { id: old(self)@.next, variable },
                    ),
                    ..old(self)@.unit
                },
                next: old(self)@.next + 1,
                ..old(self)@
            }),
            final(self)@.wf(),
            final(self)@.grown_from(old(self)@),
            *final(final(self).inner) == *final(old(self).inner),
            *final(final(self).generator) == *final(old(self).generator),
    {
        let id = self.generator.new_uid();
        self.inner.add_variable(id, variable)
    }

    /// Adds a list to the target, under a fresh identifier, and returns a
    /// reference to it.
    pub fn add_list(&mut self, list: List) -> (r: ListRef)
        requires
            old(self)@.wf(),
            old(self)@.room(1),
        ensures
            r@.name == list.name@,
            r@.id == old(self)@.next,
            final(self)@ == (TargetView {
                unit: UnitView {
                    lists: old(self)@.unit.lists.push(ListEntry { id: old(self)@.next, list }),
                    ..old(self)@.unit
                },
                next: old(self)@.next + 1,
                ..old(self)@
            }),
            final(self)@.wf(),
            final(self)@.grown_from(old(self)@),
            *final(final(self).inner) == *final(old(self).inner),
            *final(final(self).generator) == *final(old(self).generator),
    {
        let id = self.generator.new_uid();
        self.inner.add_list(id, list)
    }

    /// Makes `point` the insertion point, and returns the one that it
    /// replaces.
    pub fn insert_at(&mut self, point: InsertionPoint) -> (previous: InsertionPoint)
        requires
            old(self)@.resumes(point@),
        ensures
            previous@ == old(self)@.point,
            final(self)@ == old(self)@.at(point@),
            old(self)@.wf() ==> final(self)@.wf() && final(self)@.resumes(previous@),
            final(self)@.grown_from(old(self)@),
            *final(final(self).inner) == *final(old(self).inner),
            *final(final(self).generator) == *final(old(self).generator),
    {
        let previous = InsertionPoint::new(self.point.parent(), self.point.place());
        self.point = point;
        previous
    }

    /// Starts a script: the hat enters the target at the top level, and the
    /// insertion point is behind it. A hat holds no inputs and no mutation, so
    /// that no block of the target gets a parent by it.
    pub fn start_script(&mut self, hat: Hat)
        requires
            old(self)@.wf(),
            old(self)@.room(1),
        ensures
            hat@.inputs == Seq::<SlotView>::empty(),
            hat@.mutation is None,
            final(self)@ == old(self)@.report(hat@).at(PointView::after(old(self)@.me())),
            final(self)@.wf(),
            final(self)@.grown_from(old(self)@),
            *final(final(self).inner) == *final(old(self).inner),
            *final(final(self).generator) == *final(old(self).generator),
    {
        let (opcode, fields) = hat.into_parts();
        proof {
            accepts_none(self@.unit.blocks);
            report_keeps_wf(self@, hat@);
        }
        let id = self.emit(None, Place::Next, opcode, no_slots(), fields, None);
        self.point = InsertionPoint::new(Some(id), Place::Next);
    }

    /// Places a stacking block: it enters the target at the insertion point,
    /// and the insertion point is then behind it. A stacking block holds no
    /// mutation.
    pub fn put(&mut self, block: Stacking)
        requires
            old(self)@.wf(),
            old(self)@.room(1),
            old(self)@.takes(block@.inputs),
        ensures
            block@.mutation is None,
            final(self)@ == old(self)@.put(block@),
            final(self)@.wf(),
            final(self)@.grown_from(old(self)@),
            *final(final(self).inner) == *final(old(self).inner),
            *final(final(self).generator) == *final(old(self).generator),
    {
        let (opcode, inputs, fields) = block.into_parts();
        proof {
            put_keeps_wf(self@, block@);
        }
        let id = self.emit(self.point.parent(), self.point.place(), opcode, inputs, fields, None);
        self.point = InsertionPoint::new(Some(id), Place::Next);
    }

    /// Enters an operand block that holds nothing.
    fn nullary(&mut self, opcode: &'static str, fields: Option<Fields>) -> (result: Operand)
        requires
            old(self)@.wf(),
            old(self)@.room(1),
        ensures
            result@ == InputView::Substack(old(self)@.me()),
            final(self)@ == old(self)@.report(
                Sketch { fields: fields_view(fields), ..Sketch::plain(opcode@) },
            ),
            final(self)@.wf(),
            final(self)@.free(result@),
            final(self)@.grown_from(old(self)@),
            *final(final(self).inner) == *final(old(self).inner),
            *final(final(self).generator) == *final(old(self).generator),
    {
        proof {
            accepts_none(self@.unit.blocks);
        }
        self.op(opcode, no_slots(), fields)
    }

    /// Enters an operand block with one input.
    fn unary(
        &mut self,
        opcode: &'static str,
        key: &'static str,
        value: Operand,
        fields: Option<Fields>,
    ) -> (result: Operand)
        requires
            old(self)@.wf(),
            old(self)@.room(1),
            old(self)@.free(value@),
        ensures
            result@ == InputView::Substack(old(self)@.me()),
            final(self)@ == old(self)@.report(
                Sketch { fields: fields_view(fields), ..Sketch::unary(opcode@, key@, value@) },
            ),
            final(self)@.wf(),
            final(self)@.free(result@),
            final(self)@.grown_from(old(self)@),
            *final(final(self).inner) == *final(old(self).inner),
            *final(final(self).generator) == *final(old(self).generator),
    {
        proof {
            accepts_one(self@.unit.blocks, slot(key@, value@));
        }
        self.op(opcode, one_slot(key, value.into_input()), fields)
    }

    /// Enters an operand block with two inputs.
    fn binary(
        &mut self,
        opcode: &'static str,
        first_key: &'static str,
        first: Operand,
        second_key: &'static str,
        second: Operand,
    ) -> (result: Operand)
        requires
            old(self)@.wf(),
            old(self)@.room(1),
            old(self)@.free(first@),
            old(self)@.free(second@),
            apart(first@, second@),
        ensures
            result@ == InputView::Substack(old(self)@.me()),
            final(self)@ == old(self)@.report(
                Sketch::binary(opcode@, first_key@, first@, second_key@, second@),
            ),
            final(self)@.wf(),
            final(self)@.free(result@),
            final(self)@.grown_from(old(self)@),
            *final(final(self).inner) == *final(old(self).inner),
            *final(final(self).generator) == *final(old(self).generator),
    {
        proof {
            accepts_two(self@.unit.blocks, slot(first_key@, first@), slot(second_key@, second@));
        }
        self.op(
            opcode,
            two_slots(first_key, first.into_input(), second_key, second.into_input()),
            None,
        )
    }

    /// Places a control block with one input and, if `fields` is given,
    /// with fields, and moves the insertion point into its first nested
    /// sequence. Returns the point behind the block.
    fn nest(
        &mut self,
        opcode: &'static str,
        key: &'static str,
        value: Operand,
        fields: Option<Fields>,
    ) -> (after: InsertionPoint)
        requires
            old(self)@.wf(),
            old(self)@.room(1),
            old(self)@.free(value@),
        ensures
            after@ == PointView::after(old(self)@.me()),
            final(self)@ == old(self)@.put(
                Sketch { fields: fields_view(fields), ..Sketch::unary(opcode@, key@, value@) },
            ).enter(Place::Substack1),
            final(self)@.wf(),
            final(self)@.resumes(after@),
            final(self)@.grown_from(old(self)@),
            *final(final(self).inner) == *final(old(self).inner),
            *final(final(self).generator) == *final(old(self).generator),
    {
        proof {
            accepts_one(self@.unit.blocks, slot(key@, value@));
            let sketch = Sketch {
                fields: fields_view(fields),
                ..Sketch::unary(opcode@, key@, value@)
            };
            put_keeps_wf(self@, sketch);
        }
        self.put(Stacking::new(opcode, one_slot(key, value.into_input()), fields));
        let inside = InsertionPoint::new(self.point.parent(), Place::Substack1);
        self.insert_at(inside)
    }


    /// Places a block that runs its nested sequence without end, and moves the
    /// insertion point into that sequence. Nothing can follow such a block, so
    /// no point behind it is handed out.
    pub fn forever(&mut self)
        requires
            old(self)@.wf(),
            old(self)@.room(1),
        ensures
            final(self)@ == old(self)@.put(Sketch::plain("control_forever"@)).enter(
                Place::Substack1,
            ),
            final(self)@.wf(),
            final(self)@.grown_from(old(self)@),
            *final(final(self).inner) == *final(old(self).inner),
            *final(final(self).generator) == *final(old(self).generator),
    {
        proof {
            accepts_none(self@.unit.blocks);
            put_keeps_wf(self@, Sketch::plain("control_forever"@));
        }
        self.put(Stacking::new("control_forever", no_slots(), None));
        self.point = InsertionPoint::new(self.point.parent(), Place::Substack1);
    }


    /// Places a block that runs its nested sequence `times` times, and moves the
    /// insertion point into that sequence. Returns the point behind the block.
    pub fn repeat(&mut self, times: Operand) -> (after: InsertionPoint)
        requires
            old(self)@.wf(),
            old(self)@.room(1),
            old(self)@.free(times@),
        ensures
            after@ == PointView::after(old(self)@.me()),
            final(self)@ == old(self)@.put(
                Sketch::unary("control_repeat"@, "TIMES"@, times@),
            ).enter(Place::Substack1),
            final(self)@.wf(),
            final(self)@.resumes(after@),
            final(self)@.grown_from(old(self)@),
            *final(final(self).inner) == *final(old(self).inner),
            *final(final(self).generator) == *final(old(self).generator),
    {
        self.nest("control_repeat", "TIMES", times, None)
    }


    /// Places a block that runs its nested sequence once for each number up to
    /// `times`, with `variable` as the counter, and moves the insertion point
    /// into that sequence. Returns the point behind the block.
    pub fn for_(&mut self, variable: VariableRef, times: Operand) -> (after: InsertionPoint)
        requires
            old(self)@.wf(),
            old(self)@.room(1),
            old(self)@.free(times@),
        ensures
            after@ == PointView::after(old(self)@.me()),
            final(self)@ == old(self)@.put(
                Sketch::unary("control_for_each"@, "VALUE"@, times@).with(
                    FieldsView::Variable(variable@),
                ),
            ).enter(Place::Substack1),
            final(self)@.wf(),
            final(self)@.resumes(after@),
            final(self)@.grown_from(old(self)@),
            *final(final(self).inner) == *final(old(self).inner),
            *final(final(self).generator) == *final(old(self).generator),
    {
        self.nest("control_for_each", "VALUE", times, Some(Fields::Variable(variable)))
    }


    /// Places a block that runs its nested sequence if `condition` holds, and
    /// moves the insertion point into that sequence. Returns the point behind
    /// the block.
    pub fn if_(&mut self, condition: Operand) -> (after: InsertionPoint)
        requires
            old(self)@.wf(),
            old(self)@.room(1),
            old(self)@.free(condition@),
        ensures
            after@ == PointView::after(old(self)@.me()),
            final(self)@ == old(self)@.put(
                Sketch::unary("control_if"@, "CONDITION"@, condition@),
            ).enter(Place::Substack1),
            final(self)@.wf(),
            final(self)@.resumes(after@),
            final(self)@.grown_from(old(self)@),
            *final(final(self).inner) == *final(old(self).inner),
            *final(final(self).generator) == *final(old(self).generator),
    {
        self.nest("control_if", "CONDITION", condition, None)
    }


    /// Places a block that runs its first nested sequence if `condition` holds
    /// and its second if not. The insertion point is then behind the block;
    /// returned are the points of the first and of the second sequence.
    pub fn if_else(&mut self, condition: Operand) -> (branches: [InsertionPoint; 2])
        requires
            old(self)@.wf(),
            old(self)@.room(1),
            old(self)@.free(condition@),
        ensures
            branches@[0]@ == (PointView { parent: Some(old(self)@.me()), place: Place::Substack1 }),
            branches@[1]@ == (PointView { parent: Some(old(self)@.me()), place: Place::Substack2 }),
            final(self)@ == old(self)@.put(
                Sketch::unary("control_if_else"@, "CONDITION"@, condition@),
            ),
            final(self)@.wf(),
            final(self)@.resumes(branches@[0]@),
            final(self)@.resumes(branches@[1]@),
            final(self)@.grown_from(old(self)@),
            *final(final(self).inner) == *final(old(self).inner),
            *final(final(self).generator) == *final(old(self).generator),
    {
        proof {
            accepts_one(self@.unit.blocks, slot("CONDITION"@, condition@));
        }
        self.put(
            Stacking::new("control_if_else", one_slot("CONDITION", condition.into_input()), None),
        );
        let then = InsertionPoint::new(self.point.parent(), Place::Substack1);
        let otherwise = InsertionPoint::new(self.point.parent(), Place::Substack2);
        [then, otherwise]
    }


    /// Places a block that runs its nested sequence as long as `condition`
    /// holds, and moves the insertion point into that sequence. Returns the
    /// point behind the block.
    pub fn while_(&mut self, condition: Operand) -> (after: InsertionPoint)
        requires
            old(self)@.wf(),
            old(self)@.room(1),
            old(self)@.free(condition@),
        ensures
            after@ == PointView::after(old(self)@.me()),
            final(self)@ == old(self)@.put(
                Sketch::unary("control_while"@, "CONDITION"@, condition@),
            ).enter(Place::Substack1),
            final(self)@.wf(),
            final(self)@.resumes(after@),
            final(self)@.grown_from(old(self)@),
            *final(final(self).inner) == *final(old(self).inner),
            *final(final(self).generator) == *final(old(self).generator),
    {
        self.nest("control_while", "CONDITION", condition, None)
    }


    /// Places a block that runs its nested sequence until `condition` holds,
    /// and moves the insertion point into that sequence. Returns the point
    /// behind the block.
    pub fn repeat_until(&mut self, condition: Operand) -> (after: InsertionPoint)
        requires
            old(self)@.wf(),
            old(self)@.room(1),
            old(self)@.free(condition@),
        ensures
            after@ == PointView::after(old(self)@.me()),
            final(self)@ == old(self)@.put(
                Sketch::unary("control_repeat_until"@, "CONDITION"@, condition@),
            ).enter(Place::Substack1),
            final(self)@.wf(),
            final(self)@.resumes(after@),
            final(self)@.grown_from(old(self)@),
            *final(final(self).inner) == *final(old(self).inner),
            *final(final(self).generator) == *final(old(self).generator),
    {
        self.nest("control_repeat_until", "CONDITION", condition, None)
    }


    /// The sum of `lhs` and `rhs`.
    pub fn add(&mut self, lhs: Operand, rhs: Operand) -> (result: Operand)
        requires
            old(self)@.wf(),
            old(self)@.room(1),
            old(self)@.free(lhs@),
            old(self)@.free(rhs@),
            apart(lhs@, rhs@),
        ensures
            result@ == InputView::Substack(old(self)@.me()),
            final(self)@ == old(self)@.report(
                Sketch::binary("operator_add"@, "NUM1"@, lhs@, "NUM2"@, rhs@),
            ),
            final(self)@.wf(),
            final(self)@.free(result@),
            final(self)@.grown_from(old(self)@),
            *final(final(self).inner) == *final(old(self).inner),
            *final(final(self).generator) == *final(old(self).generator),
    {
        self.binary("operator_add", "NUM1", lhs, "NUM2", rhs)
    }


    /// The difference of `lhs` and `rhs`.
    pub fn sub(&mut self, lhs: Operand, rhs: Operand) -> (result: Operand)
        requires
            old(self)@.wf(),
            old(self)@.room(1),
            old(self)@.free(lhs@),
            old(self)@.free(rhs@),
            apart(lhs@, rhs@),
        ensures
            result@ == InputView::Substack(old(self)@.me()),
            final(self)@ == old(self)@.report(
                Sketch::binary("operator_subtract"@, "NUM1"@, lhs@, "NUM2"@, rhs@),
            ),
            final(self)@.wf(),
            final(self)@.free(result@),
            final(self)@.grown_from(old(self)@),
            *final(final(self).inner) == *final(old(self).inner),
            *final(final(self).generator) == *final(old(self).generator),
    {
        self.binary("operator_subtract", "NUM1", lhs, "NUM2", rhs)
    }


    /// The product of `lhs` and `rhs`.
    pub fn mul(&mut self, lhs: Operand, rhs: Operand) -> (result: Operand)
        requires
            old(self)@.wf(),
            old(self)@.room(1),
            old(self)@.free(lhs@),
            old(self)@.free(rhs@),
            apart(lhs@, rhs@),
        ensures
            result@ == InputView::Substack(old(self)@.me()),
            final(self)@ == old(self)@.report(
                Sketch::binary("operator_multiply"@, "NUM1"@, lhs@, "NUM2"@, rhs@),
            ),
            final(self)@.wf(),
            final(self)@.free(result@),
            final(self)@.grown_from(old(self)@),
            *final(final(self).inner) == *final(old(self).inner),
            *final(final(self).generator) == *final(old(self).generator),
    {
        self.binary("operator_multiply", "NUM1", lhs, "NUM2", rhs)
    }


    /// The quotient of `lhs` and `rhs`.
    pub fn div(&mut self, lhs: Operand, rhs: Operand) -> (result: Operand)
        requires
            old(self)@.wf(),
            old(self)@.room(1),
            old(self)@.free(lhs@),
            old(self)@.free(rhs@),
            apart(lhs@, rhs@),
        ensures
            result@ == InputView::Substack(old(self)@.me()),
            final(self)@ == old(self)@.report(
                Sketch::binary("operator_divide"@, "NUM1"@, lhs@, "NUM2"@, rhs@),
            ),
            final(self)@.wf(),
            final(self)@.free(result@),
            final(self)@.grown_from(old(self)@),
            *final(final(self).inner) == *final(old(self).inner),
            *final(final(self).generator) == *final(old(self).generator),
    {
        self.binary("operator_divide", "NUM1", lhs, "NUM2", rhs)
    }


    /// The remainder of `lhs` divided by `rhs`.
    pub fn modulo(&mut self, lhs: Operand, rhs: Operand) -> (result: Operand)
        requires
            old(self)@.wf(),
            old(self)@.room(1),
            old(self)@.free(lhs@),
            old(self)@.free(rhs@),
            apart(lhs@, rhs@),
        ensures
            result@ == InputView::Substack(old(self)@.me()),
            final(self)@ == old(self)@.report(
                Sketch::binary("operator_mod"@, "NUM1"@, lhs@, "NUM2"@, rhs@),
            ),
            final(self)@.wf(),
            final(self)@.free(result@),
            final(self)@.grown_from(old(self)@),
            *final(final(self).inner) == *final(old(self).inner),
            *final(final(self).generator) == *final(old(self).generator),
    {
        self.binary("operator_mod", "NUM1", lhs, "NUM2", rhs)
    }


    /// Whether `lhs` is less than `rhs`.
    pub fn lt(&mut self, lhs: Operand, rhs: Operand) -> (result: Operand)
        requires
            old(self)@.wf(),
            old(self)@.room(1),
            old(self)@.free(lhs@),
            old(self)@.free(rhs@),
            apart(lhs@, rhs@),
        ensures
            result@ == InputView::Substack(old(self)@.me()),
            final(self)@ == old(self)@.report(
                Sketch::binary("operator_lt"@, "OPERAND1"@, lhs@, "OPERAND2"@, rhs@),
            ),
            final(self)@.wf(),
            final(self)@.free(result@),
            final(self)@.grown_from(old(self)@),
            *final(final(self).inner) == *final(old(self).inner),
            *final(final(self).generator) == *final(old(self).generator),
    {
        self.binary("operator_lt", "OPERAND1", lhs, "OPERAND2", rhs)
    }


    /// Whether `lhs` equals `rhs`.
    pub fn eq(&mut self, lhs: Operand, rhs: Operand) -> (result: Operand)
        requires
            old(self)@.wf(),
            old(self)@.room(1),
            old(self)@.free(lhs@),
            old(self)@.free(rhs@),
            apart(lhs@, rhs@),
        ensures
            result@ == InputView::Substack(old(self)@.me()),
            final(self)@ == old(self)@.report(
                Sketch::binary("operator_equals"@, "OPERAND1"@, lhs@, "OPERAND2"@, rhs@),
            ),
            final(self)@.wf(),
            final(self)@.free(result@),
            final(self)@.grown_from(old(self)@),
            *final(final(self).inner) == *final(old(self).inner),
            *final(final(self).generator) == *final(old(self).generator),
    {
        self.binary("operator_equals", "OPERAND1", lhs, "OPERAND2", rhs)
    }


    /// Whether `lhs` is greater than `rhs`.
    pub fn gt(&mut self, lhs: Operand, rhs: Operand) -> (result: Operand)
        requires
            old(self)@.wf(),
            old(self)@.room(1),
            old(self)@.free(lhs@),
            old(self)@.free(rhs@),
            apart(lhs@, rhs@),
        ensures
            result@ == InputView::Substack(old(self)@.me()),
            final(self)@ == old(self)@.report(
                Sketch::binary("operator_gt"@, "OPERAND1"@, lhs@, "OPERAND2"@, rhs@),
            ),
            final(self)@.wf(),
            final(self)@.free(result@),
            final(self)@.grown_from(old(self)@),
            *final(final(self).inner) == *final(old(self).inner),
            *final(final(self).generator) == *final(old(self).generator),
    {
        self.binary("operator_gt", "OPERAND1", lhs, "OPERAND2", rhs)
    }


    /// Whether `operand` does not hold.
    pub fn not(&mut self, operand: Operand) -> (result: Operand)
        requires
            old(self)@.wf(),
            old(self)@.room(1),
            old(self)@.free(operand@),
        ensures
            result@ == InputView::Substack(old(self)@.me()),
            final(self)@ == old(self)@.report(Sketch::unary("operator_not"@, "OPERAND"@, operand@)),
            final(self)@.wf(),
            final(self)@.free(result@),
            final(self)@.grown_from(old(self)@),
            *final(final(self).inner) == *final(old(self).inner),
            *final(final(self).generator) == *final(old(self).generator),
    {
        self.unary("operator_not", "OPERAND", operand, None)
    }


    /// Whether both `lhs` and `rhs` hold.
    pub fn and(&mut self, lhs: Operand, rhs: Operand) -> (result: Operand)
        requires
            old(self)@.wf(),
            old(self)@.room(1),
            old(self)@.free(lhs@),
            old(self)@.free(rhs@),
            apart(lhs@, rhs@),
        ensures
            result@ == InputView::Substack(old(self)@.me()),
            final(self)@ == old(self)@.report(
                Sketch::binary("operator_and"@, "OPERAND1"@, lhs@, "OPERAND2"@, rhs@),
            ),
            final(self)@.wf(),
            final(self)@.free(result@),
            final(self)@.grown_from(old(self)@),
            *final(final(self).inner) == *final(old(self).inner),
            *final(final(self).generator) == *final(old(self).generator),
    {
        self.binary("operator_and", "OPERAND1", lhs, "OPERAND2", rhs)
    }


    /// Whether `lhs` or `rhs` holds.
    pub fn or(&mut self, lhs: Operand, rhs: Operand) -> (result: Operand)
        requires
            old(self)@.wf(),
            old(self)@.room(1),
            old(self)@.free(lhs@),
            old(self)@.free(rhs@),
            apart(lhs@, rhs@),
        ensures
            result@ == InputView::Substack(old(self)@.me()),
            final(self)@ == old(self)@.report(
                Sketch::binary("operator_or"@, "OPERAND1"@, lhs@, "OPERAND2"@, rhs@),
            ),
            final(self)@.wf(),
            final(self)@.free(result@),
            final(self)@.grown_from(old(self)@),
            *final(final(self).inner) == *final(old(self).inner),
            *final(final(self).generator) == *final(old(self).generator),
    {
        self.binary("operator_or", "OPERAND1", lhs, "OPERAND2", rhs)
    }


    /// The x position of the sprite.
    pub fn x_position(&mut self) -> (result: Operand)
        requires
            old(self)@.wf(),
            old(self)@.room(1),
        ensures
            result@ == InputView::Substack(old(self)@.me()),
            final(self)@ == old(self)@.report(Sketch::plain("motion_xposition"@)),
            final(self)@.wf(),
            final(self)@.free(result@),
            final(self)@.grown_from(old(self)@),
            *final(final(self).inner) == *final(old(self).inner),
            *final(final(self).generator) == *final(old(self).generator),
    {
        self.nullary("motion_xposition", None)
    }


    /// The y position of the sprite.
    pub fn y_position(&mut self) -> (result: Operand)
        requires
            old(self)@.wf(),
            old(self)@.room(1),
        ensures
            result@ == InputView::Substack(old(self)@.me()),
            final(self)@ == old(self)@.report(Sketch::plain("motion_yposition"@)),
            final(self)@.wf(),
            final(self)@.free(result@),
            final(self)@.grown_from(old(self)@),
            *final(final(self).inner) == *final(old(self).inner),
            *final(final(self).generator) == *final(old(self).generator),
    {
        self.nullary("motion_yposition", None)
    }


    /// The timer.
    pub fn timer(&mut self) -> (result: Operand)
        requires
            old(self)@.wf(),
            old(self)@.room(1),
        ensures
            result@ == InputView::Substack(old(self)@.me()),
            final(self)@ == old(self)@.report(Sketch::plain("sensing_timer"@)),
            final(self)@.wf(),
            final(self)@.free(result@),
            final(self)@.grown_from(old(self)@),
            *final(final(self).inner) == *final(old(self).inner),
            *final(final(self).generator) == *final(old(self).generator),
    {
        self.nullary("sensing_timer", None)
    }


    /// The answer to the last question.
    pub fn answer(&mut self) -> (result: Operand)
        requires
            old(self)@.wf(),
            old(self)@.room(1),
        ensures
            result@ == InputView::Substack(old(self)@.me()),
            final(self)@ == old(self)@.report(Sketch::plain("sensing_answer"@)),
            final(self)@.wf(),
            final(self)@.free(result@),
            final(self)@.grown_from(old(self)@),
            *final(final(self).inner) == *final(old(self).inner),
            *final(final(self).generator) == *final(old(self).generator),
    {
        self.nullary("sensing_answer", None)
    }


    /// The item of `list` at `index`.
    pub fn item_of_list(&mut self, list: ListRef, index: Operand) -> (result: Operand)
        requires
            old(self)@.wf(),
            old(self)@.room(1),
            old(self)@.free(index@),
        ensures
            result@ == InputView::Substack(old(self)@.me()),
            final(self)@ == old(self)@.report(
                Sketch::unary("data_itemoflist"@, "INDEX"@, index@).with(FieldsView::List(list@)),
            ),
            final(self)@.wf(),
            final(self)@.free(result@),
            final(self)@.grown_from(old(self)@),
            *final(final(self).inner) == *final(old(self).inner),
            *final(final(self).generator) == *final(old(self).generator),
    {
        self.unary("data_itemoflist", "INDEX", index, Some(Fields::List(list)))
    }


    /// The index of `item` in `list`.
    pub fn item_num_of_list(&mut self, list: ListRef, item: Operand) -> (result: Operand)
        requires
            old(self)@.wf(),
            old(self)@.room(1),
            old(self)@.free(item@),
        ensures
            result@ == InputView::Substack(old(self)@.me()),
            final(self)@ == old(self)@.report(
                Sketch::unary("data_itemnumoflist"@, "ITEM"@, item@).with(FieldsView::List(list@)),
            ),
            final(self)@.wf(),
            final(self)@.free(result@),
            final(self)@.grown_from(old(self)@),
            *final(final(self).inner) == *final(old(self).inner),
            *final(final(self).generator) == *final(old(self).generator),
    {
        self.unary("data_itemnumoflist", "ITEM", item, Some(Fields::List(list)))
    }


    /// The length of `string`.
    pub fn length(&mut self, string: Operand) -> (result: Operand)
        requires
            old(self)@.wf(),
            old(self)@.room(1),
            old(self)@.free(string@),
        ensures
            result@ == InputView::Substack(old(self)@.me()),
            final(self)@ == old(self)@.report(
                Sketch::unary("operator_length"@, "STRING"@, string@),
            ),
            final(self)@.wf(),
            final(self)@.free(result@),
            final(self)@.grown_from(old(self)@),
            *final(final(self).inner) == *final(old(self).inner),
            *final(final(self).generator) == *final(old(self).generator),
    {
        self.unary("operator_length", "STRING", string, None)
    }


    /// The length of `list`.
    pub fn length_of_list(&mut self, list: ListRef) -> (result: Operand)
        requires
            old(self)@.wf(),
            old(self)@.room(1),
        ensures
            result@ == InputView::Substack(old(self)@.me()),
            final(self)@ == old(self)@.report(
                Sketch::plain("data_lengthoflist"@).with(FieldsView::List(list@)),
            ),
            final(self)@.wf(),
            final(self)@.free(result@),
            final(self)@.grown_from(old(self)@),
            *final(final(self).inner) == *final(old(self).inner),
            *final(final(self).generator) == *final(old(self).generator),
    {
        self.nullary("data_lengthoflist", Some(Fields::List(list)))
    }


    /// The letter of `string` at `index`.
    pub fn letter_of(&mut self, string: Operand, index: Operand) -> (result: Operand)
        requires
            old(self)@.wf(),
            old(self)@.room(1),
            old(self)@.free(string@),
            old(self)@.free(index@),
            apart(string@, index@),
        ensures
            result@ == InputView::Substack(old(self)@.me()),
            final(self)@ == old(self)@.report(
                Sketch::binary("operator_letter_of"@, "STRING"@, string@, "LETTER"@, index@),
            ),
            final(self)@.wf(),
            final(self)@.free(result@),
            final(self)@.grown_from(old(self)@),
            *final(final(self).inner) == *final(old(self).inner),
            *final(final(self).generator) == *final(old(self).generator),
    {
        self.binary("operator_letter_of", "STRING", string, "LETTER", index)
    }


    /// Whether `haystack` contains `needle`.
    pub fn contains(&mut self, haystack: Operand, needle: Operand) -> (result: Operand)
        requires
            old(self)@.wf(),
            old(self)@.room(1),
            old(self)@.free(haystack@),
            old(self)@.free(needle@),
            apart(haystack@, needle@),
        ensures
            result@ == InputView::Substack(old(self)@.me()),
            final(self)@ == old(self)@.report(
                Sketch::binary("operator_contains"@, "STRING1"@, haystack@, "STRING2"@, needle@),
            ),
            final(self)@.wf(),
            final(self)@.free(result@),
            final(self)@.grown_from(old(self)@),
            *final(final(self).inner) == *final(old(self).inner),
            *final(final(self).generator) == *final(old(self).generator),
    {
        self.binary("operator_contains", "STRING1", haystack, "STRING2", needle)
    }


    /// Whether `list` contains `item`.
    pub fn list_contains_item(&mut self, list: ListRef, item: Operand) -> (result: Operand)
        requires
            old(self)@.wf(),
            old(self)@.room(1),
            old(self)@.free(item@),
        ensures
            result@ == InputView::Substack(old(self)@.me()),
            final(self)@ == old(self)@.report(
                Sketch::unary("data_listcontainsitem"@, "ITEM"@, item@).with(
                    FieldsView::List(list@),
                ),
            ),
            final(self)@.wf(),
            final(self)@.free(result@),
            final(self)@.grown_from(old(self)@),
            *final(final(self).inner) == *final(old(self).inner),
            *final(final(self).generator) == *final(old(self).generator),
    {
        self.unary("data_listcontainsitem", "ITEM", item, Some(Fields::List(list)))
    }


    /// `lhs` followed by `rhs`.
    pub fn join(&mut self, lhs: Operand, rhs: Operand) -> (result: Operand)
        requires
            old(self)@.wf(),
            old(self)@.room(1),
            old(self)@.free(lhs@),
            old(self)@.free(rhs@),
            apart(lhs@, rhs@),
        ensures
            result@ == InputView::Substack(old(self)@.me()),
            final(self)@ == old(self)@.report(
                Sketch::binary("operator_join"@, "STRING1"@, lhs@, "STRING2"@, rhs@),
            ),
            final(self)@.wf(),
            final(self)@.free(result@),
            final(self)@.grown_from(old(self)@),
            *final(final(self).inner) == *final(old(self).inner),
            *final(final(self).generator) == *final(old(self).generator),
    {
        self.binary("operator_join", "STRING1", lhs, "STRING2", rhs)
    }


    /// The function `operator` of `num`.
    pub fn mathop(&mut self, operator: &'static str, num: Operand) -> (result: Operand)
        requires
            old(self)@.wf(),
            old(self)@.room(1),
            old(self)@.free(num@),
        ensures
            result@ == InputView::Substack(old(self)@.me()),
            final(self)@ == old(self)@.report(
                Sketch::unary("operator_mathop"@, "NUM"@, num@).with(
                    FieldsView::Operator(operator@),
                ),
            ),
            final(self)@.wf(),
            final(self)@.free(result@),
            final(self)@.grown_from(old(self)@),
            *final(final(self).inner) == *final(old(self).inner),
            *final(final(self).generator) == *final(old(self).generator),
    {
        self.unary("operator_mathop", "NUM", num, Some(Fields::Operator(operator)))
    }


    /// The x position of the mouse.
    pub fn mouse_x(&mut self) -> (result: Operand)
        requires
            old(self)@.wf(),
            old(self)@.room(1),
        ensures
            result@ == InputView::Substack(old(self)@.me()),
            final(self)@ == old(self)@.report(Sketch::plain("sensing_mousex"@)),
            final(self)@.wf(),
            final(self)@.free(result@),
            final(self)@.grown_from(old(self)@),
            *final(final(self).inner) == *final(old(self).inner),
            *final(final(self).generator) == *final(old(self).generator),
    {
        self.nullary("sensing_mousex", None)
    }


    /// The y position of the mouse.
    pub fn mouse_y(&mut self) -> (result: Operand)
        requires
            old(self)@.wf(),
            old(self)@.room(1),
        ensures
            result@ == InputView::Substack(old(self)@.me()),
            final(self)@ == old(self)@.report(Sketch::plain("sensing_mousey"@)),
            final(self)@.wf(),
            final(self)@.free(result@),
            final(self)@.grown_from(old(self)@),
            *final(final(self).inner) == *final(old(self).inner),
            *final(final(self).generator) == *final(old(self).generator),
    {
        self.nullary("sensing_mousey", None)
    }


    /// Whether the key `key` is pressed.
    pub fn key_is_pressed(&mut self, key: Operand) -> (result: Operand)
        requires
            old(self)@.wf(),
            old(self)@.room(1),
            old(self)@.free(key@),
        ensures
            result@ == InputView::Substack(old(self)@.me()),
            final(self)@ == old(self)@.report(
                Sketch::unary("sensing_keypressed"@, "KEY_OPTION"@, key@),
            ),
            final(self)@.wf(),
            final(self)@.free(result@),
            final(self)@.grown_from(old(self)@),
            *final(final(self).inner) == *final(old(self).inner),
            *final(final(self).generator) == *final(old(self).generator),
    {
        self.unary("sensing_keypressed", "KEY_OPTION", key, None)
    }


    /// A random number between `from` and `to`.
    pub fn random(&mut self, from: Operand, to: Operand) -> (result: Operand)
        requires
            old(self)@.wf(),
            old(self)@.room(1),
            old(self)@.free(from@),
            old(self)@.free(to@),
            apart(from@, to@),
        ensures
            result@ == InputView::Substack(old(self)@.me()),
            final(self)@ == old(self)@.report(
                Sketch::binary("operator_random"@, "FROM"@, from@, "TO"@, to@),
            ),
            final(self)@.wf(),
            final(self)@.free(result@),
            final(self)@.grown_from(old(self)@),
            *final(final(self).inner) == *final(old(self).inner),
            *final(final(self).generator) == *final(old(self).generator),
    {
        self.binary("operator_random", "FROM", from, "TO", to)
    }


    /// Places the block that creates a clone of the sprite itself. The block
    /// takes its one input from a menu, which enters the target with it.
    pub fn clone_self(&mut self)
        requires
            old(self)@.wf(),
            old(self)@.room(2),
        ensures
            final(self)@ == old(self)@.report(
                Sketch::plain("control_create_clone_of_menu"@).with(FieldsView::CloneSelf),
            ).put(
                Sketch::unary(
                    "control_create_clone_of"@,
                    "CLONE_OPTION"@,
                    InputView::Prototype(old(self)@.me()),
                ),
            ),
            final(self)@.wf(),
            final(self)@.grown_from(old(self)@),
            *final(final(self).inner) == *final(old(self).inner),
            *final(final(self).generator) == *final(old(self).generator),
    {
        proof {
            accepts_none(self@.unit.blocks);
            report_keeps_wf(
                self@,
                Sketch::plain("control_create_clone_of_menu"@).with(FieldsView::CloneSelf),
            );
        }
        let menu = self.emit(
            None,
            Place::Next,
            "control_create_clone_of_menu",
            no_slots(),
            Some(Fields::CloneSelf),
            None,
        );
        proof {
            accepts_one(self@.unit.blocks, slot("CLONE_OPTION"@, InputView::Prototype(menu@)));
        }
        self.put(
            Stacking::new(
                "control_create_clone_of",
                one_slot("CLONE_OPTION", Input::Prototype(menu)),
                None,
            ),
        );
    }
    /// Enters the block that stands for `param` inside the body of its
    /// custom block.
    pub fn custom_block_parameter(&mut self, param: Parameter) -> (result: Operand)
        requires
            old(self)@.wf(),
            old(self)@.room(1),
        ensures
            result@ == InputView::Substack(old(self)@.me()),
            final(self)@ == old(self)@.report(argument_reporter(param)),
            final(self)@.wf(),
            final(self)@.free(result@),
            final(self)@.grown_from(old(self)@),
            *final(final(self).inner) == *final(old(self).inner),
            *final(final(self).generator) == *final(old(self).generator),
    {
        let opcode = match param.kind {
            ParameterKind::StringOrNumber => "argument_reporter_string_number",
            ParameterKind::Boolean => "argument_reporter_boolean",
        };
        self.nullary(opcode, Some(Fields::Value(param.name)))
    }

    /// Issues an identifier for each of `n` parameters.
    fn issue(&mut self, n: usize) -> (ids: Vec<Uid>)
        requires
            old(self)@.wf(),
            old(self)@.room(n as int),
        ensures
            id_values(ids@) == old(self)@.parameter_ids(n as nat),
            final(self)@ == old(self)@.skip(n as nat),
            final(self)@.grown_from(old(self)@),
            *final(final(self).inner) == *final(old(self).inner),
            *final(final(self).generator) == *final(old(self).generator),
    {
        let mut ids: Vec<Uid> = Vec::new();
        let mut i: usize = 0;
        while i < n
            invariant
                i <= n,
                old(self)@.room(n as int),
                self@ == old(self)@.skip(i as nat),
                self@.grown_from(old(self)@),
                id_values(ids@) == old(self)@.parameter_ids(i as nat),
                *final(self.inner) == *final(old(self).inner),
                *final(self.generator) == *final(old(self).generator),
            decreases n - i,
        {
            let ghost issued = ids@;
            let id = self.generator.new_uid();
            ids.push(id);
            assert(id_values(ids@) == id_values(issued).push(id@));
            i = i + 1;
        }
        ids
    }

    /// Enters the blocks that stand for the parameters, and returns the
    /// inputs that hold them for the prototype.
    fn declare(&mut self, parameters: &Vec<Parameter>, ids: &Vec<Uid>, Ghost(start): Ghost<
        TargetView,
    >) -> (inputs: Vec<Slot>)
        requires
            start.wf(),
            start.room(2 * parameters.len()),
            old(self)@ == start.skip(parameters.len() as nat),
            id_values(ids@) == start.parameter_ids(parameters.len() as nat),
        ensures
            final(self)@ == old(self)@.reports(TargetView::argument_reporters(parameters@)),
            final(self)@.next == start.next + 2 * parameters.len(),
            final(self)@.unit.blocks.len() == start.unit.blocks.len() + parameters.len(),
            slot_views(inputs@) == start.prototype_slots(parameters.len() as nat),
            final(self)@.wf(),
            final(self)@.takes(slot_views(inputs@)),
            final(self)@.grown_from(old(self)@),
            *final(final(self).inner) == *final(old(self).inner),
            *final(final(self).generator) == *final(old(self).generator),
    {
        let n = parameters.len();
        let ghost sketches = TargetView::argument_reporters(parameters@);
        let ghost slots = start.prototype_slots(n as nat);
        let mut inputs: Vec<Slot> = Vec::new();
        let mut i: usize = 0;
        proof {
            skip_keeps_wf(start, n as nat);
            assert(id_values(ids@).len() == n);
        }
        while i < n
            invariant
                i <= n,
                n == parameters.len(),
                start.room(2 * n),
                sketches == TargetView::argument_reporters(parameters@),
                slots == start.prototype_slots(n as nat),
                id_values(ids@) == start.parameter_ids(n as nat),
                ids@.len() == n,
                self@ == old(self)@.reports(sketches.take(i as int)),
                self@.grown_from(old(self)@),
                self@.next == start.next + n + i,
                self@.unit.blocks.len() == start.unit.blocks.len() + i,
                self@.wf(),
                slot_views(inputs@) == slots.take(i as int),
                forall|j: int| 0 <= j < i ==> self@.free(#[trigger] slots[j].value),
                *final(self.inner) == *final(old(self).inner),
                *final(self.generator) == *final(old(self).generator),
            decreases n - i,
        {
            let ghost before = self@;
            proof {
                reports_step(old(self)@, sketches, i as int);
                assert forall|j: int| 0 <= j < i implies before.report(sketches[i as int]).free(
                    #[trigger] slots[j].value,
                ) by {
                    placing_keeps_free(
                        before.unit.blocks,
                        before.next,
                        PointView::top(),
                        sketches[i as int],
                        slots[j].value,
                    );
                }
                placing_keeps_wf(
                    before.unit.blocks,
                    before.next,
                    PointView::top(),
                    sketches[i as int],
                );
            }
            let operand = self.custom_block_parameter(parameters[i].clone());
            assert(id_values(ids@)[i as int] == start.next + i);
            let ghost held = inputs@;
            let slot = Slot { key: Key::Argument(ids[i]), value: operand.into_input() };
            inputs.push(slot);
            assert(slot_views(inputs@) == slot_views(held).push(slot@));
            i = i + 1;
        }
        proof {
            assert(sketches.take(n as int) == sketches);
        }
        inputs
    }

    /// Defines a custom block.
    ///
    /// The generator issues an identifier for each parameter. Then enter, at
    /// the top level: a block for each parameter, for use in the body; the
    /// prototype, which holds those blocks and carries the mutation with the
    /// call signature, the identifiers, the names and the default values of
    /// the parameters; and the definition, which holds the prototype.
    ///
    /// Returned are what a call of the custom block needs, and the point
    /// behind the definition, where the body begins. The insertion point
    /// itself stays where it is.
    pub fn add_custom_block(&mut self, name: String, parameters: Vec<Parameter>) -> (result: (
        CustomBlock,
        InsertionPoint,
    ))
        requires
            old(self)@.wf(),
            old(self)@.room(2 * parameters.len() + 2),
        ensures
            result.0@ == old(self)@.defined(name@, parameters@),
            result.1@ == PointView::after(old(self)@.definition_ref(parameters.len() as nat)),
            final(self)@ == old(self)@.define(name@, parameters@),
            final(self)@.wf(),
            final(self)@.resumes(result.1@),
            final(self)@.grown_from(old(self)@),
            *final(final(self).inner) == *final(old(self).inner),
            *final(final(self).generator) == *final(old(self).generator),
    {
        let ghost start = self@;
        let param_ids = self.issue(parameters.len());
        let argumentnames = render_names(&parameters);
        let argumentdefaults = render_defaults(&parameters);
        let proccode = render_signature(name, &parameters);
        let argumentids = render_ids(&param_ids);
        let mutation = Mutation::new(
            proccode,
            argumentids,
            Some(argumentnames),
            Some(argumentdefaults),
        );
        let call = mutation.for_call();
        let inputs = self.declare(&parameters, &param_ids, Ghost(start));
        proof {
            report_keeps_wf(self@, start.prototype(name@, parameters@));
        }
        let prototype = self.emit(
            None,
            Place::Next,
            "procedures_prototype",
            inputs,
            None,
            Some(mutation),
        );
        proof {
            accepts_one(
                self@.unit.blocks,
                slot("custom_block"@, InputView::Prototype(prototype@)),
            );
            report_keeps_wf(
                self@,
                Sketch::unary(
                    "procedures_definition"@,
                    "custom_block"@,
                    InputView::Prototype(prototype@),
                ),
            );
        }
        let definition = self.emit(
            None,
            Place::Next,
            "procedures_definition",
            one_slot("custom_block", Input::Prototype(prototype)),
            None,
            None,
        );
        (CustomBlock::new(call, param_ids), InsertionPoint::new(Some(definition), Place::Next))
    }

    /// Places a call of the custom block `block`. The arguments go to the
    /// parameters in order, as far as both go.
    pub fn use_custom_block(&mut self, block: &CustomBlock, arguments: Vec<Operand>)
        requires
            old(self)@.wf(),
            old(self)@.room(1),
            old(self)@.takes(call_slots(block@.param_ids, operand_views(arguments@))),
        ensures
            final(self)@ == old(self)@.put(call_sketch(block@, operand_views(arguments@))),
            final(self)@.wf(),
            final(self)@.grown_from(old(self)@),
            *final(final(self).inner) == *final(old(self).inner),
            *final(final(self).generator) == *final(old(self).generator),
    {
        let ghost operands = operand_views(arguments@);
        let ghost slots = call_slots(block@.param_ids, operands);
        let ghost given = arguments@;
        let mut inputs: Vec<Slot> = Vec::new();
        let mut i: usize = 0;
        for operand in it: arguments.into_iter()
            invariant
                it.seq() == given,
                operands == operand_views(given),
                slots == call_slots(block@.param_ids, operands),
                i == if it.index() <= block@.param_ids.len() {
                    it.index()
                } else {
                    block@.param_ids.len() as int
                },
                slot_views(inputs@) == slots.take(i as int),
        {
            if i < block.arity() {
                let ghost held = inputs@;
                let slot = Slot {
                    key: Key::Argument(block.param_id(i)),
                    value: operand.into_input(),
                };
                inputs.push(slot);
                assert(slot_views(inputs@) == slot_views(held).push(slot@));
                i = i + 1;
            }
        }
        assert(slots.take(i as int) == slots);
        let mutation = block.mutation();
        proof {
            put_keeps_wf(self@, call_sketch(block@, operands));
        }
        let id = self.emit(
            self.point.parent(),
            self.point.place(),
            "procedures_call",
            inputs,
            None,
            Some(mutation),
        );
        self.point = InsertionPoint::new(Some(id), Place::Next);
    }
}

} // verus!
