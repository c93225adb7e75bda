//! The project: the targets, stage first, and the generator that they share.

use crate::graph::{InsertionPoint, Place, PointView};
use crate::model::TargetView;
use crate::target::Target;
use crate::text::{joined, joined_grows};
use crate::uid::Generator;
use crate::unit::{Unit, UnitView};
use vstd::prelude::*;
use vstd::string::StringExecFns;

verus! {

/// A project as the builder and the encoder see it: the identifier that the
/// generator issues next, and the units of the targets.
pub struct ProjectView {
    pub next: nat,
    pub units: Seq<UnitView>,
}

impl ProjectView {
    /// No identifier names something in two targets.
    pub open spec fn apart(self) -> bool {
        forall|i: int, j: int, id: nat|
            0 <= i < j < self.units.len() ==> !(#[trigger] self.units[i].names(id)
                && #[trigger] self.units[j].names(id))
    }

    /// The first target is the stage, and no other target is.
    pub open spec fn one_stage(self) -> bool {
        &&& self.units.len() >= 1
        &&& forall|i: int|
            0 <= i < self.units.len() ==> ((#[trigger] self.units[i]).is_stage <==> i == 0)
    }

    /// The project is consistent: the first of its targets is its one stage,
    /// each target is consistent for the generator, and no identifier names
    /// something in two targets.
    pub open spec fn wf(self) -> bool {
        &&& 1 <= self.next <= u32::MAX
        &&& self.one_stage()
        &&& forall|i: int| 0 <= i < self.units.len() ==> (#[trigger] self.units[i]).wf(self.next)
        &&& self.apart()
    }

    /// The target `unit` as a fresh handle on it sees it: with the project's
    /// generator, and the insertion point at the top level.
    pub open spec fn lend(self, unit: UnitView) -> TargetView {
        TargetView { unit, next: self.next, point: PointView::top() }
    }

    /// The wire texts of the targets, one for one.
    pub open spec fn unit_texts(self) -> Seq<Seq<char>> {
        Seq::new(self.units.len(), |i: int| self.units[i].text())
    }

    /// The text of `project.json`.
    pub open spec fn text(self) -> Seq<char> {
        "{\"meta\":{\"semver\":\"3.0.0\"},\"targets\":["@ + joined(self.unit_texts()) + "]}"@
    }
}

/// A project: a stage and any number of sprites.
pub struct Project {
    generator: Generator,
    targets: Vec<Unit>,
}

/// The views of the units `units`, one for one.
pub open spec fn unit_views(units: Seq<Unit>) -> Seq<UnitView> {
    Seq::new(units.len(), |i: int| units[i]@)
}

impl View for Project {
    type V = ProjectView;

    closed spec fn view(&self) -> ProjectView {
        ProjectView { next: self.generator.next(), units: unit_views(self.targets@) }
    }
}

impl Default for Project {
    /// The project with an empty stage and no sprite.
    fn default() -> (project: Self)
        ensures
            project@ == (ProjectView { next: 1, units: seq![UnitView::empty("Stage"@, true)] }),
            project@.wf(),
    {
        let mut targets: Vec<Unit> = Vec::new();
        targets.push(Unit::new(String::from_str("Stage"), true));
        let project = Project { generator: Generator::default(), targets };
        assert(project@.units == seq![UnitView::empty("Stage"@, true)]);
        project
    }
}

impl Project {
    /// A handle on the stage, which every project has: a project begins with
    /// its stage, and no target ever leaves it.
    pub fn stage(&mut self) -> (target: Target<'_>)
        requires
            old(self)@.units.len() >= 1,
        ensures
            target@ == old(self)@.lend(old(self)@.units[0]),
            old(self)@.wf() ==> target@.wf(),
            final(self)@.next == final(target.generator).next(),
            final(self)@.units == old(self)@.units.update(0, (*final(target.inner))@),
    {
        self.target(0)
    }

    /// Adds a sprite, and returns a handle on it.
    pub fn add_sprite(&mut self, name: String) -> (target: Target<'_>)
        ensures
            target@ == old(self)@.lend(UnitView::empty(name@, false)),
            old(self)@.wf() ==> target@.wf(),
            final(self)@.next == final(target.generator).next(),
            final(self)@.units == old(self)@.units.push((*final(target.inner))@),
    {
        self.targets.push(Unit::new(name, false));
        self.target(self.targets.len() - 1)
    }

    fn target(&mut self, index: usize) -> (target: Target<'_>)
        requires
            index < old(self)@.units.len(),
        ensures
            target@ == old(self)@.lend(old(self)@.units[index as int]),
            final(self)@.next == final(target.generator).next(),
            final(self)@.units == old(self)@.units.update(index as int, (*final(target.inner))@),
    {
        Target {
            inner: &mut self.targets[index],
            generator: &mut self.generator,
            point: InsertionPoint::new(None, Place::Next),
        }
    }

    /// How many targets the project has.
    pub(crate) fn unit_count(&self) -> (n: usize)
        ensures
            n == self@.units.len(),
    {
        self.targets.len()
    }

    /// The target at `i`.
    pub(crate) fn unit(&self, i: usize) -> (unit: &Unit)
        requires
            i < self@.units.len(),
        ensures
            unit@ == self@.units[i as int],
    {
        &self.targets[i]
    }

    fn push_units(&self, out: &mut String)
        ensures
            final(out)@ == old(out)@ + joined(self@.unit_texts()),
    {
        let ghost parts = self@.unit_texts();
        let mut i: usize = 0;
        while i < self.targets.len()
            invariant
                i <= self.targets.len(),
                parts == self@.unit_texts(),
                out@ == old(out)@ + joined(parts.take(i as int)),
            decreases self.targets.len() - i,
        {
            if i != 0 {
                out.push(',');
            }
            let ghost before = out@;
            self.targets[i].serialize(out);
            proof {
                if i != 0 {
                    assert(before == old(out)@ + joined(parts.take(i as int)) + seq![',']);
                }
                joined_grows(old(out)@, parts, i as int, out@);
            }
            i = i + 1;
        }
        assert(parts.take(i as int) == parts);
    }

    /// The text of `project.json`.
    pub fn encode(&self) -> (text: String)
        ensures
            text@ == self@.text(),
    {
        let mut text = String::from_str("{\"meta\":{\"semver\":\"3.0.0\"},\"targets\":[");
        self.push_units(&mut text);
        text.append("]}");
        text
    }
}

} // verus!
