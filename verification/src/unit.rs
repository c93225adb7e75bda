//! A program unit: what one target owns, and how it is written in the wire
//! format.

use crate::arena::{enter, nodes};
use crate::block::{
    link_view, sketch_of, slot_views, Block, Fields, Id, Node, Ref, Slot,
};
use crate::costume::{Costume, CostumeView};
use crate::custom::Mutation;
use crate::entity::{comment_text, Comment, List, ListRef, Variable, VariableRef};
use crate::graph::{accepts, admits, fresh, placed, wf, Place, PointView};
use crate::text::{joined, joined_step, push_quoted, push_tagged, push_truth, quoted, tagged, truth};
use crate::uid::Uid;
use vstd::prelude::*;
use vstd::string::StringExecFns;

verus! {

/// A variable of a unit, under its identifier.
pub struct VariableEntry {
    pub id: nat,
    pub variable: Variable,
}

/// A list of a unit, under its identifier.
pub struct ListEntry {
    pub id: nat,
    pub list: List,
}

/// A comment of a unit, under its identifier.
pub struct CommentEntry {
    pub id: nat,
    pub comment: Seq<char>,
}

impl VariableEntry {
    /// The variable as a member of the map of variables.
    pub open spec fn text(self) -> Seq<char> {
        tagged('v', self.id) + seq![':'] + self.variable.text()
    }
}

impl ListEntry {
    /// The list as a member of the map of lists.
    pub open spec fn text(self) -> Seq<char> {
        tagged('l', self.id) + seq![':'] + self.list.text()
    }
}

impl CommentEntry {
    /// The comment as a member of the map of comments.
    pub open spec fn text(self) -> Seq<char> {
        tagged('c', self.id) + seq![':'] + comment_text(self.comment)
    }
}

/// A unit as the builder and the encoder see it.
pub struct UnitView {
    pub name: Seq<char>,
    pub is_stage: bool,
    pub costumes: Seq<CostumeView>,
    pub variables: Seq<VariableEntry>,
    pub lists: Seq<ListEntry>,
    pub blocks: Seq<Node>,
    pub comments: Seq<CommentEntry>,
}

impl UnitView {
    /// The unit `name` with nothing in it.
    pub open spec fn empty(name: Seq<char>, is_stage: bool) -> UnitView {
        UnitView {
            name,
            is_stage,
            costumes: Seq::empty(),
            variables: Seq::empty(),
            lists: Seq::empty(),
            blocks: Seq::empty(),
            comments: Seq::empty(),
        }
    }

    /// Whether `id` is the identifier of a block, a variable, a list or a
    /// comment of the unit.
    pub open spec fn names(self, id: nat) -> bool {
        ||| exists|i: int| 0 <= i < self.blocks.len() && (#[trigger] self.blocks[i]).id == id
        ||| exists|i: int| 0 <= i < self.variables.len() && (#[trigger] self.variables[i]).id == id
        ||| exists|i: int| 0 <= i < self.lists.len() && (#[trigger] self.lists[i]).id == id
        ||| exists|i: int| 0 <= i < self.comments.len() && (#[trigger] self.comments[i]).id == id
    }

    /// No identifier names two things of different kinds: a block and a
    /// variable, say, or a list and a comment.
    pub open spec fn kinds_apart(self) -> bool {
        &&& forall|i: int, j: int|
            0 <= i < self.blocks.len() && 0 <= j < self.variables.len() ==> (
            #[trigger] self.blocks[i]).id != (#[trigger] self.variables[j]).id
        &&& forall|i: int, j: int|
            0 <= i < self.blocks.len() && 0 <= j < self.lists.len() ==> (
            #[trigger] self.blocks[i]).id != (#[trigger] self.lists[j]).id
        &&& forall|i: int, j: int|
            0 <= i < self.blocks.len() && 0 <= j < self.comments.len() ==> (
            #[trigger] self.blocks[i]).id != (#[trigger] self.comments[j]).id
        &&& forall|i: int, j: int|
            0 <= i < self.variables.len() && 0 <= j < self.lists.len() ==> (
            #[trigger] self.variables[i]).id != (#[trigger] self.lists[j]).id
        &&& forall|i: int, j: int|
            0 <= i < self.variables.len() && 0 <= j < self.comments.len() ==> (
            #[trigger] self.variables[i]).id != (#[trigger] self.comments[j]).id
        &&& forall|i: int, j: int|
            0 <= i < self.lists.len() && 0 <= j < self.comments.len() ==> (
            #[trigger] self.lists[i]).id != (#[trigger] self.comments[j]).id
    }

    /// The unit is consistent for a generator that issues `next` next: the
    /// links of its blocks are consistent, the identifiers of its variables,
    /// of its lists and of its comments each increase, no identifier names
    /// two things, and every identifier in it has been issued.
    pub open spec fn wf(self, next: nat) -> bool {
        &&& self.kinds_apart()
        &&& wf(self.blocks)
        &&& fresh(self.blocks, next)
        &&& forall|i: int, j: int|
            0 <= i < j < self.variables.len() ==> (#[trigger] self.variables[i]).id < (
            #[trigger] self.variables[j]).id
        &&& forall|i: int|
            0 <= i < self.variables.len() ==> (#[trigger] self.variables[i]).id < next
        &&& forall|i: int, j: int|
            0 <= i < j < self.lists.len() ==> (#[trigger] self.lists[i]).id < (
            #[trigger] self.lists[j]).id
        &&& forall|i: int| 0 <= i < self.lists.len() ==> (#[trigger] self.lists[i]).id < next
        &&& forall|i: int, j: int|
            0 <= i < j < self.comments.len() ==> (#[trigger] self.comments[i]).id < (
            #[trigger] self.comments[j]).id
        &&& forall|i: int| 0 <= i < self.comments.len() ==> (#[trigger] self.comments[i]).id < next
    }

    /// The descriptors of the costumes.
    pub open spec fn costume_texts(self) -> Seq<Seq<char>> {
        Seq::new(self.costumes.len(), |i: int| self.costumes[i].text())
    }

    /// The members of the map of variables.
    pub open spec fn variable_texts(self) -> Seq<Seq<char>> {
        Seq::new(self.variables.len(), |i: int| self.variables[i].text())
    }

    /// The members of the map of lists.
    pub open spec fn list_texts(self) -> Seq<Seq<char>> {
        Seq::new(self.lists.len(), |i: int| self.lists[i].text())
    }

    /// The members of the map of blocks.
    pub open spec fn block_texts(self) -> Seq<Seq<char>> {
        Seq::new(self.blocks.len(), |i: int| self.blocks[i].entry_text())
    }

    /// The members of the map of comments.
    pub open spec fn comment_texts(self) -> Seq<Seq<char>> {
        Seq::new(self.comments.len(), |i: int| self.comments[i].text())
    }

    /// How the unit begins in the wire format: its name, whether it is the
    /// stage, the costume that it shows, which is the first, and its costumes.
    pub open spec fn head_text(self) -> Seq<char> {
        "{\"name\":"@ + quoted(self.name) + ",\"isStage\":"@ + truth(self.is_stage)
            + ",\"currentCostume\":0,\"costumes\":["@ + joined(self.costume_texts())
    }

    /// How the unit goes on: no sounds, then its variables and its lists.
    pub open spec fn data_text(self) -> Seq<char> {
        "],\"sounds\":[],\"variables\":{"@ + joined(self.variable_texts()) + "},\"lists\":{"@
            + joined(self.list_texts())
    }

    /// How the unit ends: its blocks and its comments.
    pub open spec fn code_text(self) -> Seq<char> {
        "},\"blocks\":{"@ + joined(self.block_texts()) + "},\"comments\":{"@ + joined(
            self.comment_texts(),
        ) + "}}"@
    }

    /// The unit in the wire format, as an item of the array of targets.
    #[verifier::opaque]
    pub open spec fn text(self) -> Seq<char> {
        self.head_text() + self.data_text() + self.code_text()
    }
}

struct StoredVariable {
    id: Uid,
    variable: Variable,
}

struct StoredList {
    id: Uid,
    list: List,
}

struct StoredComment {
    id: Uid,
    comment: Comment,
}

/// A program unit: the stage or one sprite.
pub struct Unit {
    name: String,
    is_stage: bool,
    costumes: Vec<Costume>,
    variables: Vec<StoredVariable>,
    lists: Vec<StoredList>,
    blocks: Vec<Block>,
    comments: Vec<StoredComment>,
}

impl View for Unit {
    type V = UnitView;

    closed spec fn view(&self) -> UnitView {
        UnitView {
            name: self.name@,
            is_stage: self.is_stage,
            costumes: Seq::new(self.costumes@.len(), |i: int| self.costumes@[i]@),
            variables: Seq::new(
                self.variables@.len(),
                |i: int|
                    VariableEntry {
                        id: self.variables@[i].id@,
                        variable: self.variables@[i].variable,
                    },
            ),
            lists: Seq::new(
                self.lists@.len(),
                |i: int| ListEntry { id: self.lists@[i].id@, list: self.lists@[i].list },
            ),
            blocks: nodes(self.blocks@),
            comments: Seq::new(
                self.comments@.len(),
                |i: int| CommentEntry {
                        id: self.comments@[i].id@,
                        comment: self.comments@[i].comment.text@,
                    },
            ),
        }
    }
}

impl Unit {
    /// The unit `name` with nothing in it.
    pub(crate) fn new(name: String, is_stage: bool) -> (unit: Unit)
        ensures
            unit@ == UnitView::empty(name@, is_stage),
    {
        let unit = Unit {
            name,
            is_stage,
            costumes: Vec::new(),
            variables: Vec::new(),
            lists: Vec::new(),
            blocks: Vec::new(),
            comments: Vec::new(),
        };
        assert(unit@.costumes == Seq::<CostumeView>::empty());
        assert(unit@.variables == Seq::<VariableEntry>::empty());
        assert(unit@.lists == Seq::<ListEntry>::empty());
        assert(unit@.blocks == Seq::<Node>::empty());
        assert(unit@.comments == Seq::<CommentEntry>::empty());
        unit
    }

    /// Adds a costume behind those that the unit has.
    pub(crate) fn add_costume(&mut self, costume: Costume)
        ensures
            final(self)@ == (UnitView {
                costumes: old(self)@.costumes.push(costume@),
                ..old(self)@
            }),
    {
        self.costumes.push(costume);
        assert(self@.costumes == old(self)@.costumes.push(costume@));
    }

    /// Adds a comment under the identifier `id`.
    pub(crate) fn add_comment(&mut self, id: Uid, text: String)
        ensures
            final(self)@ == (UnitView {
                comments: old(self)@.comments.push(CommentEntry { id: id@, comment: text@ }),
                ..old(self)@
            }),
    {
        self.comments.push(StoredComment { id, comment: Comment { text } });
        assert(self@.comments == old(self)@.comments.push(
            CommentEntry { id: id@, comment: text@ },
        ));
    }

    /// Adds a variable under the identifier `id`, and returns a reference to
    /// it.
    pub(crate) fn add_variable(&mut self, id: Uid, variable: Variable) -> (r: VariableRef)
        ensures
            final(self)@ == (UnitView {
                variables: old(self)@.variables.push(VariableEntry { id: id@, variable }),
                ..old(self)@
            }),
            r@.name == variable.name@,
            r@.id == id@,
    {
        let r = VariableRef::new(variable.name.as_str(), id);
        self.variables.push(StoredVariable { id, variable });
        assert(self@.variables == old(self)@.variables.push(VariableEntry { id: id@, variable }));
        r
    }

    /// Adds a list under the identifier `id`, and returns a reference to it.
    pub(crate) fn add_list(&mut self, id: Uid, list: List) -> (r: ListRef)
        ensures
            final(self)@ == (UnitView {
                lists: old(self)@.lists.push(ListEntry { id: id@, list }),
                ..old(self)@
            }),
            r@.name == list.name@,
            r@.id == id@,
    {
        let r = ListRef::new(list.name.as_str(), id);
        self.lists.push(StoredList { id, list });
        assert(self@.lists == old(self)@.lists.push(ListEntry { id: id@, list }));
        r
    }

    /// Enters a block under the identifier `uid`, at the point that `parent`
    /// and `place` make, and returns the reference to it.
    pub(crate) fn insert(
        &mut self,
        uid: Uid,
        parent: Option<Id>,
        place: Place,
        opcode: &'static str,
        inputs: Vec<Slot>,
        fields: Option<Fields>,
        mutation: Option<Mutation>,
    ) -> (id: Id)
        requires
            admits(old(self)@.blocks, PointView { parent: link_view(parent), place }),
            accepts(old(self)@.blocks, slot_views(inputs@)),
        ensures
            id@ == (Ref { uid: uid@, index: old(self)@.blocks.len() }),
            final(self)@ == (UnitView {
                blocks: placed(
                    old(self)@.blocks,
                    uid@,
                    PointView { parent: link_view(parent), place },
                    sketch_of(opcode, inputs@, fields, mutation),
                ),
                ..old(self)@
            }),
    {
        enter(&mut self.blocks, uid, parent, place, opcode, inputs, fields, mutation)
    }

    /// How many costumes the unit has.
    pub(crate) fn costume_count(&self) -> (n: usize)
        ensures
            n == self@.costumes.len(),
    {
        self.costumes.len()
    }

    /// The costume at `i`.
    pub(crate) fn costume(&self, i: usize) -> (costume: &Costume)
        requires
            i < self@.costumes.len(),
        ensures
            costume@ == self@.costumes[i as int],
    {
        &self.costumes[i]
    }

    fn push_costumes(&self, out: &mut String)
        ensures
            final(out)@ == old(out)@ + joined(self@.costume_texts()),
    {
        let ghost parts = self@.costume_texts();
        let mut i: usize = 0;
        while i < self.costumes.len()
            invariant
                i <= self.costumes.len(),
                parts == self@.costume_texts(),
                out@ == old(out)@ + joined(parts.take(i as int)),
            decreases self.costumes.len() - i,
        {
            proof {
                joined_step(parts, i as int);
            }
            if i != 0 {
                out.push(',');
            }
            self.costumes[i].serialize(out);
            i = i + 1;
        }
        assert(parts.take(i as int) == parts);
    }

    fn push_variables(&self, out: &mut String)
        ensures
            final(out)@ == old(out)@ + joined(self@.variable_texts()),
    {
        let ghost parts = self@.variable_texts();
        let mut i: usize = 0;
        while i < self.variables.len()
            invariant
                i <= self.variables.len(),
                parts == self@.variable_texts(),
                out@ == old(out)@ + joined(parts.take(i as int)),
            decreases self.variables.len() - i,
        {
            proof {
                joined_step(parts, i as int);
            }
            if i != 0 {
                out.push(',');
            }
            push_tagged(out, 'v', self.variables[i].id.raw());
            out.push(':');
            self.variables[i].variable.serialize(out);
            i = i + 1;
        }
        assert(parts.take(i as int) == parts);
    }

    fn push_lists(&self, out: &mut String)
        ensures
            final(out)@ == old(out)@ + joined(self@.list_texts()),
    {
        let ghost parts = self@.list_texts();
        let mut i: usize = 0;
        while i < self.lists.len()
            invariant
                i <= self.lists.len(),
                parts == self@.list_texts(),
                out@ == old(out)@ + joined(parts.take(i as int)),
            decreases self.lists.len() - i,
        {
            proof {
                joined_step(parts, i as int);
            }
            if i != 0 {
                out.push(',');
            }
            push_tagged(out, 'l', self.lists[i].id.raw());
            out.push(':');
            self.lists[i].list.serialize(out);
            i = i + 1;
        }
        assert(parts.take(i as int) == parts);
    }

    fn push_blocks(&self, out: &mut String)
        ensures
            final(out)@ == old(out)@ + joined(self@.block_texts()),
    {
        let ghost parts = self@.block_texts();
        let mut i: usize = 0;
        while i < self.blocks.len()
            invariant
                i <= self.blocks.len(),
                parts == self@.block_texts(),
                out@ == old(out)@ + joined(parts.take(i as int)),
            decreases self.blocks.len() - i,
        {
            proof {
                joined_step(parts, i as int);
            }
            if i != 0 {
                out.push(',');
            }
            self.blocks[i].serialize_entry(out);
            i = i + 1;
        }
        assert(parts.take(i as int) == parts);
    }

    fn push_comments(&self, out: &mut String)
        ensures
            final(out)@ == old(out)@ + joined(self@.comment_texts()),
    {
        let ghost parts = self@.comment_texts();
        let mut i: usize = 0;
        while i < self.comments.len()
            invariant
                i <= self.comments.len(),
                parts == self@.comment_texts(),
                out@ == old(out)@ + joined(parts.take(i as int)),
            decreases self.comments.len() - i,
        {
            proof {
                joined_step(parts, i as int);
            }
            if i != 0 {
                out.push(',');
            }
            push_tagged(out, 'c', self.comments[i].id.raw());
            out.push(':');
            self.comments[i].comment.serialize(out);
            i = i + 1;
        }
        assert(parts.take(i as int) == parts);
    }

    fn push_head(&self, out: &mut String)
        ensures
            final(out)@ == old(out)@ + self@.head_text(),
    {
        out.append("{\"name\":");
        push_quoted(out, self.name.as_str());
        out.append(",\"isStage\":");
        push_truth(out, self.is_stage);
        out.append(",\"currentCostume\":0,\"costumes\":[");
        self.push_costumes(out);
    }

    fn push_data(&self, out: &mut String)
        ensures
            final(out)@ == old(out)@ + self@.data_text(),
    {
        out.append("],\"sounds\":[],\"variables\":{");
        self.push_variables(out);
        out.append("},\"lists\":{");
        self.push_lists(out);
    }

    fn push_code(&self, out: &mut String)
        ensures
            final(out)@ == old(out)@ + self@.code_text(),
    {
        out.append("},\"blocks\":{");
        self.push_blocks(out);
        out.append("},\"comments\":{");
        self.push_comments(out);
        out.append("}}");
    }

    /// Appends the unit in the wire format.
    pub fn serialize(&self, out: &mut String)
        ensures
            final(out)@ == old(out)@ + self@.text(),
    {
        self.push_head(out);
        self.push_data(out);
        self.push_code(out);
        reveal(UnitView::text);
    }
}

} // verus!
