//! Blocks: the nodes of a target's graph, what they hold, and how each is
//! written in the wire format. The functions at the end build the hat and
//! stacking blocks that a target takes.

use crate::custom::{Mutation, MutationView};
use crate::entity::{EntityView, ListRef, VariableRef};
use crate::number::{Number, NumberView};
use crate::operand::Operand;
use crate::text::{
    decimal, joined, joined_step, push_decimal, push_quoted, push_tagged, push_truth, quoted,
    tagged, truth,
};
use crate::uid::Uid;
use vstd::prelude::*;
use vstd::string::StringExecFns;

verus! {

/// `str::eq` of std: two string slices are equal when they hold the same
/// characters.
pub assume_specification[ <str as PartialEq>::eq ](a: &str, b: &str) -> (r: bool)
    ensures
        r == (a@ == b@),
;

/// The opcode of the menu of the block that creates a clone.
pub open spec fn clone_menu_opcode() -> Seq<char> {
    "control_create_clone_of_menu"@
}

/// A reference to a block of a target: the block's identifier, and its place
/// in the target's arena.
pub struct Ref {
    pub uid: nat,
    pub index: nat,
}

impl Ref {
    /// The key of the block in the map of blocks.
    pub open spec fn key(self) -> Seq<char> {
        tagged('b', self.uid)
    }
}

/// The reference that a block holds to another block, or `null`.
pub open spec fn link_text(link: Option<Ref>) -> Seq<char> {
    match link {
        Some(r) => r.key(),
        None => "null"@,
    }
}

/// A reference to a block of a target.
#[derive(Clone, Copy, Debug, PartialEq, Eq, Structural)]
pub struct Id {
    uid: Uid,
    index: usize,
}

impl View for Id {
    type V = Ref;

    closed spec fn view(&self) -> Ref {
        Ref { uid: self.uid@, index: self.index as nat }
    }
}

impl Id {
    /// The reference to the block `uid` at `index`.
    pub(crate) fn new(uid: Uid, index: usize) -> (id: Id)
        ensures
            id@ == (Ref { uid: uid@, index: index as nat }),
    {
        Id { uid, index }
    }

    /// The place of the block in the arena.
    pub(crate) fn index(self) -> (index: usize)
        ensures
            index == self@.index,
    {
        self.index
    }

    /// Appends the key of the block.
    pub(crate) fn push_key(self, out: &mut String)
        ensures
            final(out)@ == old(out)@ + self@.key(),
    {
        push_tagged(out, 'b', self.uid.raw());
    }
}

/// The views of optional references.
pub open spec fn link_view(link: Option<Id>) -> Option<Ref> {
    match link {
        Some(id) => Some(id@),
        None => None,
    }
}

fn push_link(link: Option<Id>, out: &mut String)
    ensures
        final(out)@ == old(out)@ + link_text(link_view(link)),
{
    match link {
        Some(id) => id.push_key(out),
        None => out.append("null"),
    }
}

/// What an input slot holds, as the encoder sees it.
pub enum InputView {
    /// The block whose value the slot takes, or the first block of the
    /// sequence that is nested in it.
    Substack(Ref),
    Number(NumberView),
    Text(Seq<char>),
    Variable(EntityView),
    List(EntityView),
    /// The prototype of a definition, or the menu of a block.
    Prototype(Ref),
}

impl InputView {
    /// The block that the input makes a child of the block that holds it.
    pub open spec fn child(self) -> Option<Ref> {
        match self {
            InputView::Substack(r) => Some(r),
            InputView::Prototype(r) => Some(r),
            _ => None,
        }
    }

    /// The input in the wire format.
    pub open spec fn text(self) -> Seq<char> {
        match self {
            InputView::Substack(r) => "[2,"@ + r.key() + seq![']'],
            InputView::Number(n) => "[1,[4,"@ + n.literal() + "]]"@,
            InputView::Text(s) => "[1,[10,"@ + quoted(s) + "]]"@,
            InputView::Variable(v) => "[2,[12,"@ + quoted(v.name) + seq![','] + v.variable_key()
                + "]]"@,
            InputView::List(l) => "[2,[13,"@ + quoted(l.name) + seq![','] + l.list_key() + "]]"@,
            InputView::Prototype(r) => "[1,"@ + r.key() + seq![']'],
        }
    }
}

/// What an input slot holds.
pub enum Input {
    Substack(Id),
    Number(Number),
    String(String),
    Variable(VariableRef),
    List(ListRef),
    Prototype(Id),
}

impl View for Input {
    type V = InputView;

    open spec fn view(&self) -> InputView {
        match self {
            Input::Substack(id) => InputView::Substack(id@),
            Input::Number(n) => InputView::Number(n@),
            Input::String(s) => InputView::Text(s@),
            Input::Variable(v) => InputView::Variable(v@),
            Input::List(l) => InputView::List(l@),
            Input::Prototype(id) => InputView::Prototype(id@),
        }
    }
}

impl Input {
    /// The block that the input makes a child of the block that holds it.
    pub(crate) fn child(&self) -> (r: Option<Id>)
        ensures
            link_view(r) == self@.child(),
    {
        match self {
            Input::Substack(id) => Some(*id),
            Input::Prototype(id) => Some(*id),
            _ => None,
        }
    }

    /// Appends the input in the wire format.
    pub(crate) fn serialize(&self, out: &mut String)
        ensures
            final(out)@ == old(out)@ + self@.text(),
    {
        match self {
            Input::Substack(id) => {
                out.append("[2,");
                id.push_key(out);
                out.push(']');
            },
            Input::Number(n) => {
                out.append("[1,[4,");
                n.push_literal(out);
                out.append("]]");
            },
            Input::String(s) => {
                out.append("[1,[10,");
                push_quoted(out, s.as_str());
                out.append("]]");
            },
            Input::Variable(v) => {
                out.append("[2,[12,");
                v.push_name(out);
                out.push(',');
                v.push_key(out);
                out.append("]]");
            },
            Input::List(l) => {
                out.append("[2,[13,");
                l.push_name(out);
                out.push(',');
                l.push_key(out);
                out.append("]]");
            },
            Input::Prototype(id) => {
                out.append("[1,");
                id.push_key(out);
                out.push(']');
            },
        }
    }
}

/// The name of an input slot, as the encoder sees it.
pub enum KeyView {
    /// A name of the block's own.
    Name(Seq<char>),
    /// The identifier of a parameter of a custom block.
    Argument(nat),
}

impl KeyView {
    /// The name as a JSON string.
    pub open spec fn text(self) -> Seq<char> {
        match self {
            KeyView::Name(name) => quoted(name),
            KeyView::Argument(id) => seq!['"'] + decimal(id) + seq!['"'],
        }
    }
}

/// The name of an input slot.
pub enum Key {
    Name(&'static str),
    Argument(Uid),
}

impl View for Key {
    type V = KeyView;

    open spec fn view(&self) -> KeyView {
        match self {
            Key::Name(name) => KeyView::Name(name@),
            Key::Argument(id) => KeyView::Argument(id@),
        }
    }
}

impl Key {
    fn serialize(&self, out: &mut String)
        ensures
            final(out)@ == old(out)@ + self@.text(),
    {
        match self {
            Key::Name(name) => push_quoted(out, name),
            Key::Argument(id) => {
                out.push('"');
                push_decimal(out, id.raw());
                out.push('"');
            },
        }
    }
}

/// An input slot as the encoder sees it.
pub struct SlotView {
    pub key: KeyView,
    pub value: InputView,
}

impl SlotView {
    /// The slot as a member of the object of inputs.
    pub open spec fn text(self) -> Seq<char> {
        self.key.text() + seq![':'] + self.value.text()
    }
}

/// An input slot: its name and what it holds.
pub struct Slot {
    pub key: Key,
    pub value: Input,
}

impl View for Slot {
    type V = SlotView;

    open spec fn view(&self) -> SlotView {
        SlotView { key: self.key@, value: self.value@ }
    }
}

impl Slot {
    fn serialize(&self, out: &mut String)
        ensures
            final(out)@ == old(out)@ + self@.text(),
    {
        self.key.serialize(out);
        out.push(':');
        self.value.serialize(out);
    }
}

/// The views of the slots `slots`, one for one.
pub open spec fn slot_views(slots: Seq<Slot>) -> Seq<SlotView> {
    Seq::new(slots.len(), |i: int| slots[i]@)
}

/// The wire texts of the slots `slots`, one for one.
pub open spec fn slot_texts(slots: Seq<SlotView>) -> Seq<Seq<char>> {
    Seq::new(slots.len(), |i: int| slots[i].text())
}

/// The fields of a block as the encoder sees them.
pub enum FieldsView {
    Variable(EntityView),
    List(EntityView),
    Value(Seq<char>),
    Operator(Seq<char>),
    KeyOption(Seq<char>),
    BroadcastOption(Seq<char>),
    StopAll,
    StopThisScript,
    CloneSelf,
}

/// An object with the one member `name`, whose value is the array of
/// `value` and `secondary`.
pub open spec fn field_text(name: Seq<char>, value: Seq<char>, secondary: Seq<char>) -> Seq<char> {
    seq!['{'] + quoted(name) + ":["@ + quoted(value) + seq![','] + secondary + "]}"@
}

impl FieldsView {
    /// The fields in the wire format: one member, whose value pairs what the
    /// field holds with the key of the variable or list that it names, or
    /// with `null`.
    pub open spec fn text(self) -> Seq<char> {
        match self {
            FieldsView::Variable(v) => field_text("VARIABLE"@, v.name, v.variable_key()),
            FieldsView::List(l) => field_text("LIST"@, l.name, l.list_key()),
            FieldsView::Value(name) => field_text("VALUE"@, name, "null"@),
            FieldsView::Operator(operator) => field_text("OPERATOR"@, operator, "null"@),
            FieldsView::KeyOption(key) => field_text("KEY_OPTION"@, key, "null"@),
            FieldsView::BroadcastOption(message) => field_text(
                "BROADCAST_OPTION"@,
                message,
                "null"@,
            ),
            FieldsView::StopAll => field_text("STOP_OPTION"@, "all"@, "null"@),
            FieldsView::StopThisScript => field_text("STOP_OPTION"@, "this script"@, "null"@),
            FieldsView::CloneSelf => field_text("CLONE_OPTION"@, "_myself_"@, "null"@),
        }
    }
}

/// The fields of a block: what it is configured with, which is not
/// evaluated.
pub enum Fields {
    Variable(VariableRef),
    List(ListRef),
    Value(String),
    Operator(&'static str),
    KeyOption(String),
    BroadcastOption(String),
    StopAll,
    StopThisScript,
    CloneSelf,
}

impl View for Fields {
    type V = FieldsView;

    open spec fn view(&self) -> FieldsView {
        match self {
            Fields::Variable(v) => FieldsView::Variable(v@),
            Fields::List(l) => FieldsView::List(l@),
            Fields::Value(name) => FieldsView::Value(name@),
            Fields::Operator(operator) => FieldsView::Operator(operator@),
            Fields::KeyOption(key) => FieldsView::KeyOption(key@),
            Fields::BroadcastOption(message) => FieldsView::BroadcastOption(message@),
            Fields::StopAll => FieldsView::StopAll,
            Fields::StopThisScript => FieldsView::StopThisScript,
            Fields::CloneSelf => FieldsView::CloneSelf,
        }
    }
}

fn push_field_head(out: &mut String, name: &str, value: &str)
    ensures
        final(out)@ == old(out)@ + seq!['{'] + quoted(name@) + ":["@ + quoted(value@) + seq![','],
{
    out.push('{');
    push_quoted(out, name);
    out.append(":[");
    push_quoted(out, value);
    out.push(',');
}

fn push_plain_field(out: &mut String, name: &str, value: &str)
    ensures
        final(out)@ == old(out)@ + field_text(name@, value@, "null"@),
{
    push_field_head(out, name, value);
    out.append("null");
    out.append("]}");
}

impl Fields {
    /// Appends the fields in the wire format.
    pub fn serialize(&self, out: &mut String)
        ensures
            final(out)@ == old(out)@ + self@.text(),
    {
        match self {
            Fields::Variable(v) => {
                out.push('{');
                push_quoted(out, "VARIABLE");
                out.append(":[");
                v.push_name(out);
                out.push(',');
                v.push_key(out);
                out.append("]}");
            },
            Fields::List(l) => {
                out.push('{');
                push_quoted(out, "LIST");
                out.append(":[");
                l.push_name(out);
                out.push(',');
                l.push_key(out);
                out.append("]}");
            },
            Fields::Value(name) => push_plain_field(out, "VALUE", name.as_str()),
            Fields::Operator(operator) => push_plain_field(out, "OPERATOR", operator),
            Fields::KeyOption(key) => push_plain_field(out, "KEY_OPTION", key.as_str()),
            Fields::BroadcastOption(message) => push_plain_field(
                out,
                "BROADCAST_OPTION",
                message.as_str(),
            ),
            Fields::StopAll => push_plain_field(out, "STOP_OPTION", "all"),
            Fields::StopThisScript => push_plain_field(out, "STOP_OPTION", "this script"),
            Fields::CloneSelf => push_plain_field(out, "CLONE_OPTION", "_myself_"),
        }
    }
}

/// The views of optional fields.
pub open spec fn fields_view(fields: Option<Fields>) -> Option<FieldsView> {
    match fields {
        Some(f) => Some(f@),
        None => None,
    }
}

/// The views of an optional mutation.
pub open spec fn mutation_view(mutation: Option<Mutation>) -> Option<MutationView> {
    match mutation {
        Some(m) => Some(m@),
        None => None,
    }
}

/// A block before it is part of a graph: what it does and what it holds,
/// without its identifier and its links.
pub struct Sketch {
    pub opcode: Seq<char>,
    pub inputs: Seq<SlotView>,
    pub fields: Option<FieldsView>,
    pub mutation: Option<MutationView>,
}

/// The block with the given opcode, inputs, fields and mutation, before it is
/// part of a graph.
pub open spec fn sketch_of(
    opcode: &str,
    inputs: Seq<Slot>,
    fields: Option<Fields>,
    mutation: Option<Mutation>,
) -> Sketch {
    Sketch {
        opcode: opcode@,
        inputs: slot_views(inputs),
        fields: fields_view(fields),
        mutation: mutation_view(mutation),
    }
}

/// A block of a target's graph, as the encoder sees it.
pub struct Node {
    pub id: nat,
    pub opcode: Seq<char>,
    /// The block that encloses this one; none for a block at the top level.
    pub parent: Option<Ref>,
    /// The block that follows this one in its sequence.
    pub next: Option<Ref>,
    pub inputs: Seq<SlotView>,
    pub fields: Option<FieldsView>,
    pub mutation: Option<MutationView>,
}

impl Node {
    /// The block that `sketch` becomes under the identifier `id` and the
    /// parent `parent`, with nothing after it.
    pub open spec fn new(id: nat, parent: Option<Ref>, sketch: Sketch) -> Node {
        Node {
            id,
            opcode: sketch.opcode,
            parent,
            next: None,
            inputs: sketch.inputs,
            fields: sketch.fields,
            mutation: sketch.mutation,
        }
    }

    /// The members that every block has: its opcode, its links, and whether
    /// it stands at the top level, which it does when it has no parent.
    pub open spec fn head_text(self) -> Seq<char> {
        "\"opcode\":"@ + quoted(self.opcode) + ",\"parent\":"@ + link_text(self.parent)
            + ",\"next\":"@ + link_text(self.next) + ",\"topLevel\":"@ + truth(
            self.parent is None,
        )
    }

    /// The object of inputs; nothing where the block has none.
    pub open spec fn inputs_text(self) -> Seq<char> {
        if self.inputs.len() == 0 {
            Seq::empty()
        } else {
            ",\"inputs\":{"@ + joined(slot_texts(self.inputs)) + seq!['}']
        }
    }

    /// The fields; nothing where the block has none.
    pub open spec fn fields_text(self) -> Seq<char> {
        match self.fields {
            Some(f) => ",\"fields\":"@ + f.text(),
            None => Seq::empty(),
        }
    }

    /// The mutation; nothing where the block has none.
    pub open spec fn mutation_text(self) -> Seq<char> {
        match self.mutation {
            Some(m) => ",\"mutation\":"@ + m.text(),
            None => Seq::empty(),
        }
    }

    /// The shadow flag, which the menu of the block that creates a clone has
    /// and no other block.
    pub open spec fn shadow_text(self) -> Seq<char> {
        if self.opcode == clone_menu_opcode() {
            ",\"shadow\":true"@
        } else {
            Seq::empty()
        }
    }

    /// The block in the wire format.
    pub open spec fn text(self) -> Seq<char> {
        seq!['{'] + self.head_text() + self.inputs_text() + self.fields_text()
            + self.mutation_text() + self.shadow_text() + seq!['}']
    }

    /// The block as a member of the map of blocks.
    pub open spec fn entry_text(self) -> Seq<char> {
        tagged('b', self.id) + seq![':'] + self.text()
    }
}

/// A block of a target's graph.
pub struct Block {
    id: Uid,
    opcode: &'static str,
    parent: Option<Id>,
    next: Option<Id>,
    inputs: Vec<Slot>,
    fields: Option<Fields>,
    mutation: Option<Mutation>,
}

impl View for Block {
    type V = Node;

    closed spec fn view(&self) -> Node {
        Node {
            id: self.id@,
            opcode: self.opcode@,
            parent: link_view(self.parent),
            next: link_view(self.next),
            inputs: slot_views(self.inputs@),
            fields: fields_view(self.fields),
            mutation: mutation_view(self.mutation),
        }
    }
}

impl Block {
    /// The block with the given parts, with nothing after it.
    pub(crate) fn new(
        id: Uid,
        opcode: &'static str,
        parent: Option<Id>,
        inputs: Vec<Slot>,
        fields: Option<Fields>,
        mutation: Option<Mutation>,
    ) -> (b: Block)
        ensures
            b@ == Node::new(
                id@,
                link_view(parent),
                sketch_of(opcode, inputs@, fields, mutation),
            ),
    {
        Block { id, opcode, parent, next: None, inputs, fields, mutation }
    }

    /// Makes `parent` the parent of the block.
    pub(crate) fn set_parent(&mut self, parent: Id)
        ensures
            final(self)@ == (Node { parent: Some(parent@), ..old(self)@ }),
    {
        self.parent = Some(parent);
    }

    /// Makes `next` the block that follows this one.
    pub(crate) fn set_next(&mut self, next: Id)
        ensures
            final(self)@ == (Node { next: Some(next@), ..old(self)@ }),
    {
        self.next = Some(next);
    }

    /// Adds an input slot behind those that the block has.
    pub(crate) fn push_input(&mut self, slot: Slot)
        ensures
            final(self)@ == (Node { inputs: old(self)@.inputs.push(slot@), ..old(self)@ }),
    {
        self.inputs.push(slot);
        assert(slot_views(self.inputs@) == slot_views(old(self).inputs@).push(slot@));
    }

    fn push_head(&self, out: &mut String)
        ensures
            final(out)@ == old(out)@ + self@.head_text(),
    {
        out.append("\"opcode\":");
        push_quoted(out, self.opcode);
        out.append(",\"parent\":");
        push_link(self.parent, out);
        out.append(",\"next\":");
        push_link(self.next, out);
        out.append(",\"topLevel\":");
        push_truth(out, self.parent.is_none());
    }

    fn push_inputs(&self, out: &mut String)
        ensures
            final(out)@ == old(out)@ + self@.inputs_text(),
    {
        if self.inputs.len() == 0 {
            return ;
        }
        out.append(",\"inputs\":{");
        let ghost head = out@;
        let ghost parts = slot_texts(self@.inputs);
        let mut i: usize = 0;
        while i < self.inputs.len()
            invariant
                i <= self.inputs.len(),
                parts == slot_texts(slot_views(self.inputs@)),
                out@ == head + joined(parts.take(i as int)),
            decreases self.inputs.len() - i,
        {
            proof {
                joined_step(parts, i as int);
            }
            if i != 0 {
                out.push(',');
            }
            self.inputs[i].serialize(out);
            i = i + 1;
        }
        assert(parts.take(i as int) == parts);
        out.push('}');
    }

    fn push_tail(&self, out: &mut String)
        ensures
            final(out)@ == old(out)@ + self@.fields_text() + self@.mutation_text()
                + self@.shadow_text(),
    {
        match &self.fields {
            Some(fields) => {
                out.append(",\"fields\":");
                fields.serialize(out);
            },
            None => {},
        }
        match &self.mutation {
            Some(mutation) => {
                out.append(",\"mutation\":");
                mutation.serialize(out);
            },
            None => {},
        }
        if self.opcode.eq("control_create_clone_of_menu") {
            out.append(",\"shadow\":true");
        }
    }

    /// Appends the block in the wire format.
    pub fn serialize(&self, out: &mut String)
        ensures
            final(out)@ == old(out)@ + self@.text(),
    {
        out.push('{');
        self.push_head(out);
        self.push_inputs(out);
        self.push_tail(out);
        out.push('}');
    }

    /// Appends the block as a member of the map of blocks.
    pub(crate) fn serialize_entry(&self, out: &mut String)
        ensures
            final(out)@ == old(out)@ + self@.entry_text(),
    {
        push_tagged(out, 'b', self.id.raw());
        out.push(':');
        self.serialize(out);
    }
}

/// The slot `key` that holds `value`.
pub open spec fn slot(key: Seq<char>, value: InputView) -> SlotView {
    SlotView { key: KeyView::Name(key), value }
}

impl Sketch {
    /// The block `opcode` that holds nothing.
    pub open spec fn plain(opcode: Seq<char>) -> Sketch {
        Sketch { opcode, inputs: Seq::empty(), fields: None, mutation: None }
    }

    /// The block `opcode` with the one input `key`.
    pub open spec fn unary(opcode: Seq<char>, key: Seq<char>, value: InputView) -> Sketch {
        Sketch { opcode, inputs: seq![slot(key, value)], fields: None, mutation: None }
    }

    /// The block `opcode` with the two inputs `first_key` and `second_key`,
    /// in this order.
    pub open spec fn binary(
        opcode: Seq<char>,
        first_key: Seq<char>,
        first: InputView,
        second_key: Seq<char>,
        second: InputView,
    ) -> Sketch {
        Sketch {
            opcode,
            inputs: seq![slot(first_key, first), slot(second_key, second)],
            fields: None,
            mutation: None,
        }
    }

    /// The same block with the fields `fields`.
    pub open spec fn with(self, fields: FieldsView) -> Sketch {
        Sketch { fields: Some(fields), ..self }
    }
}

/// A hat block: the block that a script starts with.
pub struct Hat {
    opcode: &'static str,
    fields: Option<Fields>,
}

impl View for Hat {
    type V = Sketch;

    closed spec fn view(&self) -> Sketch {
        Sketch {
            opcode: self.opcode@,
            inputs: Seq::empty(),
            fields: fields_view(self.fields),
            mutation: None,
        }
    }
}

impl Hat {
    /// The opcode and the fields of the hat.
    pub(crate) fn into_parts(self) -> (parts: (&'static str, Option<Fields>))
        ensures
            self@ == (Sketch {
                opcode: parts.0@,
                inputs: Seq::empty(),
                fields: fields_view(parts.1),
                mutation: None,
            }),
    {
        (self.opcode, self.fields)
    }
}

/// A stacking block: a statement of a script.
pub struct Stacking {
    opcode: &'static str,
    inputs: Vec<Slot>,
    fields: Option<Fields>,
}

impl View for Stacking {
    type V = Sketch;

    closed spec fn view(&self) -> Sketch {
        Sketch {
            opcode: self.opcode@,
            inputs: slot_views(self.inputs@),
            fields: fields_view(self.fields),
            mutation: None,
        }
    }
}

/// No slots.
pub(crate) fn no_slots() -> (slots: Vec<Slot>)
    ensures
        slot_views(slots@) == Seq::<SlotView>::empty(),
{
    let slots: Vec<Slot> = Vec::new();
    slots
}

/// The one slot `key`, which holds `value`.
pub(crate) fn one_slot(key: &'static str, value: Input) -> (slots: Vec<Slot>)
    ensures
        slot_views(slots@) == seq![slot(key@, value@)],
{
    let mut slots: Vec<Slot> = Vec::new();
    slots.push(Slot { key: Key::Name(key), value });
    slots
}

/// The two slots `first_key` and `second_key`, in this order.
pub(crate) fn two_slots(
    first_key: &'static str,
    first: Input,
    second_key: &'static str,
    second: Input,
) -> (slots: Vec<Slot>)
    ensures
        slot_views(slots@) == seq![slot(first_key@, first@), slot(second_key@, second@)],
{
    let mut slots: Vec<Slot> = Vec::new();
    slots.push(Slot { key: Key::Name(first_key), value: first });
    slots.push(Slot { key: Key::Name(second_key), value: second });
    slots
}

impl Stacking {
    /// The stacking block with the given parts.
    pub(crate) fn new(opcode: &'static str, inputs: Vec<Slot>, fields: Option<Fields>) -> (s:
        Stacking)
        ensures
            s@ == sketch_of(opcode, inputs@, fields, None),
    {
        Stacking { opcode, inputs, fields }
    }

    /// The opcode, the inputs and the fields of the block.
    pub(crate) fn into_parts(self) -> (parts: (&'static str, Vec<Slot>, Option<Fields>))
        ensures
            self@ == (Sketch {
                opcode: parts.0@,
                inputs: slot_views(parts.1@),
                fields: fields_view(parts.2),
                mutation: None,
            }),
    {
        (self.opcode, self.inputs, self.fields)
    }
}

/// The hat of a script that starts when the flag is clicked.
#[must_use]
pub fn when_flag_clicked() -> (hat: Hat)
    ensures
        hat@ == Sketch::plain("event_whenflagclicked"@),
{
    Hat { opcode: "event_whenflagclicked", fields: None }
}

/// The hat of a script that starts when the key `key` is pressed.
#[must_use]
pub fn when_key_pressed(key: String) -> (hat: Hat)
    ensures
        hat@ == Sketch::plain("event_whenkeypressed"@).with(FieldsView::KeyOption(key@)),
{
    Hat { opcode: "event_whenkeypressed", fields: Some(Fields::KeyOption(key)) }
}

/// The hat of a script that starts in a clone when it is created.
#[must_use]
pub fn when_cloned() -> (hat: Hat)
    ensures
        hat@ == Sketch::plain("control_start_as_clone"@),
{
    Hat { opcode: "control_start_as_clone", fields: None }
}

/// The hat of a script that starts when `message` is broadcast.
#[must_use]
pub fn when_received(message: String) -> (hat: Hat)
    ensures
        hat@ == Sketch::plain("event_whenbroadcastreceived"@).with(
            FieldsView::BroadcastOption(message@),
        ),
{
    Hat { opcode: "event_whenbroadcastreceived", fields: Some(Fields::BroadcastOption(message)) }
}

/// Adds `item` at the end of `list`.
#[must_use]
pub fn append(list: ListRef, item: Operand) -> (block: Stacking)
    ensures
        block@ == Sketch::unary("data_addtolist"@, "ITEM"@, item@).with(FieldsView::List(list@)),
{
    Stacking::new("data_addtolist", one_slot("ITEM", item.into_input()), Some(Fields::List(list)))
}

/// Asks `question` and waits for the answer.
#[must_use]
pub fn ask(question: Operand) -> (block: Stacking)
    ensures
        block@ == Sketch::unary("sensing_askandwait"@, "QUESTION"@, question@),
{
    Stacking::new("sensing_askandwait", one_slot("QUESTION", question.into_input()), None)
}

/// Broadcasts `message` and waits for the scripts that it starts.
#[must_use]
pub fn broadcast_and_wait(message: Operand) -> (block: Stacking)
    ensures
        block@ == Sketch::unary("event_broadcastandwait"@, "BROADCAST_INPUT"@, message@),
{
    Stacking::new("event_broadcastandwait", one_slot("BROADCAST_INPUT", message.into_input()), None)
}

/// Changes `variable` by `by`.
#[must_use]
pub fn change_variable(variable: VariableRef, by: Operand) -> (block: Stacking)
    ensures
        block@ == Sketch::unary("data_changevariableby"@, "VALUE"@, by@).with(
            FieldsView::Variable(variable@),
        ),
{
    Stacking::new(
        "data_changevariableby",
        one_slot("VALUE", by.into_input()),
        Some(Fields::Variable(variable)),
    )
}

/// Changes the x position by `dx`.
#[must_use]
pub fn change_x(dx: Operand) -> (block: Stacking)
    ensures
        block@ == Sketch::unary("motion_changexby"@, "DX"@, dx@),
{
    Stacking::new("motion_changexby", one_slot("DX", dx.into_input()), None)
}

/// Changes the y position by `dy`.
#[must_use]
pub fn change_y(dy: Operand) -> (block: Stacking)
    ensures
        block@ == Sketch::unary("motion_changeyby"@, "DY"@, dy@),
{
    Stacking::new("motion_changeyby", one_slot("DY", dy.into_input()), None)
}

/// Deletes every item of `list`.
#[must_use]
pub fn delete_all_of_list(list: ListRef) -> (block: Stacking)
    ensures
        block@ == Sketch::plain("data_deletealloflist"@).with(FieldsView::List(list@)),
{
    Stacking::new("data_deletealloflist", no_slots(), Some(Fields::List(list)))
}

/// Deletes the item of `list` at `index`.
#[must_use]
pub fn delete_of_list(list: ListRef, index: Operand) -> (block: Stacking)
    ensures
        block@ == Sketch::unary("data_deleteoflist"@, "INDEX"@, index@).with(
            FieldsView::List(list@),
        ),
{
    Stacking::new(
        "data_deleteoflist",
        one_slot("INDEX", index.into_input()),
        Some(Fields::List(list)),
    )
}

/// Erases what the pen has drawn.
#[must_use]
pub fn erase_all() -> (block: Stacking)
    ensures
        block@ == Sketch::plain("pen_clear"@),
{
    Stacking::new("pen_clear", no_slots(), None)
}

/// Moves the sprite behind all others.
#[must_use]
pub fn go_to_back_layer() -> (block: Stacking)
    ensures
        block@ == Sketch::unary("looks_gotofrontback"@, "FRONT_BACK"@, InputView::Text("back"@)),
{
    Stacking::new(
        "looks_gotofrontback",
        one_slot("FRONT_BACK", Input::String(String::from_str("back"))),
        None,
    )
}

/// Moves the sprite in front of all others.
#[must_use]
pub fn go_to_front_layer() -> (block: Stacking)
    ensures
        block@ == Sketch::unary("looks_gotofrontback"@, "FRONT_BACK"@, InputView::Text("front"@)),
{
    Stacking::new(
        "looks_gotofrontback",
        one_slot("FRONT_BACK", Input::String(String::from_str("front"))),
        None,
    )
}

/// Moves the sprite to the position `x`, `y`.
#[must_use]
pub fn go_to_xy(x: Operand, y: Operand) -> (block: Stacking)
    ensures
        block@ == Sketch::binary("motion_gotoxy"@, "X"@, x@, "Y"@, y@),
{
    Stacking::new(
        "motion_gotoxy",
        two_slots("X", x.into_input(), "Y", y.into_input()),
        None,
    )
}

/// Hides the sprite.
#[must_use]
pub fn hide_sprite() -> (block: Stacking)
    ensures
        block@ == Sketch::plain("looks_hide"@),
{
    Stacking::new("looks_hide", no_slots(), None)
}

/// Inserts `item` into `list` at `index`.
#[must_use]
pub fn insert_at_list(list: ListRef, item: Operand, index: Operand) -> (block: Stacking)
    ensures
        block@ == Sketch::binary("data_insertatlist"@, "ITEM"@, item@, "INDEX"@, index@).with(
            FieldsView::List(list@),
        ),
{
    Stacking::new(
        "data_insertatlist",
        two_slots("ITEM", item.into_input(), "INDEX", index.into_input()),
        Some(Fields::List(list)),
    )
}

/// Moves the sprite `steps` steps forward.
#[must_use]
pub fn move_steps(steps: Operand) -> (block: Stacking)
    ensures
        block@ == Sketch::unary("motion_movesteps"@, "STEPS"@, steps@),
{
    Stacking::new("motion_movesteps", one_slot("STEPS", steps.into_input()), None)
}

/// Puts the pen down.
#[must_use]
pub fn pen_down() -> (block: Stacking)
    ensures
        block@ == Sketch::plain("pen_penDown"@),
{
    Stacking::new("pen_penDown", no_slots(), None)
}

/// Lifts the pen.
#[must_use]
pub fn pen_up() -> (block: Stacking)
    ensures
        block@ == Sketch::plain("pen_penUp"@),
{
    Stacking::new("pen_penUp", no_slots(), None)
}

/// Replaces the item of `list` at `index` with `item`.
#[must_use]
pub fn replace(list: ListRef, index: Operand, item: Operand) -> (block: Stacking)
    ensures
        block@ == Sketch::binary("data_replaceitemoflist"@, "INDEX"@, index@, "ITEM"@, item@).with(
            FieldsView::List(list@),
        ),
{
    Stacking::new(
        "data_replaceitemoflist",
        two_slots("INDEX", index.into_input(), "ITEM", item.into_input()),
        Some(Fields::List(list)),
    )
}

/// Resets the timer.
#[must_use]
pub fn reset_timer() -> (block: Stacking)
    ensures
        block@ == Sketch::plain("sensing_resettimer"@),
{
    Stacking::new("sensing_resettimer", no_slots(), None)
}

/// Says `message`.
#[must_use]
pub fn say(message: Operand) -> (block: Stacking)
    ensures
        block@ == Sketch::unary("looks_say"@, "MESSAGE"@, message@),
{
    Stacking::new("looks_say", one_slot("MESSAGE", message.into_input()), None)
}

/// Says `message` for `seconds` seconds.
#[must_use]
pub fn say_for_seconds(seconds: Operand, message: Operand) -> (block: Stacking)
    ensures
        block@ == Sketch::binary("looks_say"@, "SECS"@, seconds@, "MESSAGE"@, message@),
{
    Stacking::new(
        "looks_say",
        two_slots("SECS", seconds.into_input(), "MESSAGE", message.into_input()),
        None,
    )
}

/// Switches to the costume `costume`.
#[must_use]
pub fn set_costume(costume: Operand) -> (block: Stacking)
    ensures
        block@ == Sketch::unary("looks_switchcostumeto"@, "COSTUME"@, costume@),
{
    Stacking::new("looks_switchcostumeto", one_slot("COSTUME", costume.into_input()), None)
}

/// Sets the color of the pen to `color`.
#[must_use]
pub fn set_pen_color(color: Operand) -> (block: Stacking)
    ensures
        block@ == Sketch::unary("pen_setPenColorTo"@, "COLOR"@, color@),
{
    Stacking::new("pen_setPenColorTo", one_slot("COLOR", color.into_input()), None)
}

/// Sets the size of the pen to `size`.
#[must_use]
pub fn set_pen_size(size: Operand) -> (block: Stacking)
    ensures
        block@ == Sketch::unary("pen_setPenSizeTo"@, "SIZE"@, size@),
{
    Stacking::new("pen_setPenSizeTo", one_slot("SIZE", size.into_input()), None)
}

/// Sets the size of the sprite to `size`.
#[must_use]
pub fn set_size(size: Operand) -> (block: Stacking)
    ensures
        block@ == Sketch::unary("looks_setsizeto"@, "SIZE"@, size@),
{
    Stacking::new("looks_setsizeto", one_slot("SIZE", size.into_input()), None)
}

/// Sets `variable` to `to`.
#[must_use]
pub fn set_variable(variable: VariableRef, to: Operand) -> (block: Stacking)
    ensures
        block@ == Sketch::unary("data_setvariableto"@, "VALUE"@, to@).with(
            FieldsView::Variable(variable@),
        ),
{
    Stacking::new(
        "data_setvariableto",
        one_slot("VALUE", to.into_input()),
        Some(Fields::Variable(variable)),
    )
}

/// Sets the x position to `x`.
#[must_use]
pub fn set_x(x: Operand) -> (block: Stacking)
    ensures
        block@ == Sketch::unary("motion_setx"@, "X"@, x@),
{
    Stacking::new("motion_setx", one_slot("X", x.into_input()), None)
}

/// Sets the y position to `y`.
#[must_use]
pub fn set_y(y: Operand) -> (block: Stacking)
    ensures
        block@ == Sketch::unary("motion_sety"@, "Y"@, y@),
{
    Stacking::new("motion_sety", one_slot("Y", y.into_input()), None)
}

/// Shows the sprite.
#[must_use]
pub fn show() -> (block: Stacking)
    ensures
        block@ == Sketch::plain("looks_show"@),
{
    Stacking::new("looks_show", no_slots(), None)
}

/// Stamps the sprite onto the stage.
#[must_use]
pub fn stamp() -> (block: Stacking)
    ensures
        block@ == Sketch::plain("pen_stamp"@),
{
    Stacking::new("pen_stamp", no_slots(), None)
}

/// Stops every script.
#[must_use]
pub fn stop_all() -> (block: Stacking)
    ensures
        block@ == Sketch::plain("control_stop"@).with(FieldsView::StopAll),
{
    Stacking::new("control_stop", no_slots(), Some(Fields::StopAll))
}

/// Stops the script that runs the block.
#[must_use]
pub fn stop_this_script() -> (block: Stacking)
    ensures
        block@ == Sketch::plain("control_stop"@).with(FieldsView::StopThisScript),
{
    Stacking::new("control_stop", no_slots(), Some(Fields::StopThisScript))
}

/// Waits `seconds` seconds.
#[must_use]
pub fn wait(seconds: Operand) -> (block: Stacking)
    ensures
        block@ == Sketch::unary("control_wait"@, "DURATION"@, seconds@),
{
    Stacking::new("control_wait", one_slot("DURATION", seconds.into_input()), None)
}

} // verus!
