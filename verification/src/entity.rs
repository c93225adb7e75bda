//! Variables, lists and comments: what a target declares besides its blocks,
//! and the references by which blocks name a variable or a list.

use crate::number::{Number, NumberView};
use crate::text::{joined, joined_step, push_quoted, push_tagged, quoted, tagged};
use crate::uid::Uid;
use vstd::prelude::*;
use vstd::string::StringExecFns;

verus! {

/// A constant as the encoder sees it.
pub enum ConstantView {
    Text(Seq<char>),
    Number(NumberView),
}

impl ConstantView {
    /// The constant in the wire format: a JSON string, or the number as
    /// JSON.
    pub open spec fn text(self) -> Seq<char> {
        match self {
            ConstantView::Text(s) => quoted(s),
            ConstantView::Number(n) => n.literal(),
        }
    }
}

/// The initial value of a variable, or an item of a list.
pub enum Constant {
    String(String),
    Number(Number),
}

impl View for Constant {
    type V = ConstantView;

    open spec fn view(&self) -> ConstantView {
        match self {
            Constant::String(s) => ConstantView::Text(s@),
            Constant::Number(n) => ConstantView::Number(n@),
        }
    }
}

impl Constant {
    /// Appends the constant in the wire format.
    pub fn serialize(&self, out: &mut String)
        ensures
            final(out)@ == old(out)@ + self@.text(),
    {
        match self {
            Constant::String(s) => push_quoted(out, s.as_str()),
            Constant::Number(n) => n.push_literal(out),
        }
    }
}

/// The wire texts of the constants `items`, one for one.
pub open spec fn constant_texts(items: Seq<Constant>) -> Seq<Seq<char>> {
    Seq::new(items.len(), |i: int| items[i]@.text())
}

/// A variable: its display name and its initial value.
pub struct Variable {
    pub name: String,
    pub value: Constant,
}

/// A list: its display name and its initial items.
pub struct List {
    pub name: String,
    pub items: Vec<Constant>,
}

impl Variable {
    /// The variable in the wire format: its name and its value, as an array.
    pub open spec fn text(self) -> Seq<char> {
        seq!['['] + quoted(self.name@) + seq![','] + self.value@.text() + seq![']']
    }

    /// Appends the variable in the wire format.
    pub fn serialize(&self, out: &mut String)
        ensures
            final(out)@ == old(out)@ + self.text(),
    {
        out.push('[');
        push_quoted(out, self.name.as_str());
        out.push(',');
        self.value.serialize(out);
        out.push(']');
    }
}

impl List {
    /// The list in the wire format: its name and the array of its items, as
    /// an array.
    pub open spec fn text(self) -> Seq<char> {
        seq!['['] + quoted(self.name@) + ", ["@ + joined(constant_texts(self.items@)) + "]]"@
    }

    /// Appends the list in the wire format.
    pub fn serialize(&self, out: &mut String)
        ensures
            final(out)@ == old(out)@ + self.text(),
    {
        out.push('[');
        push_quoted(out, self.name.as_str());
        out.append(", [");
        let ghost head = out@;
        let ghost parts = constant_texts(self.items@);
        let mut i: usize = 0;
        while i < self.items.len()
            invariant
                i <= self.items.len(),
                parts == constant_texts(self.items@),
                out@ == head + joined(parts.take(i as int)),
            decreases self.items.len() - i,
        {
            proof {
                joined_step(parts, i as int);
            }
            if i != 0 {
                out.push(',');
            }
            self.items[i].serialize(out);
            i = i + 1;
        }
        assert(parts.take(i as int) == parts);
        out.append("]]");
    }
}

/// What a reference names: the display name of a variable or a list as it
/// was when the reference was made, and its identifier.
pub struct EntityView {
    pub name: Seq<char>,
    pub id: nat,
}

impl EntityView {
    /// The key of the variable in the map of variables.
    pub open spec fn variable_key(self) -> Seq<char> {
        tagged('v', self.id)
    }

    /// The key of the list in the map of lists.
    pub open spec fn list_key(self) -> Seq<char> {
        tagged('l', self.id)
    }
}

/// A reference to a variable of a target.
pub struct VariableRef {
    name: String,
    id: Uid,
}

/// A reference to a list of a target.
pub struct ListRef {
    name: String,
    id: Uid,
}

impl View for VariableRef {
    type V = EntityView;

    closed spec fn view(&self) -> EntityView {
        EntityView { name: self.name@, id: self.id@ }
    }
}

impl View for ListRef {
    type V = EntityView;

    closed spec fn view(&self) -> EntityView {
        EntityView { name: self.name@, id: self.id@ }
    }
}

impl Clone for VariableRef {
    fn clone(&self) -> (r: Self)
        ensures
            r@ == self@,
    {
        VariableRef { name: self.name.clone(), id: self.id }
    }
}

impl Clone for ListRef {
    fn clone(&self) -> (r: Self)
        ensures
            r@ == self@,
    {
        ListRef { name: self.name.clone(), id: self.id }
    }
}

impl VariableRef {
    /// A reference to the variable `id`, whose display name is `name`.
    pub(crate) fn new(name: &str, id: Uid) -> (r: Self)
        ensures
            r@ == (EntityView { name: name@, id: id@ }),
    {
        VariableRef { name: String::from_str(name), id }
    }

    /// Appends the display name as a JSON string.
    pub(crate) fn push_name(&self, out: &mut String)
        ensures
            final(out)@ == old(out)@ + quoted(self@.name),
    {
        push_quoted(out, self.name.as_str());
    }

    /// Appends the key of the variable.
    pub(crate) fn push_key(&self, out: &mut String)
        ensures
            final(out)@ == old(out)@ + self@.variable_key(),
    {
        push_tagged(out, 'v', self.id.raw());
    }
}

impl ListRef {
    /// A reference to the list `id`, whose display name is `name`.
    pub(crate) fn new(name: &str, id: Uid) -> (r: Self)
        ensures
            r@ == (EntityView { name: name@, id: id@ }),
    {
        ListRef { name: String::from_str(name), id }
    }

    /// Appends the display name as a JSON string.
    pub(crate) fn push_name(&self, out: &mut String)
        ensures
            final(out)@ == old(out)@ + quoted(self@.name),
    {
        push_quoted(out, self.name.as_str());
    }

    /// Appends the key of the list.
    pub(crate) fn push_key(&self, out: &mut String)
        ensures
            final(out)@ == old(out)@ + self@.list_key(),
    {
        push_tagged(out, 'l', self.id.raw());
    }
}

/// A comment of a target.
pub struct Comment {
    pub text: String,
}

/// The text that stands for a comment in the wire format: the comment is
/// bound to no block and has neither a place nor a size.
pub open spec fn comment_text(text: Seq<char>) -> Seq<char> {
    "{\"text\":"@ + quoted(text)
        + ",\"blockId\":null,\"minimized\":false,\"x\":null,\"y\":null,\"width\":0,\"height\":0}"@
}

impl Comment {
    /// Appends the comment in the wire format.
    pub fn serialize(&self, out: &mut String)
        ensures
            final(out)@ == old(out)@ + comment_text(self.text@),
    {
        out.append("{\"text\":");
        push_quoted(out, self.text.as_str());
        out.append(
            ",\"blockId\":null,\"minimized\":false,\"x\":null,\"y\":null,\"width\":0,\"height\":0}",
        );
    }
}

} // verus!
