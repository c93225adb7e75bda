//! Custom blocks: the parameters of a procedure, and the mutation that tells
//! the runtime the shape of its definition and of its calls.

use crate::block::Sketch;
use crate::block::FieldsView;
use crate::text::{decimal, joined, joined_step, push_decimal, push_quoted, quoted};
use crate::uid::Uid;
use vstd::prelude::*;
use vstd::string::StringExecFns;

verus! {

/// What a parameter of a custom block takes.
#[derive(Clone, Copy, Debug, PartialEq, Eq, Structural)]
pub enum ParameterKind {
    StringOrNumber,
    Boolean,
}

impl ParameterKind {
    /// The token that stands for a parameter of this kind in a call
    /// signature, with the space before it.
    pub open spec fn placeholder(self) -> Seq<char> {
        match self {
            ParameterKind::StringOrNumber => " %s"@,
            ParameterKind::Boolean => " %b"@,
        }
    }

    /// The default value of a parameter of this kind, as JSON: the empty
    /// string, or `false`.
    pub open spec fn default_text(self) -> Seq<char> {
        match self {
            ParameterKind::StringOrNumber => "\"\""@,
            ParameterKind::Boolean => "false"@,
        }
    }
}

/// A parameter of a custom block.
pub struct Parameter {
    pub name: String,
    pub kind: ParameterKind,
}

impl Clone for Parameter {
    fn clone(&self) -> (r: Self)
        ensures
            r == *self,
    {
        Parameter { name: self.name.clone(), kind: self.kind }
    }
}

/// The call signature of a custom block: its name, then the placeholder of
/// each parameter in order.
pub open spec fn signature(name: Seq<char>, parameters: Seq<Parameter>) -> Seq<char>
    decreases parameters.len(),
{
    if parameters.len() == 0 {
        name
    } else {
        signature(name, parameters.drop_last()) + parameters.last().kind.placeholder()
    }
}

/// An identifier as a JSON string.
pub open spec fn id_text(id: nat) -> Seq<char> {
    seq!['"'] + decimal(id) + seq!['"']
}

/// A JSON array with the given items.
pub open spec fn array(items: Seq<Seq<char>>) -> Seq<char> {
    seq!['['] + joined(items) + seq![']']
}

/// The identifiers of the parameters as a JSON array of strings.
pub open spec fn ids_json(ids: Seq<nat>) -> Seq<char> {
    array(Seq::new(ids.len(), |i: int| id_text(ids[i])))
}

/// The names of the parameters as a JSON array of strings.
pub open spec fn names_json(parameters: Seq<Parameter>) -> Seq<char> {
    array(Seq::new(parameters.len(), |i: int| quoted(parameters[i].name@)))
}

/// The default values of the parameters as a JSON array.
pub open spec fn defaults_json(parameters: Seq<Parameter>) -> Seq<char> {
    array(Seq::new(parameters.len(), |i: int| parameters[i].kind.default_text()))
}

/// A mutation as the encoder sees it. The arrays are held as the JSON text
/// that the wire format wants inside a string.
pub struct MutationView {
    pub proccode: Seq<char>,
    pub argumentids: Seq<char>,
    pub argumentnames: Option<Seq<char>>,
    pub argumentdefaults: Option<Seq<char>>,
}

impl MutationView {
    /// The mutation of the prototype of the custom block `name` with the
    /// given parameters, whose identifiers are `ids`.
    pub open spec fn prototype(name: Seq<char>, parameters: Seq<Parameter>, ids: Seq<nat>) -> Self {
        MutationView {
            proccode: signature(name, parameters),
            argumentids: ids_json(ids),
            argumentnames: Some(names_json(parameters)),
            argumentdefaults: Some(defaults_json(parameters)),
        }
    }

    /// The same mutation as a call carries it: without the names and the
    /// default values.
    pub open spec fn call(self) -> Self {
        MutationView { argumentnames: None, argumentdefaults: None, ..self }
    }

    /// The names, where the mutation has them, as a member of the object.
    pub open spec fn names_text(self) -> Seq<char> {
        match self.argumentnames {
            Some(names) => ",\"argumentnames\":"@ + quoted(names),
            None => Seq::empty(),
        }
    }

    /// The default values, where the mutation has them, as a member of the
    /// object.
    pub open spec fn defaults_text(self) -> Seq<char> {
        match self.argumentdefaults {
            Some(defaults) => ",\"argumentdefaults\":"@ + quoted(defaults),
            None => Seq::empty(),
        }
    }

    /// The mutation in the wire format.
    pub open spec fn text(self) -> Seq<char> {
        "{\"tagName\":\"mutation\",\"children\":[],\"proccode\":"@ + quoted(self.proccode)
            + ",\"argumentids\":"@ + quoted(self.argumentids) + ",\"warp\":\"true\""@
            + self.names_text() + self.defaults_text() + seq!['}']
    }
}

/// The payload of the blocks that define or call a custom block.
pub struct Mutation {
    proccode: String,
    argumentids: String,
    argumentnames: Option<String>,
    argumentdefaults: Option<String>,
}

impl View for Mutation {
    type V = MutationView;

    closed spec fn view(&self) -> MutationView {
        MutationView {
            proccode: self.proccode@,
            argumentids: self.argumentids@,
            argumentnames: match self.argumentnames {
                Some(names) => Some(names@),
                None => None,
            },
            argumentdefaults: match self.argumentdefaults {
                Some(defaults) => Some(defaults@),
                None => None,
            },
        }
    }
}

impl Mutation {
    /// The mutation with the given texts.
    pub(crate) fn new(
        proccode: String,
        argumentids: String,
        argumentnames: Option<String>,
        argumentdefaults: Option<String>,
    ) -> (m: Mutation)
        ensures
            m@ == (MutationView {
                proccode: proccode@,
                argumentids: argumentids@,
                argumentnames: match argumentnames {
                    Some(names) => Some(names@),
                    None => None,
                },
                argumentdefaults: match argumentdefaults {
                    Some(defaults) => Some(defaults@),
                    None => None,
                },
            }),
    {
        Mutation { proccode, argumentids, argumentnames, argumentdefaults }
    }

    /// A copy of the mutation for a call: without the names and the default
    /// values.
    pub(crate) fn for_call(&self) -> (m: Mutation)
        ensures
            m@ == self@.call(),
    {
        Mutation {
            proccode: self.proccode.clone(),
            argumentids: self.argumentids.clone(),
            argumentnames: None,
            argumentdefaults: None,
        }
    }

    /// A copy of the mutation.
    pub(crate) fn duplicate(&self) -> (m: Mutation)
        ensures
            m@ == self@,
    {
        Mutation {
            proccode: self.proccode.clone(),
            argumentids: self.argumentids.clone(),
            argumentnames: match &self.argumentnames {
                Some(names) => Some(names.clone()),
                None => None,
            },
            argumentdefaults: match &self.argumentdefaults {
                Some(defaults) => Some(defaults.clone()),
                None => None,
            },
        }
    }

    /// Appends the mutation in the wire format.
    pub fn serialize(&self, out: &mut String)
        ensures
            final(out)@ == old(out)@ + self@.text(),
    {
        out.append("{\"tagName\":\"mutation\",\"children\":[],\"proccode\":");
        push_quoted(out, self.proccode.as_str());
        out.append(",\"argumentids\":");
        push_quoted(out, self.argumentids.as_str());
        out.append(",\"warp\":\"true\"");
        match &self.argumentnames {
            Some(names) => {
                out.append(",\"argumentnames\":");
                push_quoted(out, names.as_str());
            },
            None => {},
        }
        match &self.argumentdefaults {
            Some(defaults) => {
                out.append(",\"argumentdefaults\":");
                push_quoted(out, defaults.as_str());
            },
            None => {},
        }
        out.push('}');
    }
}

/// A custom block as its calls see it.
pub struct CustomBlockView {
    /// The mutation that each call carries.
    pub mutation: MutationView,
    /// The identifiers of the parameters, in order.
    pub param_ids: Seq<nat>,
}

/// A custom block that has been defined: what a call of it needs.
pub struct CustomBlock {
    mutation: Mutation,
    param_ids: Vec<Uid>,
}

/// The numbers of the identifiers `ids`, one for one.
pub open spec fn id_values(ids: Seq<Uid>) -> Seq<nat> {
    Seq::new(ids.len(), |i: int| ids[i]@)
}

impl View for CustomBlock {
    type V = CustomBlockView;

    closed spec fn view(&self) -> CustomBlockView {
        CustomBlockView { mutation: self.mutation@, param_ids: id_values(self.param_ids@) }
    }
}

impl CustomBlock {
    /// The custom block with the given mutation and parameter identifiers.
    pub(crate) fn new(mutation: Mutation, param_ids: Vec<Uid>) -> (b: CustomBlock)
        ensures
            b@ == (CustomBlockView { mutation: mutation@, param_ids: id_values(param_ids@) }),
    {
        CustomBlock { mutation, param_ids }
    }

    /// A copy of the mutation that a call carries.
    pub(crate) fn mutation(&self) -> (m: Mutation)
        ensures
            m@ == self@.mutation,
    {
        self.mutation.duplicate()
    }

    /// How many parameters the custom block has.
    pub(crate) fn arity(&self) -> (n: usize)
        ensures
            n == self@.param_ids.len(),
    {
        self.param_ids.len()
    }

    /// The identifier of the parameter `i`.
    pub(crate) fn param_id(&self, i: usize) -> (id: Uid)
        requires
            i < self@.param_ids.len(),
        ensures
            id@ == self@.param_ids[i as int],
    {
        self.param_ids[i]
    }
}

/// The block that stands for the parameter `parameter` inside the body of
/// its custom block.
pub open spec fn argument_reporter(parameter: Parameter) -> Sketch {
    Sketch::plain(
        match parameter.kind {
            ParameterKind::StringOrNumber => "argument_reporter_string_number"@,
            ParameterKind::Boolean => "argument_reporter_boolean"@,
        },
    ).with(FieldsView::Value(parameter.name@))
}

/// The call signature of the custom block `name` with the given parameters.
pub(crate) fn render_signature(name: String, parameters: &Vec<Parameter>) -> (text: String)
    ensures
        text@ == signature(name@, parameters@),
{
    let mut text = name;
    let mut i: usize = 0;
    while i < parameters.len()
        invariant
            i <= parameters.len(),
            text@ == signature(name@, parameters@.take(i as int)),
        decreases parameters.len() - i,
    {
        assert(parameters@.take(i + 1).drop_last() == parameters@.take(i as int));
        match parameters[i].kind {
            ParameterKind::StringOrNumber => text.append(" %s"),
            ParameterKind::Boolean => text.append(" %b"),
        }
        i = i + 1;
    }
    assert(parameters@.take(i as int) == parameters@);
    text
}

/// The identifiers `ids` as a JSON array of strings.
pub(crate) fn render_ids(ids: &Vec<Uid>) -> (text: String)
    ensures
        text@ == ids_json(id_values(ids@)),
{
    let ghost parts = Seq::new(ids@.len(), |i: int| id_text(id_values(ids@)[i]));
    let mut text = String::new();
    text.push('[');
    let ghost head = text@;
    let mut i: usize = 0;
    while i < ids.len()
        invariant
            i <= ids.len(),
            parts == Seq::new(ids@.len(), |i: int| id_text(id_values(ids@)[i])),
            text@ == head + joined(parts.take(i as int)),
        decreases ids.len() - i,
    {
        proof {
            joined_step(parts, i as int);
        }
        if i != 0 {
            text.push(',');
        }
        text.push('"');
        push_decimal(&mut text, ids[i].raw());
        text.push('"');
        i = i + 1;
    }
    assert(parts.take(i as int) == parts);
    text.push(']');
    text
}

/// The names of the parameters as a JSON array of strings.
pub(crate) fn render_names(parameters: &Vec<Parameter>) -> (text: String)
    ensures
        text@ == names_json(parameters@),
{
    let ghost parts = Seq::new(parameters@.len(), |i: int| quoted(parameters@[i].name@));
    let mut text = String::new();
    text.push('[');
    let ghost head = text@;
    let mut i: usize = 0;
    while i < parameters.len()
        invariant
            i <= parameters.len(),
            parts == Seq::new(parameters@.len(), |i: int| quoted(parameters@[i].name@)),
            text@ == head + joined(parts.take(i as int)),
        decreases parameters.len() - i,
    {
        proof {
            joined_step(parts, i as int);
        }
        if i != 0 {
            text.push(',');
        }
        push_quoted(&mut text, parameters[i].name.as_str());
        i = i + 1;
    }
    assert(parts.take(i as int) == parts);
    text.push(']');
    text
}

/// The default values of the parameters as a JSON array.
pub(crate) fn render_defaults(parameters: &Vec<Parameter>) -> (text: String)
    ensures
        text@ == defaults_json(parameters@),
{
    let ghost parts = Seq::new(parameters@.len(), |i: int| parameters@[i].kind.default_text());
    let mut text = String::new();
    text.push('[');
    let ghost head = text@;
    let mut i: usize = 0;
    while i < parameters.len()
        invariant
            i <= parameters.len(),
            parts == Seq::new(parameters@.len(), |i: int| parameters@[i].kind.default_text()),
            text@ == head + joined(parts.take(i as int)),
        decreases parameters.len() - i,
    {
        proof {
            joined_step(parts, i as int);
        }
        if i != 0 {
            text.push(',');
        }
        match parameters[i].kind {
            ParameterKind::StringOrNumber => text.append("\"\""),
            ParameterKind::Boolean => text.append("false"),
        }
        i = i + 1;
    }
    assert(parts.take(i as int) == parts);
    text.push(']');
    text
}

} // verus!
