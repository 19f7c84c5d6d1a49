//! Generating, from the declaration of a composite, the code that it needs:
//! an accessor for each named field, and the command factory that visits the
//! fields in the order of their declaration and stops at the first failure.
//!
//! The declaration comes as plain text, piece by piece, and the code goes out
//! as text. Nothing is decided here but the shape of that text.

use crate::text::{decimal, decimal_string};
use vstd::prelude::*;
use vstd::string::*;

verus! {

/// One field of a declaration: its name, if it has one, and its type.
#[derive(Debug, PartialEq)]
pub struct FieldDecl {
    pub name: Option<String>,
    pub ty: String,
}

/// The declaration of a composite: its name, its generic parameters with
/// their brackets, its `where` clause with its keyword (either may be
/// empty), and its fields in the order of their declaration.
#[derive(Debug, PartialEq)]
pub struct StructDecl {
    pub name: String,
    pub generics: String,
    pub where_clause: String,
    pub fields: Vec<FieldDecl>,
}

/// The `where` clause as it follows a header: behind one space, or not at
/// all.
pub open spec fn where_part(where_clause: Seq<char>) -> Seq<char> {
    if where_clause.len() == 0 {
        Seq::empty()
    } else {
        " "@ + where_clause
    }
}

/// The accessor that lends the field `name` of type `ty` for mutation.
pub open spec fn accessor_text(name: Seq<char>, ty: Seq<char>) -> Seq<char> {
    "    pub fn "@ + name + "(&mut self) -> &mut "@ + ty + " {\n        &mut self."@ + name
        + "\n    }\n"@
}

/// The accessors of `fields`, in their order. A field without a name gets
/// none.
pub open spec fn accessors_text(fields: Seq<FieldDecl>) -> Seq<char>
    decreases fields.len(),
{
    if fields.len() == 0 {
        Seq::empty()
    } else {
        accessors_text(fields.drop_last()) + (match fields.last().name {
            Some(name) => accessor_text(name@, fields.last().ty@),
            None => Seq::empty(),
        })
    }
}

/// The impl block that holds the accessors of `item`.
pub open spec fn getters_text(item: StructDecl) -> Seq<char> {
    "impl"@ + item.generics@ + " "@ + item.name@ + where_part(item.where_clause@) + " {\n"@
        + accessors_text(item.fields@) + "}\n"@
}

/// How the field at `position` is reached from `self`: by its name, or by
/// its position where it has none.
pub open spec fn member(field: FieldDecl, position: nat) -> Seq<char> {
    match field.name {
        Some(name) => name@,
        None => decimal(position),
    }
}

/// The statement that visits one field: its commands go behind those
/// collected so far, and its failure ends the function at once.
pub open spec fn visit_text(member: Seq<char>) -> Seq<char> {
    "        commands.append(&mut GnuCommandFactory::as_commands(&self."@ + member + ")?);\n"@
}

/// The visits of `fields`: one for every field, in the order of the
/// declaration.
pub open spec fn visits_text(fields: Seq<FieldDecl>) -> Seq<char>
    decreases fields.len(),
{
    if fields.len() == 0 {
        Seq::empty()
    } else {
        visits_text(fields.drop_last()) + visit_text(
            member(fields.last(), (fields.len() - 1) as nat),
        )
    }
}

/// The command factory of `item`.
pub open spec fn factory_text(item: StructDecl) -> Seq<char> {
    "impl"@ + item.generics@ + " GnuCommandFactory for "@ + item.name@ + where_part(
        item.where_clause@,
    )
        + " {\n    fn as_commands(&self) -> GnuCommandFactoryResult {\n        let mut commands = VecDeque::new();\n"@
        + visits_text(item.fields@) + "        Ok(commands)\n    }\n}\n"@
}

/// All that is generated for an axis.
pub open spec fn axis_text(item: StructDecl) -> Seq<char> {
    getters_text(item) + factory_text(item)
}

/// All that is generated for a plot.
pub open spec fn plot_text(item: StructDecl) -> Seq<char> {
    "use ::std::collections::VecDeque;\nuse gnuplotter::prelude::*;\n"@ + factory_text(item)
        + "impl CanRender for "@ + item.name@ + " {}\n"@ + getters_text(item)
}

/// Appends the `where` clause behind a header.
fn push_where_part(text: &mut String, where_clause: &str)
    ensures
        final(text)@ == old(text)@ + where_part(where_clause@),
{
    if !where_clause.is_empty() {
        text.append(" ");
        text.append(where_clause);
        assert(text@ =~= old(text)@ + (" "@ + where_clause@));
    } else {
        assert(text@ =~= old(text)@ + Seq::<char>::empty());
    }
}

/// The impl block with an accessor for each named field of `item`.
pub fn getters(item: &StructDecl) -> (text: String)
    ensures
        text@ == getters_text(*item),
{
    let mut text = String::from_str("impl");
    text.append(item.generics.as_str());
    text.append(" ");
    text.append(item.name.as_str());
    push_where_part(&mut text, item.where_clause.as_str());
    text.append(" {\n");
    let ghost header = text@;
    let mut i: usize = 0;
    while i < item.fields.len()
        invariant
            i <= item.fields.len(),
            text@ == header + accessors_text(item.fields@.take(i as int)),
        decreases item.fields.len() - i,
    {
        let ghost done = accessors_text(item.fields@.take(i as int));
        let ghost upto = item.fields@.take(i + 1);
        assert(upto.drop_last() =~= item.fields@.take(i as int));
        assert(upto.last() == item.fields@[i as int]);
        let field = &item.fields[i];
        match &field.name {
            Some(name) => {
                text.append("    pub fn ");
                text.append(name.as_str());
                text.append("(&mut self) -> &mut ");
                text.append(field.ty.as_str());
                text.append(" {\n        &mut self.");
                text.append(name.as_str());
                text.append("\n    }\n");
                assert(text@ =~= header + (done + accessor_text(name@, field.ty@)));
            },
            None => {
                assert(text@ =~= header + (done + Seq::<char>::empty()));
            },
        }
        i += 1;
    }
    assert(item.fields@.take(i as int) =~= item.fields@);
    text.append("}\n");
    assert(text@ =~= getters_text(*item));
    text
}

/// The command factory of `item`: it visits every field once, in the order
/// of the declaration, and stops at the first that fails.
pub fn gnu_command_factory(item: &StructDecl) -> (text: String)
    ensures
        text@ == factory_text(*item),
{
    let mut text = String::from_str("impl");
    text.append(item.generics.as_str());
    text.append(" GnuCommandFactory for ");
    text.append(item.name.as_str());
    push_where_part(&mut text, item.where_clause.as_str());
    text.append(
        " {\n    fn as_commands(&self) -> GnuCommandFactoryResult {\n        let mut commands = VecDeque::new();\n",
    );
    let ghost header = text@;
    let mut i: usize = 0;
    while i < item.fields.len()
        invariant
            i <= item.fields.len(),
            text@ == header + visits_text(item.fields@.take(i as int)),
        decreases item.fields.len() - i,
    {
        let ghost done = visits_text(item.fields@.take(i as int));
        let ghost upto = item.fields@.take(i + 1);
        assert(upto.drop_last() =~= item.fields@.take(i as int));
        assert(upto.last() == item.fields@[i as int]);
        let field = &item.fields[i];
        text.append("        commands.append(&mut GnuCommandFactory::as_commands(&self.");
        match &field.name {
            Some(name) => {
                text.append(name.as_str());
            },
            None => {
                text.append(decimal_string(i as u128).as_str());
            },
        }
        text.append(")?);\n");
        assert(text@ =~= header + (done + visit_text(member(*field, i as nat))));
        i += 1;
    }
    assert(item.fields@.take(i as int) =~= item.fields@);
    text.append("        Ok(commands)\n    }\n}\n");
    assert(text@ =~= factory_text(*item));
    text
}

/// What is generated for an axis: its accessors, then its command factory.
pub fn derive_axis(item: &StructDecl) -> (text: String)
    ensures
        text@ == axis_text(*item),
{
    let mut text = getters(item);
    text.append(gnu_command_factory(item).as_str());
    text
}

/// What is generated for a plot: the imports that the code needs, its
/// command factory, the mark that it can be rendered, and its accessors.
pub fn derive_plot(item: &StructDecl) -> (text: String)
    ensures
        text@ == plot_text(*item),
{
    let mut text = String::from_str(
        "use ::std::collections::VecDeque;\nuse gnuplotter::prelude::*;\n",
    );
    text.append(gnu_command_factory(item).as_str());
    text.append("impl CanRender for ");
    text.append(item.name.as_str());
    text.append(" {}\n");
    text.append(getters(item).as_str());
    text
}

/// Every named field gets exactly one accessor and every field exactly one
/// visit, in the order of the declaration: what is generated for the fields
/// up to a point is the beginning of what is generated for all.
pub proof fn lemma_generated_in_declaration_order(fields: Seq<FieldDecl>, upto: int)
    requires
        0 <= upto <= fields.len(),
    ensures
        accessors_text(fields.take(upto)).is_prefix_of(accessors_text(fields)),
        visits_text(fields.take(upto)).is_prefix_of(visits_text(fields)),
    decreases fields.len() - upto,
{
    if upto == fields.len() {
        assert(fields.take(upto) =~= fields);
    } else {
        lemma_generated_in_declaration_order(fields, upto + 1);
        let next = fields.take(upto + 1);
        assert(next.drop_last() =~= fields.take(upto));
        assert(accessors_text(fields.take(upto)).is_prefix_of(accessors_text(next)));
        assert(visits_text(fields.take(upto)).is_prefix_of(visits_text(next)));
        assert(accessors_text(fields.take(upto)).is_prefix_of(accessors_text(fields))) by {
            let a = accessors_text(fields.take(upto));
            let b = accessors_text(next);
            let c = accessors_text(fields);
            assert(a =~= c.subrange(0, a.len() as int)) by {
                assert(b =~= c.subrange(0, b.len() as int));
                assert(a =~= b.subrange(0, a.len() as int));
            }
        }
        assert(visits_text(fields.take(upto)).is_prefix_of(visits_text(fields))) by {
            let a = visits_text(fields.take(upto));
            let b = visits_text(next);
            let c = visits_text(fields);
            assert(a =~= c.subrange(0, a.len() as int)) by {
                assert(b =~= c.subrange(0, b.len() as int));
                assert(a =~= b.subrange(0, a.len() as int));
            }
        }
    }
}

} // verus!
