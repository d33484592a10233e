//! The schema statements that the library hands to the query layer, as values,
//! and their text.

use vstd::prelude::*;
use vstd::string::*;
use crate::text::{decimal, render_decimal};

verus! {

/// The type of a field.
#[derive(Debug, PartialEq, Eq)]
pub enum FieldType {
    /// Numbers laid out in the given shape: nested arrays, the first
    /// dimension outermost. The empty shape is one number.
    Tensor(Vec<usize>),
    /// The one text that the field may hold.
    Label(String),
}

/// What a `FieldType` holds.
pub enum FieldTypeView {
    Tensor(Seq<usize>),
    Label(Seq<char>),
}

/// A schema statement.
#[derive(Debug, PartialEq, Eq)]
pub enum Statement {
    /// Defines a namespace, unless it exists.
    DefineNamespace { name: String },
    /// Makes a namespace the session's namespace.
    UseNamespace { name: String },
    /// Defines a database in the session's namespace.
    DefineDatabase { name: String },
    /// Makes a database the session's database.
    UseDatabase { name: String },
    /// Defines a schema-full table for ordinary records.
    DefineTable { name: String },
    /// Defines a field of a table.
    DefineField { field: String, table: String, kind: FieldType },
    /// Removes a table.
    RemoveTable { name: String },
}

/// What a `Statement` holds.
pub enum StatementView {
    DefineNamespace { name: Seq<char> },
    UseNamespace { name: Seq<char> },
    DefineDatabase { name: Seq<char> },
    UseDatabase { name: Seq<char> },
    DefineTable { name: Seq<char> },
    DefineField { field: Seq<char>, table: Seq<char>, kind: FieldTypeView },
    RemoveTable { name: Seq<char> },
}

/// The text of the type of numbers laid out in a shape: `float` for the empty
/// shape, else an array, as long as the first dimension, of what the other
/// dimensions give.
pub open spec fn tensor_text(shape: Seq<usize>) -> Seq<char>
    decreases shape.len(),
{
    if shape.len() == 0 {
        "float"@
    } else {
        "array<"@ + tensor_text(shape.drop_first()) + ", "@ + decimal(shape[0] as nat) + ">"@
    }
}

impl FieldTypeView {
    /// The type as it is written in a statement.
    pub open spec fn text(self) -> Seq<char> {
        match self {
            FieldTypeView::Tensor(shape) => tensor_text(shape),
            FieldTypeView::Label(label) => "\""@ + label + "\""@,
        }
    }
}

impl StatementView {
    /// The statement as it is written.
    pub open spec fn text(self) -> Seq<char> {
        match self {
            StatementView::DefineNamespace { name } => "DEFINE NAMESPACE IF NOT EXISTS "@ + name,
            StatementView::UseNamespace { name } => "USE NS "@ + name,
            StatementView::DefineDatabase { name } => "DEFINE DATABASE "@ + name,
            StatementView::UseDatabase { name } => "USE DB "@ + name,
            StatementView::DefineTable { name } => "DEFINE TABLE "@ + name
                + " SCHEMAFULL TYPE NORMAL"@,
            StatementView::DefineField { field, table, kind } => "DEFINE FIELD "@ + field
                + " ON TABLE "@ + table + " TYPE "@ + kind.text(),
            StatementView::RemoveTable { name } => "REMOVE TABLE "@ + name,
        }
    }
}

impl View for FieldType {
    type V = FieldTypeView;

    open spec fn view(&self) -> FieldTypeView {
        match self {
            FieldType::Tensor(shape) => FieldTypeView::Tensor(shape@),
            FieldType::Label(label) => FieldTypeView::Label(label@),
        }
    }
}

impl DeepView for FieldType {
    type V = FieldTypeView;

    open spec fn deep_view(&self) -> FieldTypeView {
        self@
    }
}

impl View for Statement {
    type V = StatementView;

    open spec fn view(&self) -> StatementView {
        match self {
            Statement::DefineNamespace { name } => StatementView::DefineNamespace { name: name@ },
            Statement::UseNamespace { name } => StatementView::UseNamespace { name: name@ },
            Statement::DefineDatabase { name } => StatementView::DefineDatabase { name: name@ },
            Statement::UseDatabase { name } => StatementView::UseDatabase { name: name@ },
            Statement::DefineTable { name } => StatementView::DefineTable { name: name@ },
            Statement::DefineField { field, table, kind } => StatementView::DefineField {
                field: field@,
                table: table@,
                kind: kind@,
            },
            Statement::RemoveTable { name } => StatementView::RemoveTable { name: name@ },
        }
    }
}

impl DeepView for Statement {
    type V = StatementView;

    open spec fn deep_view(&self) -> StatementView {
        self@
    }
}

/// A copy of a shape.
pub fn copy_shape(shape: &Vec<usize>) -> (r: Vec<usize>)
    ensures
        r@ == shape@,
{
    let mut r: Vec<usize> = Vec::new();
    let mut i: usize = 0;
    while i < shape.len()
        invariant
            i <= shape.len(),
            r@ == shape@.take(i as int),
        decreases shape.len() - i,
    {
        r.push(shape[i]);
        assert(r@ =~= shape@.take(i + 1));
        i = i + 1;
    }
    assert(shape@.take(shape@.len() as int) =~= shape@);
    r
}

impl Clone for FieldType {
    fn clone(&self) -> (r: FieldType)
        ensures
            r@ == self@,
    {
        match self {
            FieldType::Tensor(shape) => FieldType::Tensor(copy_shape(shape)),
            FieldType::Label(label) => FieldType::Label(label.clone()),
        }
    }
}

impl Clone for Statement {
    fn clone(&self) -> (r: Statement)
        ensures
            r@ == self@,
    {
        match self {
            Statement::DefineNamespace { name } => Statement::DefineNamespace {
                name: name.clone(),
            },
            Statement::UseNamespace { name } => Statement::UseNamespace { name: name.clone() },
            Statement::DefineDatabase { name } => Statement::DefineDatabase { name: name.clone() },
            Statement::UseDatabase { name } => Statement::UseDatabase { name: name.clone() },
            Statement::DefineTable { name } => Statement::DefineTable { name: name.clone() },
            Statement::DefineField { field, table, kind } => Statement::DefineField {
                field: field.clone(),
                table: table.clone(),
                kind: kind.clone(),
            },
            Statement::RemoveTable { name } => Statement::RemoveTable { name: name.clone() },
        }
    }
}

/// Writes the type of numbers laid out in a shape.
pub fn render_tensor(shape: &Vec<usize>) -> (s: String)
    ensures
        s@ == tensor_text(shape@),
{
    let mut s = String::from_str("float");
    let mut i: usize = shape.len();
    proof {
        assert(shape@.subrange(i as int, shape@.len() as int).len() == 0);
    }
    while i > 0
        invariant
            i <= shape.len(),
            s@ == tensor_text(shape@.subrange(i as int, shape@.len() as int)),
        decreases i,
    {
        i = i - 1;
        let ghost inner = s@;
        let ghost tail = shape@.subrange(i as int, shape@.len() as int);
        let size = render_decimal(shape[i] as u64);
        s = String::from_str("array<").concat(s.as_str()).concat(", ").concat(
            size.as_str(),
        ).concat(">");
        proof {
            assert(tail.drop_first() =~= shape@.subrange(i + 1, shape@.len() as int));
            assert(tail[0] == shape@[i as int]);
            assert(s@ =~= "array<"@ + inner + ", "@ + decimal(shape@[i as int] as nat) + ">"@);
        }
    }
    proof {
        assert(shape@.subrange(0, shape@.len() as int) =~= shape@);
    }
    s
}

impl FieldType {
    /// Writes the type as it stands in a statement.
    pub fn render(&self) -> (s: String)
        ensures
            s@ == self@.text(),
    {
        match self {
            FieldType::Tensor(shape) => render_tensor(shape),
            FieldType::Label(label) => String::from_str("\"").concat(label.as_str()).concat("\""),
        }
    }
}

impl Statement {
    /// Writes the statement.
    pub fn render(&self) -> (s: String)
        ensures
            s@ == self@.text(),
    {
        match self {
            Statement::DefineNamespace { name } => String::from_str(
                "DEFINE NAMESPACE IF NOT EXISTS ",
            ).concat(name.as_str()),
            Statement::UseNamespace { name } => String::from_str("USE NS ").concat(name.as_str()),
            Statement::DefineDatabase { name } => String::from_str("DEFINE DATABASE ").concat(
                name.as_str(),
            ),
            Statement::UseDatabase { name } => String::from_str("USE DB ").concat(name.as_str()),
            Statement::DefineTable { name } => String::from_str("DEFINE TABLE ").concat(
                name.as_str(),
            ).concat(" SCHEMAFULL TYPE NORMAL"),
            Statement::DefineField { field, table, kind } => {
                let kind_text = kind.render();
                String::from_str("DEFINE FIELD ").concat(field.as_str()).concat(
                    " ON TABLE ",
                ).concat(table.as_str()).concat(" TYPE ").concat(kind_text.as_str())
            },
            Statement::RemoveTable { name } => String::from_str("REMOVE TABLE ").concat(
                name.as_str(),
            ),
        }
    }
}

} // verus!
