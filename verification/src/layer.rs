//! Layers: what describes one, which descriptions are acceptable, and the
//! schema statements that define one.

use vstd::prelude::*;
use vstd::string::*;
use crate::activation::{Activation, ActivationRecord, ActivationRecordView};
use crate::scalar::Scalar;
use crate::statement::copy_shape;
use crate::statement::{FieldType, FieldTypeView, Statement, StatementView};
use crate::text::{decimal, render_decimal};

verus! {

/// The class of a layer.
#[derive(Clone, Copy, Debug, PartialEq, Eq, Structural)]
pub enum Layer {
    Input,
    Hidden,
    Output,
}

impl Layer {
    /// The tag of the class in a schema.
    pub open spec fn spec_tag(self) -> Seq<char> {
        match self {
            Layer::Input => "input"@,
            Layer::Hidden => "hidden"@,
            Layer::Output => "output"@,
        }
    }

    /// The tag of the class in a schema.
    pub fn tag(&self) -> (t: &'static str)
        ensures
            t@ == self.spec_tag(),
    {
        match self {
            Layer::Input => "input",
            Layer::Hidden => "hidden",
            Layer::Output => "output",
        }
    }
}

/// What describes a layer: its name, its class, its shape, and, where it has
/// them, its activation function and its dropout rate.
#[derive(Debug)]
pub struct LayerDescriptor {
    pub name: String,
    pub class: Layer,
    pub shape: Vec<usize>,
    pub activation: Option<Activation>,
    pub dropout: Option<Scalar>,
}

/// What a `LayerDescriptor` holds.
pub struct LayerDescriptorView {
    pub name: Seq<char>,
    pub class: Layer,
    pub shape: Seq<usize>,
    pub activation: Option<Activation>,
    pub dropout: Option<Scalar>,
}

impl View for LayerDescriptor {
    type V = LayerDescriptorView;

    open spec fn view(&self) -> LayerDescriptorView {
        LayerDescriptorView {
            name: self.name@,
            class: self.class,
            shape: self.shape@,
            activation: self.activation,
            dropout: self.dropout,
        }
    }
}

impl Clone for LayerDescriptor {
    fn clone(&self) -> (r: LayerDescriptor)
        ensures
            r@ == self@,
    {
        LayerDescriptor {
            name: self.name.clone(),
            class: self.class,
            shape: copy_shape(&self.shape),
            activation: self.activation,
            dropout: self.dropout,
        }
    }
}

impl DeepView for LayerDescriptor {
    type V = LayerDescriptorView;

    open spec fn deep_view(&self) -> LayerDescriptorView {
        self@
    }
}

/// The parameters of a record as they follow the tag in its text: a colon and
/// the decimal notation of the bit pattern, for each.
pub open spec fn params_text(params: Seq<u32>) -> Seq<char>
    decreases params.len(),
{
    if params.len() == 0 {
        Seq::<char>::empty()
    } else {
        params_text(params.drop_last()) + ":"@ + decimal(params.last() as nat)
    }
}

/// The text of an activation record: its tag, then its parameters.
pub open spec fn record_text(w: ActivationRecordView) -> Seq<char> {
    w.tag + params_text(w.params)
}

/// Whether a shape holds a zero.
pub open spec fn holds_zero(shape: Seq<usize>) -> bool {
    exists|i: int| 0 <= i < shape.len() && shape[i] == 0
}

impl LayerDescriptorView {
    /// What is wrong with the description, in words: the first of the rules
    /// that it breaks. The name is not empty; no dimension of the shape is
    /// zero; the dropout rate is a number in `[0, 1)`; the activation
    /// function's parameters are valid.
    pub open spec fn complaint(self) -> Option<Seq<char>> {
        if self.name.len() == 0 {
            Some("the name of the layer is empty"@)
        } else if holds_zero(self.shape) {
            Some("the shape of the layer holds a zero"@)
        } else if self.dropout is Some && !self.dropout->0.unit_rate() {
            Some("the dropout rate is not a number in [0, 1)"@)
        } else if self.activation is Some && !self.activation->0.valid() {
            Some(self.activation->0.complaint())
        } else {
            None
        }
    }

    /// Whether the description breaks no rule.
    pub open spec fn valid(self) -> bool {
        self.complaint() is None
    }

    /// The field that records the activation function, where there is one:
    /// the one text that it may hold is the text of the function's record.
    pub open spec fn activation_statements(self) -> Seq<StatementView> {
        match self.activation {
            Some(a) => seq![
                StatementView::DefineField {
                    field: "activation"@,
                    table: self.name,
                    kind: FieldTypeView::Label(record_text(a.encoding())),
                },
            ],
            None => Seq::<StatementView>::empty(),
        }
    }

    /// The field that records the dropout rate, where there is one: the one
    /// text that it may hold is the decimal notation of the rate's bit
    /// pattern.
    pub open spec fn dropout_statements(self) -> Seq<StatementView> {
        match self.dropout {
            Some(d) => seq![
                StatementView::DefineField {
                    field: "dropout"@,
                    table: self.name,
                    kind: FieldTypeView::Label(decimal(d.bits as nat)),
                },
            ],
            None => Seq::<StatementView>::empty(),
        }
    }

    /// The statements that define the layer: its table; its fields, `bias` in
    /// the layer's shape and `class`; and the record of its activation
    /// function and of its dropout rate, for each that it has.
    pub open spec fn statements(self) -> Seq<StatementView> {
        seq![
            StatementView::DefineTable { name: self.name },
            StatementView::DefineField {
                field: "bias"@,
                table: self.name,
                kind: FieldTypeView::Tensor(self.shape),
            },
            StatementView::DefineField {
                field: "class"@,
                table: self.name,
                kind: FieldTypeView::Label(self.class.spec_tag()),
            },
        ] + self.activation_statements() + self.dropout_statements()
    }
}

/// The statements that define the layers of an iteration, layer by layer in
/// their order.
pub open spec fn schema_statements(layers: Seq<LayerDescriptorView>) -> Seq<StatementView>
    decreases layers.len(),
{
    if layers.len() == 0 {
        Seq::<StatementView>::empty()
    } else {
        schema_statements(layers.drop_last()) + layers.last().statements()
    }
}

/// Whether a shape holds a zero.
pub fn has_zero(shape: &Vec<usize>) -> (b: bool)
    ensures
        b == holds_zero(shape@),
{
    let mut i: usize = 0;
    while i < shape.len()
        invariant
            i <= shape.len(),
            forall|j: int| 0 <= j < i ==> shape@[j] != 0,
        decreases shape.len() - i,
    {
        if shape[i] == 0 {
            return true;
        }
        i = i + 1;
    }
    false
}

/// Writes an activation record: its tag, then a colon and the decimal
/// notation of the bit pattern for each parameter.
pub fn render_record(w: &ActivationRecord) -> (s: String)
    ensures
        s@ == record_text(w@),
{
    let mut s = w.tag.clone();
    let mut i: usize = 0;
    proof {
        assert(w.params@.take(0).len() == 0);
        assert(s@ =~= w.tag@ + params_text(w.params@.take(0)));
    }
    while i < w.params.len()
        invariant
            i <= w.params.len(),
            s@ == w.tag@ + params_text(w.params@.take(i as int)),
        decreases w.params.len() - i,
    {
        let ghost before = w.params@.take(i as int);
        let number = render_decimal(w.params[i] as u64);
        s.append(":");
        s.append(number.as_str());
        proof {
            let after = w.params@.take(i + 1);
            assert(after.drop_last() =~= before);
            assert(after.last() == w.params@[i as int]);
            assert(s@ =~= w.tag@ + params_text(after));
        }
        i = i + 1;
    }
    proof {
        assert(w.params@.take(w.params@.len() as int) =~= w.params@);
    }
    s
}

impl LayerDescriptor {
    /// What is wrong with the description, in words, or `None` where it
    /// breaks no rule.
    pub fn check(&self) -> (r: Option<&'static str>)
        ensures
            match self@.complaint() {
                Some(text) => r is Some && r->0@ == text,
                None => r is None,
            },
    {
        if self.name.as_str().unicode_len() == 0 {
            return Some("the name of the layer is empty");
        }
        if has_zero(&self.shape) {
            return Some("the shape of the layer holds a zero");
        }
        match &self.dropout {
            Some(d) => {
                if !d.is_unit_rate() {
                    return Some("the dropout rate is not a number in [0, 1)");
                }
            },
            None => {},
        }
        match &self.activation {
            Some(a) => {
                if !a.is_valid() {
                    return Some(a.complaint_text());
                }
            },
            None => {},
        }
        None
    }

    /// The statements that define the layer.
    pub fn statements(&self) -> (r: Vec<Statement>)
        ensures
            r.deep_view() == self@.statements(),
    {
        let mut r: Vec<Statement> = Vec::new();
        r.push(Statement::DefineTable { name: self.name.clone() });
        r.push(
            Statement::DefineField {
                field: String::from_str("bias"),
                table: self.name.clone(),
                kind: FieldType::Tensor(copy_shape(&self.shape)),
            },
        );
        r.push(
            Statement::DefineField {
                field: String::from_str("class"),
                table: self.name.clone(),
                kind: FieldType::Label(String::from_str(self.class.tag())),
            },
        );
        match &self.activation {
            Some(a) => {
                let w = a.to_schema_representation();
                r.push(
                    Statement::DefineField {
                        field: String::from_str("activation"),
                        table: self.name.clone(),
                        kind: FieldType::Label(render_record(&w)),
                    },
                );
            },
            None => {},
        }
        match &self.dropout {
            Some(d) => {
                r.push(
                    Statement::DefineField {
                        field: String::from_str("dropout"),
                        table: self.name.clone(),
                        kind: FieldType::Label(render_decimal(d.bits as u64)),
                    },
                );
            },
            None => {},
        }
        assert(r.deep_view() =~= self@.statements());
        r
    }
}

} // verus!
