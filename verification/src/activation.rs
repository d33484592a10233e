//! Activation functions: their parameters, the rules on them, and the form in
//! which a layer's schema records them.

use vstd::prelude::*;
use vstd::string::*;
use crate::error::Error;
use crate::scalar::Scalar;
use crate::scalar::{INFINITY_BITS, ONE_BITS, ZERO_BITS};
use crate::text::same_text;

verus! {

/// The bit pattern of the default `scale` of `SeLU`, 1.0507009873554805.
pub const SELU_SCALE_BITS: u32 = 0x3f86_7d5f;

/// The bit pattern of the default `alpha` of `SeLU`, 1.6732632423543772.
pub const SELU_ALPHA_BITS: u32 = 0x3fd6_2d7d;

/// The activation function of a layer. All of them work element by element.
#[derive(Clone, Copy, Debug, PartialEq, Eq, Structural)]
pub enum Activation {
    /// `x`
    Linear,
    /// `exp(x)`
    Exponential,
    /// `1 / (exp(-x) + 1)`
    Sigmoid,
    /// `log(exp(x) + 1)`
    Softplus,
    /// `(exp(x) - exp(-x)) / (exp(x) + exp(-x))`
    Tanh,
    /// `x * tanh(softplus(x))`
    Mish,
    /// `x * sigmoid(x)`
    Swish,
    /// `x / (|x| + 1)`
    Softsign,
    /// `x` if `x > 0`, else `alpha * exp(x) - 1`; `alpha` must be greater than zero.
    Elu { alpha: Scalar },
    /// `x` if `threshold < x < max_value`, `alpha * x` if `x <= threshold`,
    /// else `max_value`; `threshold` must be less than `max_value`.
    ReLU { threshold: Scalar, alpha: Scalar, max_value: Scalar },
    /// `scale * (x if x > 0 else alpha * (exp(x) - 1))`; both must be finite.
    SeLU { scale: Scalar, alpha: Scalar },
}

/// The form in which a layer's schema records an activation function: the
/// function's tag and the bit patterns of its parameters, in the order of
/// their declaration.
#[derive(Debug)]
pub struct ActivationRecord {
    pub tag: String,
    pub params: Vec<u32>,
}

/// What an `ActivationRecord` holds.
pub struct ActivationRecordView {
    pub tag: Seq<char>,
    pub params: Seq<u32>,
}

impl Clone for ActivationRecord {
    fn clone(&self) -> (r: ActivationRecord)
        ensures
            r@ == self@,
    {
        let mut params: Vec<u32> = Vec::new();
        let mut i: usize = 0;
        while i < self.params.len()
            invariant
                i <= self.params.len(),
                params@ == self.params@.take(i as int),
            decreases self.params.len() - i,
        {
            params.push(self.params[i]);
            assert(params@ =~= self.params@.take(i + 1));
            i = i + 1;
        }
        assert(self.params@.take(self.params@.len() as int) =~= self.params@);
        ActivationRecord { tag: self.tag.clone(), params }
    }
}

impl View for ActivationRecord {
    type V = ActivationRecordView;

    open spec fn view(&self) -> ActivationRecordView {
        ActivationRecordView { tag: self.tag@, params: self.params@ }
    }
}

impl Activation {
    /// Whether the parameters obey the rules of their function. A function
    /// without parameters always does.
    pub open spec fn valid(self) -> bool {
        match self {
            Activation::Elu { alpha } => alpha.positive(),
            Activation::ReLU { threshold, alpha, max_value } => threshold.lt(max_value),
            Activation::SeLU { scale, alpha } => scale.finite() && alpha.finite(),
            _ => true,
        }
    }

    /// What is wrong with the parameters, in words, where they are not valid.
    pub open spec fn complaint(self) -> Seq<char> {
        match self {
            Activation::Elu { .. } => "alpha of elu must be greater than zero"@,
            Activation::ReLU { .. } => "threshold of relu must be less than max_value"@,
            Activation::SeLU { .. } => "scale and alpha of selu must be finite"@,
            _ => Seq::<char>::empty(),
        }
    }

    /// The tag of the function in a schema.
    pub open spec fn spec_tag(self) -> Seq<char> {
        match self {
            Activation::Linear => "linear"@,
            Activation::Exponential => "exponential"@,
            Activation::Sigmoid => "sigmoid"@,
            Activation::Softplus => "softplus"@,
            Activation::Tanh => "tanh"@,
            Activation::Mish => "mish"@,
            Activation::Swish => "swish"@,
            Activation::Softsign => "softsign"@,
            Activation::Elu { .. } => "elu"@,
            Activation::ReLU { .. } => "relu"@,
            Activation::SeLU { .. } => "selu"@,
        }
    }

    /// The bit patterns of the parameters, in the order of their declaration.
    pub open spec fn spec_params(self) -> Seq<u32> {
        match self {
            Activation::Elu { alpha } => seq![alpha.bits],
            Activation::ReLU { threshold, alpha, max_value } => seq![
                threshold.bits,
                alpha.bits,
                max_value.bits,
            ],
            Activation::SeLU { scale, alpha } => seq![scale.bits, alpha.bits],
            _ => Seq::<u32>::empty(),
        }
    }

    /// The record of the function in a schema.
    pub open spec fn encoding(self) -> ActivationRecordView {
        ActivationRecordView { tag: self.spec_tag(), params: self.spec_params() }
    }

    /// The function with the given tag and parameters, whether they are valid
    /// or not; `None` where no function has that tag with that many parameters.
    pub open spec fn parse(w: ActivationRecordView) -> Option<Activation> {
        let n = w.params.len();
        if w.tag == "linear"@ && n == 0 {
            Some(Activation::Linear)
        } else if w.tag == "exponential"@ && n == 0 {
            Some(Activation::Exponential)
        } else if w.tag == "sigmoid"@ && n == 0 {
            Some(Activation::Sigmoid)
        } else if w.tag == "softplus"@ && n == 0 {
            Some(Activation::Softplus)
        } else if w.tag == "tanh"@ && n == 0 {
            Some(Activation::Tanh)
        } else if w.tag == "mish"@ && n == 0 {
            Some(Activation::Mish)
        } else if w.tag == "swish"@ && n == 0 {
            Some(Activation::Swish)
        } else if w.tag == "softsign"@ && n == 0 {
            Some(Activation::Softsign)
        } else if w.tag == "elu"@ && n == 1 {
            Some(Activation::Elu { alpha: Scalar { bits: w.params[0] } })
        } else if w.tag == "relu"@ && n == 3 {
            Some(
                Activation::ReLU {
                    threshold: Scalar { bits: w.params[0] },
                    alpha: Scalar { bits: w.params[1] },
                    max_value: Scalar { bits: w.params[2] },
                },
            )
        } else if w.tag == "selu"@ && n == 2 {
            Some(
                Activation::SeLU {
                    scale: Scalar { bits: w.params[0] },
                    alpha: Scalar { bits: w.params[1] },
                },
            )
        } else {
            None
        }
    }

    /// The function that a record stands for: the one with its tag and
    /// parameters, where there is one and it is valid.
    pub open spec fn decoding(w: ActivationRecordView) -> Option<Activation> {
        match Activation::parse(w) {
            Some(a) => if a.valid() {
                Some(a)
            } else {
                None
            },
            None => None,
        }
    }

    /// Why a record stands for no function, in words.
    pub open spec fn decoding_complaint(w: ActivationRecordView) -> Seq<char> {
        match Activation::parse(w) {
            Some(a) => a.complaint(),
            None => "no activation function has this tag and number of parameters"@,
        }
    }

    /// `Elu` with its default, `alpha` = 1.
    pub fn elu() -> (a: Activation)
        ensures
            a == (Activation::Elu { alpha: Scalar { bits: ONE_BITS } }),
            a.valid(),
    {
        Activation::Elu { alpha: Scalar::one() }
    }

    /// `ReLU` with its defaults: `threshold` = 0, `alpha` = 0 and `max_value`
    /// = infinity.
    pub fn relu() -> (a: Activation)
        ensures
            a == (Activation::ReLU {
                threshold: Scalar { bits: ZERO_BITS },
                alpha: Scalar { bits: ZERO_BITS },
                max_value: Scalar { bits: INFINITY_BITS },
            }),
            a.valid(),
    {
        Activation::ReLU {
            threshold: Scalar::zero(),
            alpha: Scalar::zero(),
            max_value: Scalar::infinity(),
        }
    }

    /// `SeLU` with its defaults: `scale` = 1.0507009873554805 and `alpha` =
    /// 1.6732632423543772, each rounded to single precision.
    pub fn selu() -> (a: Activation)
        ensures
            a == (Activation::SeLU {
                scale: Scalar { bits: SELU_SCALE_BITS },
                alpha: Scalar { bits: SELU_ALPHA_BITS },
            }),
            a.valid(),
    {
        Activation::SeLU {
            scale: Scalar::from_bits(SELU_SCALE_BITS),
            alpha: Scalar::from_bits(SELU_ALPHA_BITS),
        }
    }

    /// Whether the parameters obey the rules of their function.
    pub fn is_valid(&self) -> (b: bool)
        ensures
            b == self.valid(),
    {
        match self {
            Activation::Elu { alpha } => alpha.is_positive(),
            Activation::ReLU { threshold, alpha, max_value } => threshold.less_than(max_value),
            Activation::SeLU { scale, alpha } => scale.is_finite() && alpha.is_finite(),
            _ => true,
        }
    }

    /// Checks the parameters against the rules of their function: `alpha` of
    /// `Elu` greater than zero, `threshold` of `ReLU` less than `max_value`,
    /// `scale` and `alpha` of `SeLU` finite. Fails with
    /// `InvalidActivationParameter` and the complaint otherwise.
    pub fn validate(&self) -> (r: Result<(), Error>)
        ensures
            r is Ok <==> self.valid(),
            r matches Err(e) ==> e matches Error::InvalidActivationParameter(m) && m@
                == self.complaint(),
    {
        if self.is_valid() {
            return Ok(());
        }
        Err(Error::InvalidActivationParameter(String::from_str(self.complaint_text())))
    }

    /// What is wrong with the parameters, in words, where they are not valid.
    pub fn complaint_text(&self) -> (t: &'static str)
        ensures
            t@ == self.complaint(),
    {
        match self {
            Activation::Elu { .. } => "alpha of elu must be greater than zero",
            Activation::ReLU { .. } => "threshold of relu must be less than max_value",
            Activation::SeLU { .. } => "scale and alpha of selu must be finite",
            _ => {
                proof {
                    reveal_strlit("");
                }
                assert(""@ =~= Seq::<char>::empty());
                ""
            },
        }
    }

    /// The tag of the function in a schema.
    pub fn tag(&self) -> (t: &'static str)
        ensures
            t@ == self.spec_tag(),
    {
        match self {
            Activation::Linear => "linear",
            Activation::Exponential => "exponential",
            Activation::Sigmoid => "sigmoid",
            Activation::Softplus => "softplus",
            Activation::Tanh => "tanh",
            Activation::Mish => "mish",
            Activation::Swish => "swish",
            Activation::Softsign => "softsign",
            Activation::Elu { .. } => "elu",
            Activation::ReLU { .. } => "relu",
            Activation::SeLU { .. } => "selu",
        }
    }

    /// The record of the function in a schema: its tag and the bit patterns of
    /// its parameters.
    pub fn to_schema_representation(&self) -> (w: ActivationRecord)
        ensures
            w@ == self.encoding(),
    {
        let mut params: Vec<u32> = Vec::new();
        match self {
            Activation::Elu { alpha } => {
                params.push(alpha.bits);
            },
            Activation::ReLU { threshold, alpha, max_value } => {
                params.push(threshold.bits);
                params.push(alpha.bits);
                params.push(max_value.bits);
            },
            Activation::SeLU { scale, alpha } => {
                params.push(scale.bits);
                params.push(alpha.bits);
            },
            _ => {},
        }
        assert(params@ =~= self.spec_params());
        ActivationRecord { tag: String::from_str(self.tag()), params }
    }

    /// The function with the given tag and parameters, valid or not.
    fn parse_record(w: &ActivationRecord) -> (r: Option<Activation>)
        ensures
            r == Activation::parse(w@),
    {
        let n: usize = w.params.len();
        let tag = w.tag.as_str();
        if n == 0 {
            if same_text(tag, "linear") {
                Some(Activation::Linear)
            } else if same_text(tag, "exponential") {
                Some(Activation::Exponential)
            } else if same_text(tag, "sigmoid") {
                Some(Activation::Sigmoid)
            } else if same_text(tag, "softplus") {
                Some(Activation::Softplus)
            } else if same_text(tag, "tanh") {
                Some(Activation::Tanh)
            } else if same_text(tag, "mish") {
                Some(Activation::Mish)
            } else if same_text(tag, "swish") {
                Some(Activation::Swish)
            } else if same_text(tag, "softsign") {
                Some(Activation::Softsign)
            } else {
                None
            }
        } else if n == 1 && same_text(tag, "elu") {
            Some(Activation::Elu { alpha: Scalar::from_bits(w.params[0]) })
        } else if n == 3 && same_text(tag, "relu") {
            Some(
                Activation::ReLU {
                    threshold: Scalar::from_bits(w.params[0]),
                    alpha: Scalar::from_bits(w.params[1]),
                    max_value: Scalar::from_bits(w.params[2]),
                },
            )
        } else if n == 2 && same_text(tag, "selu") {
            Some(
                Activation::SeLU {
                    scale: Scalar::from_bits(w.params[0]),
                    alpha: Scalar::from_bits(w.params[1]),
                },
            )
        } else {
            None
        }
    }

    /// Reads a record back: the function with the record's tag and
    /// parameters, where there is one and its parameters are valid. Fails
    /// with `InvalidActivationParameter` otherwise.
    pub fn from_schema_representation(w: &ActivationRecord) -> (r: Result<Activation, Error>)
        ensures
            match Activation::decoding(w@) {
                Some(a) => r == Ok::<Activation, Error>(a),
                None => r matches Err(e) && e matches Error::InvalidActivationParameter(m) && m@
                    == Activation::decoding_complaint(w@),
            },
    {
        match Activation::parse_record(w) {
            Some(a) => match a.validate() {
                Ok(()) => Ok(a),
                Err(e) => Err(e),
            },
            None => Err(
                Error::InvalidActivationParameter(
                    String::from_str(
                        "no activation function has this tag and number of parameters",
                    ),
                ),
            ),
        }
    }
}

/// What tells the tags apart: their lengths, and one character where two
/// have the same length.
proof fn lemma_tag_marks()
    ensures
        "linear"@.len() == 6,
        "exponential"@.len() == 11,
        "sigmoid"@.len() == 7,
        "softplus"@.len() == 8,
        "tanh"@.len() == 4,
        "mish"@.len() == 4,
        "swish"@.len() == 5,
        "softsign"@.len() == 8,
        "elu"@.len() == 3,
        "relu"@.len() == 4,
        "selu"@.len() == 4,
        "softplus"@[4] == 'p',
        "softsign"@[4] == 's',
        "tanh"@[0] == 't',
        "mish"@[0] == 'm',
        "relu"@[0] == 'r',
        "selu"@[0] == 's',
{
    reveal_strlit("linear");
    reveal_strlit("exponential");
    reveal_strlit("sigmoid");
    reveal_strlit("softplus");
    reveal_strlit("tanh");
    reveal_strlit("mish");
    reveal_strlit("swish");
    reveal_strlit("softsign");
    reveal_strlit("elu");
    reveal_strlit("relu");
    reveal_strlit("selu");
}

/// Reading back the record of a function gives the function, whatever its
/// parameters.
pub proof fn lemma_parse_encoding(a: Activation)
    ensures
        Activation::parse(a.encoding()) == Some(a),
{
    lemma_tag_marks();
}

/// Round trip: for every function whose parameters are valid, reading back
/// its record gives the function itself.
pub proof fn lemma_round_trip(a: Activation)
    requires
        a.valid(),
    ensures
        Activation::decoding(a.encoding()) == Some(a),
{
    lemma_parse_encoding(a);
}

/// `Elu` is valid exactly if its `alpha` is greater than zero: always where
/// it is, never where `alpha` is less than or equal to zero or is not a
/// number. Every number is one or the other.
pub proof fn lemma_elu_rule(alpha: Scalar)
    ensures
        alpha.positive() ==> (Activation::Elu { alpha }).valid(),
        alpha.le(Scalar { bits: ZERO_BITS }) ==> !(Activation::Elu { alpha }).valid(),
        alpha.nan() ==> !(Activation::Elu { alpha }).valid(),
        !alpha.nan() ==> (alpha.positive() <==> !alpha.le(Scalar { bits: ZERO_BITS })),
{
}

} // verus!
