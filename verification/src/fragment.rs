//! The generated fragment: an opaque, composable representation of one
//! guarded check or of a whole assembled validation procedure. Fragments
//! are pure data; they compose by structural nesting and concatenation
//! only, and carry everything the emitted code needs: the condition to
//! test, the error to construct, the diagnostic parameters to attach, and
//! the key under which the error is recorded.

use vstd::prelude::*;

verus! {

/// How the emitted code names the value under scrutiny.
#[derive(Debug, Clone, PartialEq, Eq)]
pub enum Expr {
    /// The bare unwrapped binding brought into scope by an enclosing
    /// optional-unwrap guard.
    Binding(String),
    /// The field's own storage, by value.
    SelfField(String),
    /// An explicit reference to the field's own storage.
    RefSelfField(String),
}

/// Spec-level form of [`Expr`].
pub enum ExprV {
    Binding(Seq<char>),
    SelfField(Seq<char>),
    RefSelfField(Seq<char>),
}

impl DeepView for Expr {
    type V = ExprV;

    open spec fn deep_view(&self) -> ExprV {
        match self {
            Expr::Binding(name) => ExprV::Binding(name@),
            Expr::SelfField(name) => ExprV::SelfField(name@),
            Expr::RefSelfField(name) => ExprV::RefSelfField(name@),
        }
    }
}

/// The binding pattern used inside an optional-unwrap guard.
#[derive(Debug, Clone, PartialEq, Eq)]
pub enum Pattern {
    /// Unwrap by value: `name`.
    ByValue(String),
    /// Unwrap by reference: `ref name`.
    ByRef(String),
}

/// Spec-level form of [`Pattern`].
pub enum PatternV {
    ByValue(Seq<char>),
    ByRef(Seq<char>),
}

impl DeepView for Pattern {
    type V = PatternV;

    open spec fn deep_view(&self) -> PatternV {
        match self {
            Pattern::ByValue(name) => PatternV::ByValue(name@),
            Pattern::ByRef(name) => PatternV::ByRef(name@),
        }
    }
}

/// The fixed keys under which diagnostic parameters are attached.
#[derive(Debug, Clone, Copy, PartialEq, Eq)]
pub enum ParamKey {
    Min,
    Max,
    Equal,
    Value,
    Other,
    Needle,
}

impl DeepView for ParamKey {
    type V = ParamKey;

    open spec fn deep_view(&self) -> ParamKey {
        *self
    }
}

/// The value of one diagnostic parameter as it stands in the fragment:
/// a literal carried over from the rule, or an expression evaluated at
/// runtime.
#[derive(Debug, Clone, PartialEq, Eq)]
pub enum ParamValue {
    UintLit(u64),
    IntLit(i64),
    StrLit(String),
    Value(Expr),
}

/// Spec-level form of [`ParamValue`].
pub enum ParamValueV {
    UintLit(u64),
    IntLit(i64),
    StrLit(Seq<char>),
    Value(ExprV),
}

impl DeepView for ParamValue {
    type V = ParamValueV;

    open spec fn deep_view(&self) -> ParamValueV {
        match self {
            ParamValue::UintLit(n) => ParamValueV::UintLit(*n),
            ParamValue::IntLit(n) => ParamValueV::IntLit(*n),
            ParamValue::StrLit(s) => ParamValueV::StrLit(s@),
            ParamValue::Value(e) => ParamValueV::Value(e.deep_view()),
        }
    }
}

/// One keyed diagnostic parameter.
#[derive(Debug, Clone, PartialEq, Eq)]
pub struct Param {
    pub key: ParamKey,
    pub value: ParamValue,
}

/// Spec-level form of [`Param`].
pub struct ParamV {
    pub key: ParamKey,
    pub value: ParamValueV,
}

impl DeepView for Param {
    type V = ParamV;

    open spec fn deep_view(&self) -> ParamV {
        ParamV { key: self.key, value: self.value.deep_view() }
    }
}

/// The error construction shared by every rule translator: a fresh error
/// tagged with the rule's code, and the rule's custom message if present.
#[derive(Debug, Clone, PartialEq, Eq)]
pub struct ErrorTemplate {
    pub code: String,
    pub message: Option<String>,
}

/// Spec-level form of [`ErrorTemplate`].
pub struct ErrorTemplateV {
    pub code: Seq<char>,
    pub message: Option<Seq<char>>,
}

impl DeepView for ErrorTemplate {
    type V = ErrorTemplateV;

    open spec fn deep_view(&self) -> ErrorTemplateV {
        ErrorTemplateV { code: self.code@, message: self.message.deep_view() }
    }
}

/// The boolean check of one rule, specialized to the rule's own data. Each
/// variant stands for the failure of the corresponding runtime predicate
/// on the accessed value.
#[derive(Debug, Clone, PartialEq, Eq)]
pub enum Cond {
    LengthFails { min: Option<u64>, max: Option<u64>, equal: Option<u64>, param: Expr },
    /// The accessed value is coerced to a 64-bit floating-point
    /// representation before the comparison in the emitted code.
    RangeFails { min: i64, max: i64, param: Expr },
    EmailFails { param: Expr },
    UrlFails { param: Expr },
    CreditCardFails { param: Expr },
    PhoneFails { param: Expr },
    ContainsFails { param: Expr, needle: String },
    RegexFails { pattern: String, param: Expr },
    MustMatchFails { left: Expr, right: Expr },
}

/// Spec-level form of [`Cond`].
pub enum CondV {
    LengthFails { min: Option<u64>, max: Option<u64>, equal: Option<u64>, param: ExprV },
    RangeFails { min: i64, max: i64, param: ExprV },
    EmailFails { param: ExprV },
    UrlFails { param: ExprV },
    CreditCardFails { param: ExprV },
    PhoneFails { param: ExprV },
    ContainsFails { param: ExprV, needle: Seq<char> },
    RegexFails { pattern: Seq<char>, param: ExprV },
    MustMatchFails { left: ExprV, right: ExprV },
}

impl DeepView for Cond {
    type V = CondV;

    open spec fn deep_view(&self) -> CondV {
        match self {
            Cond::LengthFails { min, max, equal, param } => CondV::LengthFails {
                min: *min,
                max: *max,
                equal: *equal,
                param: param.deep_view(),
            },
            Cond::RangeFails { min, max, param } => CondV::RangeFails {
                min: *min,
                max: *max,
                param: param.deep_view(),
            },
            Cond::EmailFails { param } => CondV::EmailFails { param: param.deep_view() },
            Cond::UrlFails { param } => CondV::UrlFails { param: param.deep_view() },
            Cond::CreditCardFails { param } => CondV::CreditCardFails { param: param.deep_view() },
            Cond::PhoneFails { param } => CondV::PhoneFails { param: param.deep_view() },
            Cond::ContainsFails { param, needle } => CondV::ContainsFails {
                param: param.deep_view(),
                needle: needle@,
            },
            Cond::RegexFails { pattern, param } => CondV::RegexFails {
                pattern: pattern@,
                param: param.deep_view(),
            },
            Cond::MustMatchFails { left, right } => CondV::MustMatchFails {
                left: left.deep_view(),
                right: right.deep_view(),
            },
        }
    }
}

/// One composable unit of generated code.
#[derive(Debug, PartialEq, Eq)]
pub enum Fragment {
    /// No code at all.
    Empty,
    /// A guarded check: if the condition holds (the predicate fails),
    /// construct the error from the template, attach the diagnostic
    /// parameters in order, and record the error under the field's name.
    Check { cond: Cond, error: ErrorTemplate, params: Vec<Param>, field: String },
    /// A call of a user-named checking function on the accessed value; on
    /// failure the declared message, if any, replaces the returned error's
    /// message, the accessed value is attached under the value key, and
    /// the error is recorded under the field's name.
    CustomCheck { function: String, param: Expr, message: Option<String>, field: String },
    /// A call of the whole-structure validating function on the record
    /// itself; on failure the declared message, if any, replaces the
    /// returned error's message, and the error is recorded under the
    /// reserved whole-structure key.
    SchemaCheck { function: String, message: Option<String> },
    /// Run the inner fragment only when the field's single optional layer
    /// is present, with the pattern bound to the unwrapped value.
    IfLetSome { field: String, pattern: Pattern, inner: Box<Fragment> },
    /// Run the inner fragment only when both optional layers are present,
    /// with the pattern bound to the doubly unwrapped value.
    IfLetSomeSome { field: String, pattern: Pattern, inner: Box<Fragment> },
    /// Run the inner fragment only while the error collection is still
    /// empty.
    IfNoErrors { inner: Box<Fragment> },
}

/// Spec-level form of [`Fragment`].
pub enum FragmentV {
    Empty,
    Check { cond: CondV, error: ErrorTemplateV, params: Seq<ParamV>, field: Seq<char> },
    CustomCheck { function: Seq<char>, param: ExprV, message: Option<Seq<char>>, field: Seq<char> },
    SchemaCheck { function: Seq<char>, message: Option<Seq<char>> },
    IfLetSome { field: Seq<char>, pattern: PatternV, inner: Box<FragmentV> },
    IfLetSomeSome { field: Seq<char>, pattern: PatternV, inner: Box<FragmentV> },
    IfNoErrors { inner: Box<FragmentV> },
}

/// The recursive translation of a fragment to its spec-level form.
pub open spec fn fragment_view(f: Fragment) -> FragmentV
    decreases f,
{
    match f {
        Fragment::Empty => FragmentV::Empty,
        Fragment::Check { cond, error, params, field } => FragmentV::Check {
            cond: cond.deep_view(),
            error: error.deep_view(),
            params: params.deep_view(),
            field: field@,
        },
        Fragment::CustomCheck { function, param, message, field } => FragmentV::CustomCheck {
            function: function@,
            param: param.deep_view(),
            message: message.deep_view(),
            field: field@,
        },
        Fragment::SchemaCheck { function, message } => FragmentV::SchemaCheck {
            function: function@,
            message: message.deep_view(),
        },
        Fragment::IfLetSome { field, pattern, inner } => FragmentV::IfLetSome {
            field: field@,
            pattern: pattern.deep_view(),
            inner: Box::new(fragment_view(*inner)),
        },
        Fragment::IfLetSomeSome { field, pattern, inner } => FragmentV::IfLetSomeSome {
            field: field@,
            pattern: pattern.deep_view(),
            inner: Box::new(fragment_view(*inner)),
        },
        Fragment::IfNoErrors { inner } => FragmentV::IfNoErrors {
            inner: Box::new(fragment_view(*inner)),
        },
    }
}

impl DeepView for Fragment {
    type V = FragmentV;

    open spec fn deep_view(&self) -> FragmentV {
        fragment_view(*self)
    }
}

/// The assembled validation procedure: every per-field fragment in
/// declaration order, then the whole-structure fragment last.
#[derive(Debug, PartialEq, Eq)]
pub struct ValidationBody {
    pub parts: Vec<Fragment>,
}

impl DeepView for ValidationBody {
    type V = Seq<FragmentV>;

    open spec fn deep_view(&self) -> Seq<FragmentV> {
        self.parts.deep_view()
    }
}

} // verus!
