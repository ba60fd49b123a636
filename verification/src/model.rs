//! The adapter's data model.
//!
//! Both collaborating libraries keep their own vocabulary; the types here
//! hold, as plain values, exactly what the translation logic reads and
//! produces on either side. Each type carries a mathematical view over
//! which the translation contracts are stated.

use vstd::prelude::*;

verus! {

// ============================================================
//  The OpenFeature side: evaluation context
// ============================================================

/// Value of one custom field of an evaluation context.
///
/// A float value is carried as its raw bit pattern; the adapter never
/// inspects it, it only routes it through to the evaluation engine.
/// A timestamp is carried as integer seconds since the Unix epoch.
/// A nested structure is never routed through, so only its tag is kept.
#[derive(Debug, PartialEq)]
pub enum FieldValue {
    /// Boolean field value.
    Bool(bool),
    /// Signed integer field value.
    Int(i64),
    /// Float field value, as its raw bits.
    Float(u64),
    /// String field value.
    Str(String),
    /// Timestamp field value, as Unix seconds.
    DateTime(i64),
    /// Nested structure field value (unsupported by the engine's user model).
    Struct,
}

/// Mathematical view of a [`FieldValue`].
pub ghost enum FieldValueView {
    /// Boolean field value.
    Bool(bool),
    /// Signed integer field value.
    Int(int),
    /// Float field value, as its raw bits.
    Float(u64),
    /// String field value.
    Str(Seq<char>),
    /// Timestamp field value, as Unix seconds.
    DateTime(int),
    /// Nested structure field value.
    Struct,
}

impl View for FieldValue {
    type V = FieldValueView;

    open spec fn view(&self) -> FieldValueView {
        match *self {
            FieldValue::Bool(b) => FieldValueView::Bool(b),
            FieldValue::Int(i) => FieldValueView::Int(i as int),
            FieldValue::Float(bits) => FieldValueView::Float(bits),
            FieldValue::Str(ref s) => FieldValueView::Str(s@),
            FieldValue::DateTime(secs) => FieldValueView::DateTime(secs as int),
            FieldValue::Struct => FieldValueView::Struct,
        }
    }
}

/// An evaluation context in the generic provider's vocabulary: an optional
/// targeting identifier plus named custom fields.
pub struct Context {
    /// The key that identifies the subject of the evaluation, if any.
    pub targeting_key: Option<String>,
    /// The named custom fields of the context.
    pub custom_fields: Vec<(String, FieldValue)>,
}

/// Mathematical view of a [`Context`].
pub ghost struct ContextView {
    /// The key that identifies the subject of the evaluation, if any.
    pub targeting_key: Option<Seq<char>>,
    /// The named custom fields of the context.
    pub custom_fields: Seq<(Seq<char>, FieldValueView)>,
}

impl View for Context {
    type V = ContextView;

    open spec fn view(&self) -> ContextView {
        ContextView {
            targeting_key: match self.targeting_key {
                Some(ref k) => Some(k@),
                None => None,
            },
            custom_fields: self.custom_fields@.map_values(
                |p: (String, FieldValue)| (p.0@, p.1@),
            ),
        }
    }
}

// ============================================================
//  The ConfigCat side: user (subject) record
// ============================================================

/// Value of one user attribute in the evaluation engine's vocabulary.
///
/// The engine accepts strings, integers and floats; the adapter renders
/// booleans as strings and timestamps as integer seconds before handing
/// them over.
#[derive(Debug, PartialEq)]
pub enum UserValue {
    /// String attribute value.
    Str(String),
    /// Signed integer attribute value.
    Int(i64),
    /// Float attribute value, as its raw bits.
    Float(u64),
}

/// Mathematical view of a [`UserValue`].
pub ghost enum UserValueView {
    /// String attribute value.
    Str(Seq<char>),
    /// Signed integer attribute value.
    Int(int),
    /// Float attribute value, as its raw bits.
    Float(u64),
}

impl View for UserValue {
    type V = UserValueView;

    open spec fn view(&self) -> UserValueView {
        match *self {
            UserValue::Str(ref s) => UserValueView::Str(s@),
            UserValue::Int(i) => UserValueView::Int(i as int),
            UserValue::Float(bits) => UserValueView::Float(bits),
        }
    }
}

/// The evaluation engine's subject record: who is being evaluated.
///
/// The engine treats the email and country attributes specially, so they
/// live in dedicated fields; every other attribute is a custom one.
pub struct User {
    /// The subject's primary identifier.
    pub identifier: String,
    /// The subject's email address, if one was routed to it.
    pub email: Option<String>,
    /// The subject's country, if one was routed to it.
    pub country: Option<String>,
    /// The subject's custom attributes, in context order.
    pub custom: Vec<(String, UserValue)>,
}

/// Mathematical view of a [`User`].
pub ghost struct UserView {
    /// The subject's primary identifier.
    pub identifier: Seq<char>,
    /// The subject's email address, if one was routed to it.
    pub email: Option<Seq<char>>,
    /// The subject's country, if one was routed to it.
    pub country: Option<Seq<char>>,
    /// The subject's custom attributes, in context order.
    pub custom: Seq<(Seq<char>, UserValueView)>,
}

impl View for User {
    type V = UserView;

    open spec fn view(&self) -> UserView {
        UserView {
            identifier: self.identifier@,
            email: match self.email {
                Some(ref e) => Some(e@),
                None => None,
            },
            country: match self.country {
                Some(ref c) => Some(c@),
                None => None,
            },
            custom: self.custom@.map_values(|p: (String, UserValue)| (p.0@, p.1@)),
        }
    }
}

// ============================================================
//  The ConfigCat side: evaluation outcome
// ============================================================

/// The kind of a failure reported by the evaluation engine.
///
/// The adapter's error table distinguishes three kinds; every other engine
/// failure is carried as [`ErrorKind::Other`].
#[derive(Clone, Copy, PartialEq, Eq, Structural, Debug)]
pub enum ErrorKind {
    /// The config JSON was not available to the engine.
    ConfigJsonNotAvailable,
    /// The evaluated setting key was not found in the config JSON.
    SettingKeyMissing,
    /// The setting's type did not match the requested default value's type.
    SettingValueTypeMismatch,
    /// Any other engine failure.
    Other,
}

/// A failure reported by the evaluation engine: a kind plus a
/// human-readable message.
pub struct ClientError {
    /// The kind of the failure.
    pub kind: ErrorKind,
    /// The text representation of the failure.
    pub message: String,
}

/// Mathematical view of a [`ClientError`].
pub ghost struct ClientErrorView {
    /// The kind of the failure.
    pub kind: ErrorKind,
    /// The text representation of the failure.
    pub message: Seq<char>,
}

impl View for ClientError {
    type V = ClientErrorView;

    open spec fn view(&self) -> ClientErrorView {
        ClientErrorView { kind: self.kind, message: self.message@ }
    }
}

/// The evaluation engine's result for one flag evaluation, as far as the
/// adapter reads it: the value, the variant identifier, whether a targeting
/// rule or a percentage option matched, and the error if the evaluation
/// failed.
pub struct EvalDetails<T> {
    /// Value of the feature flag or setting.
    pub value: T,
    /// Variant identifier of the returned value, if available.
    pub variation_id: Option<String>,
    /// Whether a targeting rule matched during the evaluation.
    pub matched_targeting_rule: bool,
    /// Whether a percentage option was used to select the value.
    pub matched_percentage_option: bool,
    /// Error, in case the evaluation failed.
    pub error: Option<ClientError>,
}

// ============================================================
//  The OpenFeature side: resolution result
// ============================================================

/// The semantic reason for a resolved flag value.
#[derive(Clone, Copy, PartialEq, Eq, Structural, Debug)]
pub enum EvaluationReason {
    /// The resolved value fell back to the flag's configured value; no
    /// targeting rule or percentage option matched.
    Default,
    /// The resolved value was selected by a targeting rule or a percentage
    /// option.
    TargetingMatch,
}

/// The generic provider's error-code vocabulary, as far as the adapter
/// produces it.
#[derive(Debug, PartialEq)]
pub enum EvaluationErrorCode {
    /// An error was encountered parsing data.
    ParseError,
    /// The flag could not be found.
    FlagNotFound,
    /// The type of the flag value does not match the expected type.
    TypeMismatch,
    /// The evaluation context does not meet provider requirements.
    InvalidContext,
    /// An error for a reason not enumerated above.
    General(String),
}

/// Mathematical view of an [`EvaluationErrorCode`].
pub ghost enum EvaluationErrorCodeView {
    /// An error was encountered parsing data.
    ParseError,
    /// The flag could not be found.
    FlagNotFound,
    /// The type of the flag value does not match the expected type.
    TypeMismatch,
    /// The evaluation context does not meet provider requirements.
    InvalidContext,
    /// An error for a reason not enumerated above.
    General(Seq<char>),
}

impl View for EvaluationErrorCode {
    type V = EvaluationErrorCodeView;

    open spec fn view(&self) -> EvaluationErrorCodeView {
        match *self {
            EvaluationErrorCode::ParseError => EvaluationErrorCodeView::ParseError,
            EvaluationErrorCode::FlagNotFound => EvaluationErrorCodeView::FlagNotFound,
            EvaluationErrorCode::TypeMismatch => EvaluationErrorCodeView::TypeMismatch,
            EvaluationErrorCode::InvalidContext => EvaluationErrorCodeView::InvalidContext,
            EvaluationErrorCode::General(ref s) => EvaluationErrorCodeView::General(s@),
        }
    }
}

/// An error in the generic provider's vocabulary: a code plus an optional
/// message.
#[derive(Debug, PartialEq)]
pub struct EvaluationError {
    /// The error code of the abnormal evaluation.
    pub code: EvaluationErrorCode,
    /// The descriptive message, preserved verbatim from its source.
    pub message: Option<String>,
}

/// Mathematical view of an [`EvaluationError`].
pub ghost struct EvaluationErrorView {
    /// The error code of the abnormal evaluation.
    pub code: EvaluationErrorCodeView,
    /// The descriptive message, preserved verbatim from its source.
    pub message: Option<Seq<char>>,
}

impl View for EvaluationError {
    type V = EvaluationErrorView;

    open spec fn view(&self) -> EvaluationErrorView {
        EvaluationErrorView {
            code: self.code@,
            message: match self.message {
                Some(ref m) => Some(m@),
                None => None,
            },
        }
    }
}

/// The generic provider's result shape for one successful resolution.
pub struct ResolutionDetails<T> {
    /// The resolved flag value.
    pub value: T,
    /// The reason for the resolved value.
    pub reason: Option<EvaluationReason>,
    /// The variant identifier of the resolved value, if available.
    pub variant: Option<String>,
}

/// The metadata of a feature provider: its identity label.
pub struct ProviderMetadata {
    /// The name of the provider.
    pub name: String,
}

} // verus!
