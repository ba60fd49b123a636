//! The translation layer itself.
//!
//! One direction turns an evaluation context into the engine's user
//! (subject) record, or rejects it; the other turns the engine's evaluation
//! outcome into the generic provider's result or error shape. Each
//! executable function is specified against a spec-level translation over
//! the model views.

use vstd::prelude::*;

use crate::json::json_of;
use crate::json::parse_value_text;
use crate::json::FlagValue;
use crate::json::ParseOutcome;
use crate::json::StructValue;
use crate::model::ClientError;
use crate::model::ClientErrorView;
use crate::model::Context;
use crate::model::ContextView;
use crate::model::ErrorKind;
use crate::model::EvalDetails;
use crate::model::EvaluationError;
use crate::model::EvaluationErrorCode;
use crate::model::EvaluationErrorCodeView;
use crate::model::EvaluationErrorView;
use crate::model::EvaluationReason;
use crate::model::FieldValue;
use crate::model::FieldValueView;
use crate::model::ResolutionDetails;
use crate::model::User;
use crate::model::UserValue;
use crate::model::UserValueView;
use crate::model::UserView;

verus! {

// ============================================================
//  Spec-level context translation
// ============================================================

/// The text a boolean attribute value is rendered as.
pub open spec fn spec_bool_text(b: bool) -> Seq<char> {
    if b {
        "true"@
    } else {
        "false"@
    }
}

/// How one context field value is rendered in the engine's attribute-value
/// vocabulary: booleans become strings, timestamps become integer seconds,
/// and nested structures are unsupported.
pub open spec fn spec_user_value(v: FieldValueView) -> Option<UserValueView> {
    match v {
        FieldValueView::Bool(b) => Some(UserValueView::Str(spec_bool_text(b))),
        FieldValueView::Int(i) => Some(UserValueView::Int(i)),
        FieldValueView::Float(bits) => Some(UserValueView::Float(bits)),
        FieldValueView::Str(s) => Some(UserValueView::Str(s)),
        FieldValueView::DateTime(secs) => Some(UserValueView::Int(secs)),
        FieldValueView::Struct => None,
    }
}

/// The subject record a translation starts from: an identifier and nothing
/// else.
pub open spec fn spec_empty_user(identifier: Seq<char>) -> UserView {
    UserView { identifier, email: None, country: None, custom: Seq::empty() }
}

/// How one named context field lands on a subject record, or fails.
///
/// The reserved names route a string value to the dedicated field and
/// silently drop any other value; every other name takes any supported
/// scalar as a custom attribute, and an unsupported value fails the
/// translation with the offending field's name.
pub open spec fn spec_apply_field(u: UserView, key: Seq<char>, v: FieldValueView) -> Result<
    UserView,
    Seq<char>,
> {
    if key == "Email"@ {
        match v {
            FieldValueView::Str(s) => Ok(UserView { email: Some(s), ..u }),
            _ => Ok(u),
        }
    } else if key == "Country"@ {
        match v {
            FieldValueView::Str(s) => Ok(UserView { country: Some(s), ..u }),
            _ => Ok(u),
        }
    } else {
        match spec_user_value(v) {
            Some(uv) => Ok(UserView { custom: u.custom.push((key, uv)), ..u }),
            None => Err(key),
        }
    }
}

/// How a whole field sequence lands on a subject record, first field first;
/// the first unsupported field aborts the translation.
pub open spec fn spec_apply_fields(
    u: UserView,
    fields: Seq<(Seq<char>, FieldValueView)>,
) -> Result<UserView, Seq<char>>
    decreases fields.len(),
{
    if fields.len() == 0 {
        Ok(u)
    } else {
        match spec_apply_field(u, fields[0].0, fields[0].1) {
            Ok(u2) => spec_apply_fields(u2, fields.drop_first()),
            Err(k) => Err(k),
        }
    }
}

/// The whole context translation: an empty context yields no subject at
/// all; otherwise the targeting key (or the empty string) identifies the
/// subject and the fields land on it one by one.
pub open spec fn spec_to_user(c: ContextView) -> Result<Option<UserView>, Seq<char>> {
    if c.targeting_key is None && c.custom_fields.len() == 0 {
        Ok(None)
    } else {
        let identifier = match c.targeting_key {
            Some(k) => k,
            None => ""@,
        };
        match spec_apply_fields(spec_empty_user(identifier), c.custom_fields) {
            Ok(u) => Ok(Some(u)),
            Err(k) => Err(k),
        }
    }
}

/// The message of the invalid-context error raised for the named attribute.
pub open spec fn spec_invalid_context_message(key: Seq<char>) -> Seq<char> {
    key + " context attribute is not supported by the ConfigCat Provider."@
}

// ============================================================
//  Spec-level result translation
// ============================================================

/// The reason reported for a successful evaluation: a targeting match
/// exactly when the engine indicates that a targeting rule or a percentage
/// option matched, and the flag's default path otherwise.
pub open spec fn spec_reason(
    matched_targeting_rule: bool,
    matched_percentage_option: bool,
) -> EvaluationReason {
    if matched_targeting_rule || matched_percentage_option {
        EvaluationReason::TargetingMatch
    } else {
        EvaluationReason::Default
    }
}

/// The fixed table from engine error kinds to provider error codes.
pub open spec fn spec_error_code(kind: ErrorKind) -> EvaluationErrorCodeView {
    match kind {
        ErrorKind::ConfigJsonNotAvailable => EvaluationErrorCodeView::ParseError,
        ErrorKind::SettingKeyMissing => EvaluationErrorCodeView::FlagNotFound,
        ErrorKind::SettingValueTypeMismatch => EvaluationErrorCodeView::TypeMismatch,
        ErrorKind::Other => EvaluationErrorCodeView::General("Provider error"@),
    }
}

/// How an engine failure is translated: the code per the fixed table, the
/// message preserved verbatim.
pub open spec fn spec_to_res_error(e: ClientErrorView) -> EvaluationErrorView {
    EvaluationErrorView { code: spec_error_code(e.kind), message: Some(e.message) }
}

// ============================================================
//  Executable translation: context to user
// ============================================================

/// Convert one context field value into the engine's attribute-value
/// representation, if the engine's user model supports it.
pub fn to_user_value(val: &FieldValue) -> (r: Option<UserValue>)
    ensures
        match spec_user_value(val@) {
            Some(uv) => r matches Some(e) && e@ == uv,
            None => r is None,
        },
{
    match val {
        FieldValue::Bool(b) => Some(
            UserValue::Str(String::from_str(if *b { "true" } else { "false" })),
        ),
        FieldValue::Int(i) => Some(UserValue::Int(*i)),
        FieldValue::Float(bits) => Some(UserValue::Float(*bits)),
        FieldValue::Str(s) => Some(UserValue::Str(s.clone())),
        FieldValue::DateTime(secs) => Some(UserValue::Int(*secs)),
        FieldValue::Struct => None,
    }
}

/// The identifier the subject record is keyed by: the context's targeting
/// key, or the empty string where the context has none.
pub open spec fn spec_identifier(c: ContextView) -> Seq<char> {
    match c.targeting_key {
        Some(k) => k,
        None => ""@,
    }
}

/// Translate an evaluation context into the engine's subject record, or
/// reject it.
///
/// An empty context (no targeting key, no custom fields) yields no subject;
/// any other context yields the subject that its fields build up, unless a
/// field's value has no place in the engine's user model, in which case the
/// whole translation fails with an invalid-context error naming that field.
pub fn to_user(ctx: &Context) -> (r: Result<Option<User>, EvaluationError>)
    ensures
        match spec_to_user(ctx@) {
            Ok(ou) => match ou {
                None => r matches Ok(ro) && ro is None,
                Some(uv) => r matches Ok(ro) && ro matches Some(u) && u@ == uv,
            },
            Err(k) => r matches Err(e) && e@.code is InvalidContext && e@.message == Some(
                spec_invalid_context_message(k),
            ),
        },
{
    proof {
        reveal_strlit("");
    }
    if ctx.targeting_key.is_none() && ctx.custom_fields.len() == 0 {
        return Ok(None);
    }
    let identifier: String = match &ctx.targeting_key {
        Some(id) => id.clone(),
        None => String::new(),
    };
    assert(identifier@ == spec_identifier(ctx@));
    let email_name = String::from_str("Email");
    let country_name = String::from_str("Country");
    let mut user = User { identifier, email: None, country: None, custom: Vec::new() };
    let ghost all_fields = ctx@.custom_fields;
    let ghost init_user = user@;
    assert(init_user.custom =~= spec_empty_user(spec_identifier(ctx@)).custom);
    assert(init_user == spec_empty_user(spec_identifier(ctx@)));
    let mut i: usize = 0;
    assert(all_fields.skip(0) =~= all_fields);
    while i < ctx.custom_fields.len()
        invariant
            i <= ctx.custom_fields.len(),
            all_fields == ctx@.custom_fields,
            all_fields.len() == ctx.custom_fields.len(),
            email_name@ == "Email"@,
            country_name@ == "Country"@,
            init_user == spec_empty_user(spec_identifier(ctx@)),
            spec_apply_fields(user@, all_fields.skip(i as int)) == spec_apply_fields(
                init_user,
                all_fields,
            ),
        decreases ctx.custom_fields.len() - i,
    {
        let pair = &ctx.custom_fields[i];
        let key = &pair.0;
        let attr = &pair.1;
        assert(all_fields[i as int] == (key@, attr@));
        let ghost user_before = user@;
        if *key == email_name {
            if let FieldValue::Str(s) = attr {
                user.email = Some(s.clone());
            }
        } else if *key == country_name {
            if let FieldValue::Str(s) = attr {
                user.country = Some(s.clone());
            }
        } else {
            match to_user_value(attr) {
                Some(attr_val) => {
                    let ghost custom_before = user@.custom;
                    user.custom.push((key.clone(), attr_val));
                    assert(user@.custom =~= custom_before.push(
                        (key@, spec_user_value(attr@)->Some_0),
                    ));
                },
                None => {
                    assert(spec_apply_field(user_before, key@, attr@) == Err::<
                        UserView,
                        Seq<char>,
                    >(key@));
                    assert(all_fields.skip(i as int)[0] == all_fields[i as int]);
                    assert(spec_apply_fields(user_before, all_fields.skip(i as int)) == Err::<
                        UserView,
                        Seq<char>,
                    >(key@));
                    let message = key.clone().concat(
                        " context attribute is not supported by the ConfigCat Provider.",
                    );
                    return Err(
                        EvaluationError {
                            code: EvaluationErrorCode::InvalidContext,
                            message: Some(message),
                        },
                    );
                },
            }
        }
        assert(spec_apply_field(user_before, key@, attr@) == Ok::<UserView, Seq<char>>(user@));
        assert(all_fields.skip(i as int).drop_first() =~= all_fields.skip(i as int + 1));
        i = i + 1;
    }
    assert(all_fields.skip(i as int) =~= Seq::<(Seq<char>, FieldValueView)>::empty());
    Ok(Some(user))
}

// ============================================================
//  Executable translation: engine outcome to resolution
// ============================================================

/// Translate an engine failure into the provider's error vocabulary,
/// keeping the diagnostic text verbatim.
pub fn to_res_error(err: &ClientError) -> (r: EvaluationError)
    ensures
        r@ == spec_to_res_error(err@),
{
    let code = match err.kind {
        ErrorKind::ConfigJsonNotAvailable => EvaluationErrorCode::ParseError,
        ErrorKind::SettingKeyMissing => EvaluationErrorCode::FlagNotFound,
        ErrorKind::SettingValueTypeMismatch => EvaluationErrorCode::TypeMismatch,
        ErrorKind::Other => EvaluationErrorCode::General(String::from_str("Provider error")),
    };
    EvaluationError { code, message: Some(err.message.clone()) }
}

/// The reason for a successful evaluation, per the engine's match
/// indications.
pub fn construct_reason<T>(details: &EvalDetails<T>) -> (r: EvaluationReason)
    ensures
        r == spec_reason(details.matched_targeting_rule, details.matched_percentage_option),
{
    if details.matched_percentage_option || details.matched_targeting_rule {
        return EvaluationReason::TargetingMatch;
    }
    EvaluationReason::Default
}

/// Translate the engine's outcome for a scalar-typed flag: an engine
/// failure becomes the corresponding provider error; otherwise the value,
/// the variant and the computed reason are wrapped unchanged.
pub fn to_res_details<T>(details: EvalDetails<T>) -> (r: Result<
    ResolutionDetails<T>,
    EvaluationError,
>)
    ensures
        match details.error {
            Some(e) => r matches Err(re) && re@ == spec_to_res_error(e@),
            None => r matches Ok(d) && d.value == details.value && d.variant
                == details.variation_id && d.reason == Some(
                spec_reason(details.matched_targeting_rule, details.matched_percentage_option),
            ),
        },
{
    if let Some(err) = &details.error {
        return Err(to_res_error(err));
    }
    let reason = construct_reason(&details);
    Ok(
        ResolutionDetails {
            value: details.value,
            reason: Some(reason),
            variant: details.variation_id,
        },
    )
}

/// Translate the engine's outcome for a structured flag, whose value comes
/// back pre-serialized as JSON text: an engine failure becomes the
/// corresponding provider error; text that does not parse yields a
/// parse error carrying the parser's diagnostic; a parsed value that is not
/// a keyed mapping yields a type-mismatch error; and a keyed mapping is
/// wrapped with the variant and the computed reason, like any scalar.
pub fn to_struct_details(details: EvalDetails<String>) -> (r: Result<
    ResolutionDetails<StructValue>,
    EvaluationError,
>)
    ensures
        match details.error {
            Some(e) => r matches Err(re) && re@ == spec_to_res_error(e@),
            None => match json_of(details.value@) {
                ParseOutcome::Syntax(m) => r matches Err(re) && re@.code is ParseError && re@.message
                    == Some("Failed to parse JSON from evaluated string: "@ + m@),
                ParseOutcome::Unconvertible => r matches Err(re) && re@.code is TypeMismatch
                    && re@.message == Some("Failed to convert from JSON"@),
                ParseOutcome::Val(v) => match v {
                    FlagValue::Struct(sv) => r matches Ok(d) && d.value == sv && d.variant
                        == details.variation_id && d.reason == Some(
                        spec_reason(
                            details.matched_targeting_rule,
                            details.matched_percentage_option,
                        ),
                    ),
                    _ => r matches Err(re) && re@.code is TypeMismatch && re@.message == Some(
                        "Parsed value is not a StructValue"@,
                    ),
                },
            },
        },
{
    if let Some(err) = &details.error {
        return Err(to_res_error(err));
    }
    match parse_value_text(details.value.as_str()) {
        ParseOutcome::Syntax(m) => {
            let message = String::from_str("Failed to parse JSON from evaluated string: ").concat(
                m.as_str(),
            );
            Err(EvaluationError { code: EvaluationErrorCode::ParseError, message: Some(message) })
        },
        ParseOutcome::Unconvertible => Err(
            EvaluationError {
                code: EvaluationErrorCode::TypeMismatch,
                message: Some(String::from_str("Failed to convert from JSON")),
            },
        ),
        ParseOutcome::Val(FlagValue::Struct(sv)) => {
            let reason = construct_reason(&details);
            Ok(
                ResolutionDetails {
                    value: sv,
                    reason: Some(reason),
                    variant: details.variation_id,
                },
            )
        },
        ParseOutcome::Val(_) => Err(
            EvaluationError {
                code: EvaluationErrorCode::TypeMismatch,
                message: Some(String::from_str("Parsed value is not a StructValue")),
            },
        ),
    }
}

} // verus!
