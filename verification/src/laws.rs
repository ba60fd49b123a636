//! Properties of the context translation, proved once and for all inputs.
//!
//! Each proof function here states a law over the spec-level translation
//! that the executable functions are specified against; together with
//! those functions' own contracts the laws carry over to every call.

use vstd::prelude::*;

use crate::model::ContextView;
use crate::model::FieldValueView;
use crate::model::UserView;
use crate::translate::spec_apply_field;
use crate::translate::spec_apply_fields;
use crate::translate::spec_empty_user;
use crate::translate::spec_identifier;
use crate::translate::spec_to_user;

verus! {

/// Whether the named field can never land on the engine's subject record:
/// under a reserved name every value lands or is dropped, but under any
/// other name a nested structure has no rendering at all.
pub open spec fn spec_field_unsupported(key: Seq<char>, v: FieldValueView) -> bool {
    key != "Email"@ && key != "Country"@ && v is Struct
}

/// The name of the first field that fails the translation, if any field
/// does.
pub open spec fn spec_first_unsupported(fields: Seq<(Seq<char>, FieldValueView)>) -> Option<
    Seq<char>,
>
    decreases fields.len(),
{
    if fields.len() == 0 {
        None
    } else if spec_field_unsupported(fields[0].0, fields[0].1) {
        Some(fields[0].0)
    } else {
        spec_first_unsupported(fields.drop_first())
    }
}

/// For any context with no targeting identifier and no custom fields, the
/// translation yields no subject at all; the context translation is shared
/// by every flag kind, so this holds whatever kind is being resolved.
pub proof fn lemma_empty_context_yields_no_subject(c: ContextView)
    requires
        c.targeting_key is None,
        c.custom_fields.len() == 0,
    ensures
        spec_to_user(c) == Ok::<Option<UserView>, Seq<char>>(None),
{
}

/// For any context holding only a targeting identifier, the translation
/// yields a subject whose identifier equals that key and which carries no
/// other attribute.
pub proof fn lemma_targeting_key_only(c: ContextView)
    requires
        c.targeting_key is Some,
        c.custom_fields.len() == 0,
    ensures
        spec_to_user(c) matches Ok(ou) && ou matches Some(u) && u == spec_empty_user(
            c.targeting_key->0,
        ),
{
}

/// A string value under the reserved email name populates the subject's
/// dedicated email field, for any targeting key and any string.
pub proof fn lemma_email_string_routed(c: ContextView, s: Seq<char>)
    requires
        c.custom_fields =~= seq![("Email"@, FieldValueView::Str(s))],
    ensures
        spec_to_user(c) matches Ok(ou) && ou matches Some(u) && u.email == Some(s)
            && u.country is None && u.custom.len() == 0,
{
    let u0 = spec_empty_user(spec_identifier(c));
    let fields = c.custom_fields;
    assert(fields[0] == ("Email"@, FieldValueView::Str(s)));
    assert(fields.drop_first() =~= Seq::<(Seq<char>, FieldValueView)>::empty());
    let u1 = spec_apply_field(u0, "Email"@, FieldValueView::Str(s))->Ok_0;
    assert(u1.email == Some(s) && u1.country is None && u1.custom.len() == 0);
    assert(spec_apply_fields(u1, fields.drop_first()) == Ok::<UserView, Seq<char>>(u1));
    assert(spec_apply_fields(u0, fields) == Ok::<UserView, Seq<char>>(u1));
}

/// A non-string value under the reserved email name is dropped without an
/// error: the translation still succeeds and the subject carries neither an
/// email nor any custom attribute.
pub proof fn lemma_email_non_string_dropped(c: ContextView, v: FieldValueView)
    requires
        c.custom_fields =~= seq![("Email"@, v)],
        !(v is Str),
    ensures
        spec_to_user(c) matches Ok(ou) && ou matches Some(u) && u.email is None
            && u.custom.len() == 0,
{
    let u0 = spec_empty_user(spec_identifier(c));
    let fields = c.custom_fields;
    assert(fields[0] == ("Email"@, v));
    assert(fields.drop_first() =~= Seq::<(Seq<char>, FieldValueView)>::empty());
    let u1 = spec_apply_field(u0, "Email"@, v)->Ok_0;
    assert(u1.email is None && u1.custom.len() == 0);
    assert(spec_apply_fields(u1, fields.drop_first()) == Ok::<UserView, Seq<char>>(u1));
    assert(spec_apply_fields(u0, fields) == Ok::<UserView, Seq<char>>(u1));
}

/// Applying a field sequence to any starting subject fails exactly when
/// some field is unsupported, and then names the first such field.
pub proof fn lemma_apply_fields_first_unsupported(
    u: UserView,
    fields: Seq<(Seq<char>, FieldValueView)>,
)
    ensures
        match spec_first_unsupported(fields) {
            Some(k) => spec_apply_fields(u, fields) == Err::<UserView, Seq<char>>(k),
            None => spec_apply_fields(u, fields) is Ok,
        },
    decreases fields.len(),
{
    if fields.len() > 0 {
        match spec_apply_field(u, fields[0].0, fields[0].1) {
            Ok(u2) => {
                lemma_apply_fields_first_unsupported(u2, fields.drop_first());
            },
            Err(_) => {},
        }
    }
}

/// A nested-structure value under a non-reserved name always fails the
/// whole translation, regardless of the other attributes present, and the
/// failure names the first such attribute.
pub proof fn lemma_struct_attribute_rejected(c: ContextView)
    requires
        exists|i: int|
            0 <= i < c.custom_fields.len() && spec_field_unsupported(
                c.custom_fields[i].0,
                c.custom_fields[i].1,
            ),
    ensures
        spec_first_unsupported(c.custom_fields) is Some,
        spec_to_user(c) == Err::<Option<UserView>, Seq<char>>(
            spec_first_unsupported(c.custom_fields)->Some_0,
        ),
{
    lemma_first_unsupported_some(c.custom_fields);
    lemma_apply_fields_first_unsupported(spec_empty_user(spec_identifier(c)), c.custom_fields);
}

/// Helper: a sequence holding an unsupported field has a first one.
proof fn lemma_first_unsupported_some(fields: Seq<(Seq<char>, FieldValueView)>)
    requires
        exists|i: int|
            0 <= i < fields.len() && spec_field_unsupported(fields[i].0, fields[i].1),
    ensures
        spec_first_unsupported(fields) is Some,
    decreases fields.len(),
{
    if !spec_field_unsupported(fields[0].0, fields[0].1) {
        let i = choose|i: int|
            0 <= i < fields.len() && spec_field_unsupported(fields[i].0, fields[i].1);
        assert(fields.drop_first()[i - 1] == fields[i]);
        lemma_first_unsupported_some(fields.drop_first());
    }
}

} // verus!
