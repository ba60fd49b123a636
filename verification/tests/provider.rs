use configcat_openfeature_provider::to_res_details;
use configcat_openfeature_provider::to_res_error;
use configcat_openfeature_provider::to_struct_details;
use configcat_openfeature_provider::to_user;
use configcat_openfeature_provider::to_user_value;
use configcat_openfeature_provider::ClientError;
use configcat_openfeature_provider::ConfigCatProvider;
use configcat_openfeature_provider::Context;
use configcat_openfeature_provider::ErrorKind;
use configcat_openfeature_provider::EvalDetails;
use configcat_openfeature_provider::EvaluationErrorCode;
use configcat_openfeature_provider::EvaluationReason;
use configcat_openfeature_provider::FieldValue;
use configcat_openfeature_provider::FlagValue;
use configcat_openfeature_provider::UserValue;

fn ok_details<T>(value: T, variant: &str) -> EvalDetails<T> {
    EvalDetails {
        value,
        variation_id: Some(variant.to_string()),
        matched_targeting_rule: false,
        matched_percentage_option: false,
        error: None,
    }
}

fn err_details<T>(value: T, kind: ErrorKind, message: &str) -> EvalDetails<T> {
    EvalDetails {
        value,
        variation_id: None,
        matched_targeting_rule: false,
        matched_percentage_option: false,
        error: Some(ClientError { kind, message: message.to_string() }),
    }
}

#[test]
fn eval_bool() {
    let details = to_res_details(ok_details(true, "v-enabled")).unwrap();

    assert!(details.value);
    assert_eq!("v-enabled", details.variant.unwrap());
    assert_eq!(EvaluationReason::Default, details.reason.unwrap());
}

#[test]
fn eval_int() {
    let details = to_res_details(ok_details(5_i64, "v-int")).unwrap();

    assert_eq!(5, details.value);
    assert_eq!("v-int", details.variant.unwrap());
    assert_eq!(EvaluationReason::Default, details.reason.unwrap());
}

#[test]
fn eval_float() {
    let details = to_res_details(ok_details(1.2_f64, "v-double")).unwrap();

    assert_eq!(1.2, details.value);
    assert_eq!("v-double", details.variant.unwrap());
    assert_eq!(EvaluationReason::Default, details.reason.unwrap());
}

#[test]
fn eval_string() {
    let details = to_res_details(ok_details("test".to_string(), "v-string")).unwrap();

    assert_eq!("test", details.value);
    assert_eq!("v-string", details.variant.unwrap());
    assert_eq!(EvaluationReason::Default, details.reason.unwrap());
}

#[test]
fn eval_object() {
    let text = "{\"bool_field\":true,\"text_field\":\"value\"}".to_string();
    let details = to_struct_details(ok_details(text, "v-object")).unwrap();

    let text_field = details
        .value
        .fields
        .iter()
        .find(|p| p.0 == "text_field")
        .unwrap();
    assert_eq!(FlagValue::Str("value".to_string()), text_field.1);
    let bool_field = details
        .value
        .fields
        .iter()
        .find(|p| p.0 == "bool_field")
        .unwrap();
    assert_eq!(FlagValue::Bool(true), bool_field.1);
    assert_eq!("v-object", details.variant.unwrap());
    assert_eq!(EvaluationReason::Default, details.reason.unwrap());
}

#[test]
fn eval_targeting() {
    let ctx = Context {
        targeting_key: Some("example@matching.com".to_string()),
        custom_fields: Vec::new(),
    };
    let user = to_user(&ctx).unwrap().unwrap();
    assert_eq!("example@matching.com", user.identifier);

    let engine_details = EvalDetails {
        value: true,
        variation_id: Some("v-disabled-t".to_string()),
        matched_targeting_rule: true,
        matched_percentage_option: false,
        error: None,
    };
    let details = to_res_details(engine_details).unwrap();

    assert!(details.value);
    assert_eq!("v-disabled-t", details.variant.unwrap());
    assert_eq!(EvaluationReason::TargetingMatch, details.reason.unwrap());
}

#[test]
fn eval_key_not_found() {
    let message = "Failed to evaluate setting 'non-existing' (the key was not found in \
                   config JSON). Returning the `defaultValue` parameter that you specified in \
                   your application: 'false'. Available keys: ['enabledFeature'].";
    let details = to_res_details(err_details(false, ErrorKind::SettingKeyMissing, message));

    assert!(details.is_err());
    let err = details.err().unwrap();
    assert_eq!(EvaluationErrorCode::FlagNotFound, err.code);
    assert!(err.message.unwrap().starts_with(
        "Failed to evaluate setting 'non-existing' (the key was not found in config JSON). \
         Returning the `defaultValue` parameter that you specified in your application: \
         'false'. Available keys:"
    ));
}

#[test]
fn eval_type_mismatch() {
    let message = "The type of a setting must match the requested type. Setting's type was \
                   'String' but the requested type was 'bool'. Learn more: \
                   https://configcat.com/docs/sdk-reference/rust/#setting-type-mapping";
    let details = to_res_details(err_details(false, ErrorKind::SettingValueTypeMismatch, message));

    assert!(details.is_err());
    let err = details.err().unwrap();
    assert_eq!(EvaluationErrorCode::TypeMismatch, err.code);
    assert_eq!(err.message.unwrap(), message);
}

#[test]
fn empty_context_yields_no_subject() {
    let ctx = Context { targeting_key: None, custom_fields: Vec::new() };
    let user = to_user(&ctx).unwrap();
    assert!(user.is_none());
}

#[test]
fn targeting_key_only_yields_bare_subject() {
    let ctx = Context {
        targeting_key: Some("user-1".to_string()),
        custom_fields: Vec::new(),
    };
    let user = to_user(&ctx).unwrap().unwrap();
    assert_eq!("user-1", user.identifier);
    assert!(user.email.is_none());
    assert!(user.country.is_none());
    assert!(user.custom.is_empty());
}

#[test]
fn email_attribute_populates_dedicated_field() {
    let ctx = Context {
        targeting_key: None,
        custom_fields: vec![(
            "Email".to_string(),
            FieldValue::Str("john@example.com".to_string()),
        )],
    };
    let user = to_user(&ctx).unwrap().unwrap();
    assert_eq!("", user.identifier);
    assert_eq!("john@example.com", user.email.unwrap());
    assert!(user.custom.is_empty());
}

#[test]
fn email_attribute_non_string_dropped_without_error() {
    let ctx = Context {
        targeting_key: None,
        custom_fields: vec![("Email".to_string(), FieldValue::Int(42))],
    };
    let user = to_user(&ctx).unwrap().unwrap();
    assert!(user.email.is_none());
    assert!(user.custom.is_empty());
}

#[test]
fn country_attribute_populates_dedicated_field() {
    let ctx = Context {
        targeting_key: Some("user-1".to_string()),
        custom_fields: vec![(
            "Country".to_string(),
            FieldValue::Str("Hungary".to_string()),
        )],
    };
    let user = to_user(&ctx).unwrap().unwrap();
    assert_eq!("Hungary", user.country.unwrap());
    assert!(user.custom.is_empty());
}

#[test]
fn struct_attribute_rejected_with_invalid_context() {
    let ctx = Context {
        targeting_key: Some("user-1".to_string()),
        custom_fields: vec![
            ("Age".to_string(), FieldValue::Int(30)),
            ("Nested".to_string(), FieldValue::Struct),
            ("Role".to_string(), FieldValue::Str("admin".to_string())),
        ],
    };
    let err = to_user(&ctx).err().unwrap();
    assert_eq!(EvaluationErrorCode::InvalidContext, err.code);
    assert_eq!(
        "Nested context attribute is not supported by the ConfigCat Provider.",
        err.message.unwrap()
    );
}

#[test]
fn scalar_attributes_convert_to_user_values() {
    assert_eq!(
        Some(UserValue::Str("true".to_string())),
        to_user_value(&FieldValue::Bool(true))
    );
    assert_eq!(
        Some(UserValue::Str("false".to_string())),
        to_user_value(&FieldValue::Bool(false))
    );
    assert_eq!(Some(UserValue::Int(7)), to_user_value(&FieldValue::Int(7)));
    let bits = 4.5_f64.to_bits();
    assert_eq!(
        Some(UserValue::Float(bits)),
        to_user_value(&FieldValue::Float(bits))
    );
    assert_eq!(
        Some(UserValue::Int(1718378835)),
        to_user_value(&FieldValue::DateTime(1718378835))
    );
    assert_eq!(None, to_user_value(&FieldValue::Struct));
}

#[test]
fn custom_attributes_kept_in_order() {
    let ctx = Context {
        targeting_key: Some("user-1".to_string()),
        custom_fields: vec![
            ("Rating".to_string(), FieldValue::Float(4.5_f64.to_bits())),
            ("Age".to_string(), FieldValue::Int(30)),
        ],
    };
    let user = to_user(&ctx).unwrap().unwrap();
    assert_eq!(2, user.custom.len());
    assert_eq!("Rating", user.custom[0].0);
    assert_eq!(UserValue::Float(4.5_f64.to_bits()), user.custom[0].1);
    assert_eq!("Age", user.custom[1].0);
    assert_eq!(UserValue::Int(30), user.custom[1].1);
}

#[test]
fn config_unavailable_maps_to_parse_error() {
    let err = to_res_error(&ClientError {
        kind: ErrorKind::ConfigJsonNotAvailable,
        message: "Config JSON is not present.".to_string(),
    });
    assert_eq!(EvaluationErrorCode::ParseError, err.code);
    assert_eq!("Config JSON is not present.", err.message.unwrap());
}

#[test]
fn other_engine_error_maps_to_general() {
    let err = to_res_error(&ClientError {
        kind: ErrorKind::Other,
        message: "something broke".to_string(),
    });
    assert_eq!(
        EvaluationErrorCode::General("Provider error".to_string()),
        err.code
    );
    assert_eq!("something broke", err.message.unwrap());
}

#[test]
fn struct_flag_text_that_is_not_json_yields_parse_error() {
    let details = to_struct_details(ok_details("not json".to_string(), "v-object"));
    let err = details.err().unwrap();
    assert_eq!(EvaluationErrorCode::ParseError, err.code);
    assert!(err
        .message
        .unwrap()
        .starts_with("Failed to parse JSON from evaluated string: "));
}

#[test]
fn struct_flag_null_yields_type_mismatch() {
    let details = to_struct_details(ok_details("null".to_string(), "v-object"));
    let err = details.err().unwrap();
    assert_eq!(EvaluationErrorCode::TypeMismatch, err.code);
    assert_eq!("Failed to convert from JSON", err.message.unwrap());
}

#[test]
fn struct_flag_non_struct_yields_type_mismatch() {
    let details = to_struct_details(ok_details("[1, 2, 3]".to_string(), "v-object"));
    let err = details.err().unwrap();
    assert_eq!(EvaluationErrorCode::TypeMismatch, err.code);
    assert_eq!("Parsed value is not a StructValue", err.message.unwrap());
}

#[test]
fn struct_flag_nested_values_parsed() {
    let text = "{\"age\":23.5,\"id\":100,\"name\":\"Bob\",\"phones\":[\"12345\",67890]}";
    let details = to_struct_details(ok_details(text.to_string(), "v-object")).unwrap();
    let fields = &details.value.fields;

    let age = fields.iter().find(|p| p.0 == "age").unwrap();
    assert_eq!(FlagValue::Float(23.5_f64.to_bits()), age.1);
    let id = fields.iter().find(|p| p.0 == "id").unwrap();
    assert_eq!(FlagValue::Int(100), id.1);
    let name = fields.iter().find(|p| p.0 == "name").unwrap();
    assert_eq!(FlagValue::Str("Bob".to_string()), name.1);
    let phones = fields.iter().find(|p| p.0 == "phones").unwrap();
    assert_eq!(
        FlagValue::Array(vec![
            FlagValue::Str("12345".to_string()),
            FlagValue::Int(67890),
        ]),
        phones.1
    );
}

#[test]
fn provider_metadata_name() {
    let source = configcat::MapDataSource::from(std::collections::HashMap::from([(
        "enabledFeature",
        configcat::Value::Bool(true),
    )]));
    let client = configcat::Client::builder("local")
        .overrides(Box::new(source), configcat::OverrideBehavior::LocalOnly)
        .build()
        .unwrap();
    let provider = ConfigCatProvider::new(client);
    assert_eq!("ConfigCatProvider", provider.metadata().name);
}
