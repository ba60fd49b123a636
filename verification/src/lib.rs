//! A compatibility adapter that exposes a ConfigCat flag-evaluation client's
//! results through the generic OpenFeature provider interface.
//!
//! The adapter is purely translational: it turns an OpenFeature evaluation
//! context into the ConfigCat user model, and turns the ConfigCat evaluation
//! outcome (value, variant, match reason or error) back into the OpenFeature
//! resolution vocabulary. All flag-evaluation logic (targeting rules,
//! percentage rollouts, config fetching and caching) is owned by the
//! ConfigCat client and is out of scope here.

pub mod json;
pub mod laws;
pub mod model;
pub mod provider;
pub mod translate;

pub use json::FlagValue;
pub use json::ParseOutcome;
pub use json::StructValue;
pub use model::ClientError;
pub use model::Context;
pub use model::ErrorKind;
pub use model::EvalDetails;
pub use model::EvaluationError;
pub use model::EvaluationErrorCode;
pub use model::EvaluationReason;
pub use model::FieldValue;
pub use model::ProviderMetadata;
pub use model::ResolutionDetails;
pub use model::User;
pub use model::UserValue;
pub use provider::ConfigCatProvider;
pub use translate::construct_reason;
pub use translate::to_res_details;
pub use translate::to_res_error;
pub use translate::to_struct_details;
pub use translate::to_user;
pub use translate::to_user_value;
