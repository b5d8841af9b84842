//! Declarations of the outside types that the library carries.

use ::semver::Version as SemanticVersion;
use vstd::prelude::*;

verus! {

#[verifier::external_type_specification]
#[verifier::external_body]
pub struct ExSemverVersion(SemanticVersion);

#[verifier::external_type_specification]
#[verifier::external_body]
pub struct ExSemverError(::semver::Error);

#[verifier::external_type_specification]
#[verifier::external_body]
pub struct ExJsonValue(::serde_json::Value);

#[verifier::external_type_specification]
#[verifier::external_body]
pub struct ExJsonError(::serde_json::Error);

#[verifier::external_type_specification]
#[verifier::external_body]
pub struct ExAnyhowError(::anyhow::Error);

} // verus!
