//! Argument validation, the registry's routes and the base URL.

use vstd::prelude::*;
use vstd::string::StringExecFns;
use crate::api::error::OpsmlError;
use crate::api::text::opt_text;
use crate::api::text::strip_suffix;
use crate::api::text::without_suffix;

verus! {

/// The registry endpoints that the client posts to.
#[derive(Debug, Clone, Copy, PartialEq, Eq, Structural)]
pub enum OpsmlPaths {
    ListCard,
    MetadataDownload,
    Download,
    Metric,
    CompareMetric,
}

impl OpsmlPaths {
    /// The endpoint's path below the base URL.
    pub open spec fn route(self) -> Seq<char> {
        match self {
            OpsmlPaths::ListCard => "/opsml/cards/list"@,
            OpsmlPaths::MetadataDownload => "/opsml/models/metadata"@,
            OpsmlPaths::Download => "/opsml/files/download"@,
            OpsmlPaths::Metric => "/opsml/models/metrics"@,
            OpsmlPaths::CompareMetric => "/opsml/models/compare_metrics"@,
        }
    }

    /// The endpoint's full URL below `base_url`, which carries no trailing
    /// slash (see [`resolve_tracking_uri`]).
    pub fn as_str(&self, base_url: &str) -> (url: String)
        ensures
            url@ == base_url@ + self.route(),
    {
        let base = String::from_str(base_url);
        match self {
            OpsmlPaths::ListCard => base.concat("/opsml/cards/list"),
            OpsmlPaths::MetadataDownload => base.concat("/opsml/models/metadata"),
            OpsmlPaths::Download => base.concat("/opsml/files/download"),
            OpsmlPaths::Metric => base.concat("/opsml/models/metrics"),
            OpsmlPaths::CompareMetric => base.concat("/opsml/models/compare_metrics"),
        }
    }
}

/// A request names its record either by name and version or by uid: exactly
/// one of "neither name nor version given" and "no uid given" holds.
pub open spec fn valid_identification(
    name: Option<String>,
    version: Option<String>,
    uid: Option<String>,
) -> bool {
    (name is None && version is None) != (uid is None)
}

/// Accepts the arguments when exactly one identification mode was supplied.
pub fn check_args(
    name: &Option<String>,
    version: &Option<String>,
    uid: &Option<String>,
) -> (checked: Result<(), OpsmlError>)
    ensures
        checked is Ok <==> valid_identification(*name, *version, *uid),
        checked is Err ==> checked == Err::<(), OpsmlError>(OpsmlError::InvalidArguments),
{
    let has_common = name.is_none() && version.is_none();
    let has_uid = uid.is_none();
    if has_common != has_uid {
        Ok(())
    } else {
        Err(OpsmlError::InvalidArguments)
    }
}

/// The arguments are valid exactly when one, and only one, of these holds: a
/// name or a version is given; a uid is given.
pub proof fn lemma_exactly_one_identification(
    name: Option<String>,
    version: Option<String>,
    uid: Option<String>,
)
    ensures
        valid_identification(name, version, uid) <==> ((name is Some || version is Some) != (uid
            is Some)),
{
}

/// Removes the suffix from a string if it exists.
pub fn remove_suffix(s: &str, suffix: &str) -> (stripped: String)
    ensures
        stripped@ == without_suffix(s@, suffix@),
{
    match strip_suffix(s, suffix) {
        Some(head) => {
            assert(head@ =~= s@.subrange(0, s@.len() - suffix@.len()));
            assert(suffix@ =~= s@.subrange(s@.len() - suffix@.len(), s@.len() as int));
            head.to_string()
        },
        None => s.to_string(),
    }
}

/// The base URL as the operations use it: the configured value without one
/// trailing slash. A missing value is a configuration error.
pub fn resolve_tracking_uri(configured: Option<String>) -> (base: Result<String, OpsmlError>)
    ensures
        match configured {
            Some(value) => base matches Ok(url) && url@ == without_suffix(value@, "/"@),
            None => base == Err::<String, OpsmlError>(OpsmlError::ConfigurationError),
        },
{
    match configured {
        Some(value) => Ok(remove_suffix(value.as_str(), "/")),
        None => Err(OpsmlError::ConfigurationError),
    }
}

/// What a query ends in, given the response's status and the table of its
/// body, if the body decoded: the table on success, `UnexpectedStatus` for a
/// status outside 200..=299, `DecodeError` for a body that did not decode.
pub open spec fn response_output(status: u16, table: Option<Seq<char>>) -> Result<
    Seq<char>,
    OpsmlError,
> {
    if !(200 <= status <= 299) {
        Err(OpsmlError::UnexpectedStatus { status })
    } else {
        match table {
            Some(text) => Ok(text),
            None => Err(OpsmlError::DecodeError),
        }
    }
}

/// A text result by its view.
pub open spec fn text_result(output: Result<String, OpsmlError>) -> Result<Seq<char>, OpsmlError> {
    match output {
        Ok(text) => Ok(text@),
        Err(error) => Err(error),
    }
}

/// What a query ends in, given the response's status and the table printed
/// for its body, if the body decoded.
pub fn query_output(status: u16, table: Option<String>) -> (output: Result<String, OpsmlError>)
    ensures
        text_result(output) == response_output(status, opt_text(table)),
{
    if !is_success(status) {
        return Err(OpsmlError::UnexpectedStatus { status });
    }
    match table {
        Some(text) => Ok(text),
        None => Err(OpsmlError::DecodeError),
    }
}

/// Whether an HTTP status lies in the success range, 200 to 299.
pub fn is_success(status: u16) -> (success: bool)
    ensures
        success == (200 <= status <= 299),
{
    200 <= status && status <= 299
}

} // verus!
