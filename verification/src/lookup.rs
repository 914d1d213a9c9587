//! Domain classification against a threat-intelligence lookup service.
//!
//! The caller builds the request URL with [`lookup_url`], performs the HTTP
//! GET itself, and hands the outcome back as a [`FetchOutcome`]. The
//! response body is parsed and mapped here; the result depends on the body
//! alone, so simultaneous lookups cannot contaminate one another.

use vstd::prelude::*;
use vstd::string::StringExecFns;

use crate::errors::MercyError;
use crate::text::str_eq;

verus! {

/// The four-way outcome the lookup service assigns to a domain.
#[derive(Clone, Copy, Debug, PartialEq, Eq, Structural)]
pub enum Classification {
    Malicious,
    Unknown,
    Suspicious,
    /// No record carries a recognized classification, or the record set is
    /// empty.
    Unclassified,
}

/// The outcome of the caller's HTTP request for a domain's records.
pub enum FetchOutcome {
    /// The response body, read in full.
    Received(String),
    /// The request failed: connection, transport, or a non-success status.
    Failed,
}

#[verifier::external_type_specification]
#[verifier::external_body]
pub struct ExSerdeError(serde_json::Error);

/// The `classification` field of the first element of the `data` array of
/// the JSON document `body`: `None` when `body` is not valid JSON,
/// `Some(None)` when it parses but no such string field exists.
pub uninterp spec fn classification_field_of(body: Seq<char>) -> Option<Option<Seq<char>>>;

/// Relies on `serde_json::from_str::<Value>` and `Value`'s indexing and
/// `as_str`: indexing a missing member or element yields `Null`, and
/// `as_str` is `Some` exactly on JSON strings, so the result is the
/// `classification` string of the first `data` record when there is one.
/// The result depends on the body alone.
#[verifier::external_body]
fn parse_classification(body: &str) -> (r: Result<Option<String>, serde_json::Error>)
    ensures
        (match r {
            Ok(Some(c)) => classification_field_of(body@) == Some(Some(c@)),
            Ok(None) => classification_field_of(body@) == Some(None::<Seq<char>>),
            Err(_) => classification_field_of(body@) is None,
        }),
{
    match serde_json::from_str::<serde_json::Value>(body) {
        Ok(doc) => Ok(doc["data"][0]["classification"].as_str().map(|s| s.to_string())),
        Err(e) => Err(e),
    }
}

/// The classification that a record's label denotes: exact match on the
/// three recognized values, anything else unclassified.
pub open spec fn classification_of_label(label: Seq<char>) -> Classification {
    if label == "MALICIOUS"@ {
        Classification::Malicious
    } else if label == "UNKNOWN"@ {
        Classification::Unknown
    } else if label == "SUSPICIOUS"@ {
        Classification::Suspicious
    } else {
        Classification::Unclassified
    }
}

/// What a response body classifies as: a parse failure is an error, a
/// well-formed body without a recognized label is `Unclassified`.
pub open spec fn spec_classify(body: Seq<char>) -> Result<Classification, MercyError> {
    match classification_field_of(body) {
        Option::None => Err(MercyError::ParseError),
        Option::Some(Option::None) => Ok(Classification::Unclassified),
        Option::Some(Option::Some(label)) => Ok(classification_of_label(label)),
    }
}

/// Classify a response body from the lookup service.
pub fn classify_response(body: &str) -> (r: Result<Classification, MercyError>)
    ensures
        r == spec_classify(body@),
{
    match parse_classification(body) {
        Err(_) => Err(MercyError::ParseError),
        Ok(None) => Ok(Classification::Unclassified),
        Ok(Some(label)) => {
            if str_eq(label.as_str(), "MALICIOUS") {
                Ok(Classification::Malicious)
            } else if str_eq(label.as_str(), "UNKNOWN") {
                Ok(Classification::Unknown)
            } else if str_eq(label.as_str(), "SUSPICIOUS") {
                Ok(Classification::Suspicious)
            } else {
                Ok(Classification::Unclassified)
            }
        },
    }
}

/// A lookup's classification depends on its own response body alone, never
/// on another call's: equal bodies classify equally, whatever else runs at
/// the same time, so simultaneous lookups cannot contaminate one another.
pub proof fn lemma_lookup_independent(body1: Seq<char>, body2: Seq<char>)
    requires
        body1 == body2,
    ensures
        spec_classify(body1) == spec_classify(body2),
{
}

/// The request URL for a domain's indicator records.
pub fn lookup_url(mercy_domain: &str) -> (r: String)
    ensures
        r@ == "https://labs.inquest.net/api/dfi/search/ioc/domain?keyword="@ + mercy_domain@,
{
    let mut url = String::from_str("https://labs.inquest.net/api/dfi/search/ioc/domain?keyword=");
    url.append(mercy_domain);
    url
}

/// The text that [`mercy_malicious`] reports for a classification.
pub open spec fn classification_text(c: Classification) -> Seq<char> {
    match c {
        Classification::Malicious => "Malicious"@,
        Classification::Unknown => "Unknown"@,
        Classification::Suspicious => "Suspicious"@,
        Classification::Unclassified => "No classification available"@,
    }
}

fn render_classification(c: Classification) -> (r: String)
    ensures
        r@ == classification_text(c),
{
    match c {
        Classification::Malicious => String::from_str("Malicious"),
        Classification::Unknown => String::from_str("Unknown"),
        Classification::Suspicious => String::from_str("Suspicious"),
        Classification::Unclassified => String::from_str("No classification available"),
    }
}

/// Whether the malicious call needs a fetch from the lookup service: only
/// `"status"` does. The caller can ask before going to the network.
pub fn mercy_malicious_plan(mercy_call: &str) -> (r: bool)
    ensures
        r <==> mercy_call@ == "status"@,
{
    str_eq(mercy_call, "status")
}

/// Malicious-domain dispatch: `"status"` is the only recognized call. The
/// result is a function of the fetched body alone; a failed fetch is a
/// `NetworkError`, never a classification.
pub fn mercy_malicious(mercy_call: &str, outcome: &FetchOutcome) -> (r: Result<String, MercyError>)
    ensures
        mercy_call@ == "status"@ ==> (match *outcome {
            FetchOutcome::Received(body) => (match spec_classify(body@) {
                Ok(c) => r matches Ok(s) && s@ == classification_text(c),
                Err(e) => r == Err::<String, MercyError>(e),
            }),
            FetchOutcome::Failed => r == Err::<String, MercyError>(MercyError::NetworkError),
        }),
        mercy_call@ != "status"@ ==> r == Err::<String, MercyError>(
            MercyError::UnsupportedOperation,
        ),
{
    if str_eq(mercy_call, "status") {
        match outcome {
            FetchOutcome::Received(body) => match classify_response(body.as_str()) {
                Ok(c) => Ok(render_classification(c)),
                Err(e) => Err(e),
            },
            FetchOutcome::Failed => Err(MercyError::NetworkError),
        }
    } else {
        Err(MercyError::UnsupportedOperation)
    }
}

} // verus!
