//! Small helpers for security-analyst tasks: base64 and ROT13 codecs,
//! SHA-256 and MD5 digests, hex dumps of file contents, a domain
//! classification lookup against a threat-intelligence service, URL
//! defanging, WHOIS queries and host information.
//!
//! Every operation that needs the outside world (the network, the file
//! system, the operating system) is split: this library holds the decisions
//! and transformations, with contracts, and the caller performs the outside
//! step and hands the outcome back as a plain value.

use vstd::prelude::*;
use vstd::string::StringExecFns;

pub mod codec;
pub mod errors;
pub mod extra;
pub mod hashing;
pub mod hexview;
pub mod lookup;
pub mod text;

pub use codec::{base64_decode, base64_encode, base64_round_trip, mercy_decode, mercy_encode};
pub use codec::{lemma_rot13_involution, rot13_decode};
pub use errors::MercyError;
pub use extra::{defang, mercy_extra, mercy_extra_plan, system_info, ExtraPlan, NetEvent};
pub use hashing::mercy_hash;
pub use hexview::{mercy_hex, mercy_hex_plan, FileData};
pub use lookup::{classify_response, lookup_url, mercy_malicious, mercy_malicious_plan, Classification, FetchOutcome};

verus! {

/// The view of the string that [`mercy_source`] returns.
pub open spec fn source_text() -> Seq<char> {
    "Author: Catherine Framework (https://github.com/CatherineFramework)\nVersion: 1.2.17\nDocumentation: https://docs.rs/crate/mercy/latest"@
}

/// Learn more about the crate.
pub fn mercy_source() -> (r: String)
    ensures
        r@ == source_text(),
{
    String::from_str(
        "Author: Catherine Framework (https://github.com/CatherineFramework)\nVersion: 1.2.17\nDocumentation: https://docs.rs/crate/mercy/latest",
    )
}

/// A plain message, returned unchanged.
pub fn unknown_msg(custom_msg: &str) -> (r: String)
    ensures
        r@ == custom_msg@,
{
    custom_msg.to_owned()
}

} // verus!
