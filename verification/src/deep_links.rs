//! Deep-link parsing: the URL is decomposed into its parts by the url
//! crate, and the library assembles the data record and the result values
//! the handlers report.

use vstd::prelude::*;
use vstd::string::StringExecFns;
use crate::outside::{url_ok, url_scheme_of, url_host_of, url_path_of, url_query_of,
    parse_url_parts};

verus! {

#[derive(Debug, Clone)]
pub struct DeepLinkData {
    pub url: String,
    pub scheme: String,
    pub host: String,
    pub path: String,
    pub query: String,
}

#[derive(Debug, Clone)]
pub struct DeepLinkResult {
    pub success: bool,
    pub message: String,
    pub data: Option<DeepLinkData>,
}

/// An absent part is reported as the empty string.
pub open spec fn part_or_empty(o: Option<Seq<char>>) -> Seq<char> {
    match o {
        Some(p) => p,
        None => Seq::empty(),
    }
}

/// Parse a URL into its deep-link parts. Accepts exactly what the url
/// crate accepts; everything else is an invalid-format error.
pub fn parse_deep_link_url(url: &str) -> (r: Result<DeepLinkData, String>)
    ensures
        r is Ok <==> url_ok(url@),
        r matches Ok(d) ==> {
            &&& d.url@ == url@
            &&& d.scheme@ == url_scheme_of(url@)
            &&& d.host@ == part_or_empty(url_host_of(url@))
            &&& d.path@ == url_path_of(url@)
            &&& d.query@ == part_or_empty(url_query_of(url@))
        },
        r matches Err(e) ==> e@ == "Invalid URL format"@,
{
    match parse_url_parts(url) {
        Some(parts) => {
            let host = match parts.1 {
                Some(h) => h,
                None => String::new(),
            };
            let query = match parts.3 {
                Some(q) => q,
                None => String::new(),
            };
            Ok(
                DeepLinkData {
                    url: String::from_str(url),
                    scheme: parts.0,
                    host,
                    path: parts.2,
                    query,
                },
            )
        },
        None => Err(String::from_str("Invalid URL format")),
    }
}

/// The result reported when a deep link was parsed and handled, with the
/// message the original handler wrote for each stage's outcome:
/// `stage_error` is what the emit or focus stage reported, if it failed.
pub fn deep_link_outcome(
    url: &str,
    parsed: Option<DeepLinkData>,
    stage_error: Option<String>,
) -> (r: DeepLinkResult)
    ensures
        parsed is None ==> !r.success && r.message@ == "Invalid URL format"@ && r.data is None,
        parsed is Some && stage_error is Some ==> !r.success && r.message
            == stage_error.unwrap() && r.data == parsed,
        parsed is Some && stage_error is None ==> r.success && r.message@ == "Deep link handled: "@
            + url@ && r.data == parsed,
{
    match parsed {
        None => DeepLinkResult {
            success: false,
            message: String::from_str("Invalid URL format"),
            data: None,
        },
        Some(d) => {
            match stage_error {
                Some(e) => DeepLinkResult { success: false, message: e, data: Some(d) },
                None => {
                    let mut message = String::from_str("Deep link handled: ");
                    message.append(url);
                    DeepLinkResult { success: true, message, data: Some(d) }
                },
            }
        },
    }
}

} // verus!
