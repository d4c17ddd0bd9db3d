//! The addresses of the provider's API, as text.

use vstd::prelude::*;

verus! {

/// `String::push_str` of std: afterwards the string holds what it held
/// before, followed by the characters of `string`.
pub assume_specification[ String::push_str ](s: &mut String, string: &str)
    ensures
        final(s)@ == old(s)@ + string@,
;

/// The fixed base of the provider's API.
pub open spec fn api_base() -> Seq<char> {
    "https://api.cloudflare.com/client/v4/zones"@
}

/// The address of the record collection of `zone`.
pub open spec fn records_url(zone: Seq<char>) -> Seq<char> {
    api_base() + "/"@ + zone + "/dns_records"@
}

/// The address of the record `id` of `zone`.
pub open spec fn record_url(zone: Seq<char>, id: Seq<char>) -> Seq<char> {
    records_url(zone) + "/"@ + id
}

/// Builds the address of the record collection of `zone`.
pub fn records_endpoint(zone: &String) -> (url: String)
    ensures
        url@ == records_url(zone@),
{
    let mut url = "https://api.cloudflare.com/client/v4/zones".to_owned();
    url.push_str("/");
    url.push_str(zone.as_str());
    url.push_str("/dns_records");
    url
}

/// Builds the address of the record `id` of `zone`.
pub fn record_endpoint(zone: &String, id: &String) -> (url: String)
    ensures
        url@ == record_url(zone@, id@),
{
    let mut url = records_endpoint(zone);
    url.push_str("/");
    url.push_str(id.as_str());
    url
}

} // verus!
