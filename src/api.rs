use vstd::prelude::*;

verus! {

/// The inventory endpoint that lists the devices of `tailnet`.
pub open spec fn devices_url_spec(tailnet: Seq<char>) -> Seq<char> {
    "https://api.tailscale.com/api/v2/tailnet/"@ + tailnet + "/devices"@
}

/// Builds the inventory endpoint for a tailnet.
pub fn devices_url(tailnet: &str) -> (r: String)
    ensures
        r@ == devices_url_spec(tailnet@),
{
    let mut s = String::from_str("https://api.tailscale.com/api/v2/tailnet/");
    s.append(tailnet);
    s.append("/devices");
    s
}

/// The `Authorization` header value that presents `token`.
pub fn bearer_header(token: &str) -> (r: String)
    ensures
        r@ == "Bearer "@ + token@,
{
    let mut s = String::from_str("Bearer ");
    s.append(token);
    s
}

} // verus!
