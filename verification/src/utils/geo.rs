//! Where a client is, as far as an address tells.

use vstd::prelude::*;

use crate::text::owned;

verus! {

/// The part of the geolocation service's answer that is read.
#[derive(Debug)]
pub struct IpGeoResponse {
    pub country_name: Option<String>,
    pub country_code2: Option<String>,
    pub state_prov: Option<String>,
    pub city: Option<String>,
}

/// A place.
#[derive(Debug)]
pub struct GeoInfo {
    pub country_name: String,
    pub country_code: String,
    pub state_prov: String,
    pub city: String,
}

/// The mathematical form of a place.
pub struct GeoView {
    pub country_name: Seq<char>,
    pub country_code: Seq<char>,
    pub state_prov: Seq<char>,
    pub city: Seq<char>,
}

impl View for GeoInfo {
    type V = GeoView;

    open spec fn view(&self) -> GeoView {
        GeoView {
            country_name: self.country_name@,
            country_code: self.country_code@,
            state_prov: self.state_prov@,
            city: self.city@,
        }
    }
}

/// A part of the answer, or what stands for it where it is missing.
pub open spec fn or_text(part: Option<String>, other: Seq<char>) -> Seq<char> {
    match part {
        Some(s) => s@,
        None => other,
    }
}

/// The place of an answer; what is missing is unknown, and the country's code
/// is then `US`.
pub open spec fn place_of(reply: Option<IpGeoResponse>) -> GeoView {
    match reply {
        Some(r) => GeoView {
            country_name: or_text(r.country_name, "Unknown"@),
            country_code: or_text(r.country_code2, "US"@),
            state_prov: or_text(r.state_prov, "Unknown"@),
            city: or_text(r.city, "Unknown"@),
        },
        None => GeoView {
            country_name: "Unknown"@,
            country_code: "US"@,
            state_prov: "Unknown"@,
            city: "Unknown"@,
        },
    }
}

fn text_or(part: Option<String>, other: &str) -> (r: String)
    ensures
        r@ == or_text(part, other@),
{
    match part {
        Some(s) => s,
        None => owned(other),
    }
}

/// The place of an answer, `None` where there was none or it could not be
/// read.
pub fn geo_info(reply: Option<IpGeoResponse>) -> (r: GeoInfo)
    ensures
        r@ == place_of(reply),
{
    match reply {
        Some(data) => GeoInfo {
            country_name: text_or(data.country_name, "Unknown"),
            country_code: text_or(data.country_code2, "US"),
            state_prov: text_or(data.state_prov, "Unknown"),
            city: text_or(data.city, "Unknown"),
        },
        None => GeoInfo {
            country_name: owned("Unknown"),
            country_code: owned("US"),
            state_prov: owned("Unknown"),
            city: owned("Unknown"),
        },
    }
}

/// The address to ask for the place of `ip`; without a key nothing is asked.
pub open spec fn geo_url(ip: Seq<char>, api_key: Seq<char>) -> Option<Seq<char>> {
    if api_key.len() == 0 {
        None
    } else {
        Some("https://api.ipgeolocation.io/ipgeo?apiKey="@ + api_key + "&ip="@ + ip)
    }
}

/// The address to ask for the place of `ip`, or `None` where the service is
/// not configured: the place is then `geo_info(None)`.
pub fn fetch_geo(ip: &str, api_key: &str) -> (r: Option<String>)
    ensures
        match r {
            Some(url) => geo_url(ip@, api_key@) == Some(url@),
            None => geo_url(ip@, api_key@) is None,
        },
{
    if api_key.unicode_len() == 0 {
        return None;
    }
    let mut url = owned("https://api.ipgeolocation.io/ipgeo?apiKey=");
    url.push_str(api_key);
    url.push_str("&ip=");
    url.push_str(ip);
    Some(url)
}

/// What the service tells of a place is kept, part by part; of what it does not
/// tell the country is the United States by its code, and the rest is unknown.
pub proof fn law_place_is_kept(reply: IpGeoResponse, r: GeoInfo, none: GeoInfo)
    requires
        call_ensures(geo_info, (Some(reply),), r),
        call_ensures(geo_info, (None,), none),
    ensures
        reply.country_name matches Some(s) ==> r.country_name@ == s@,
        reply.country_code2 matches Some(s) ==> r.country_code@ == s@,
        reply.state_prov matches Some(s) ==> r.state_prov@ == s@,
        reply.city matches Some(s) ==> r.city@ == s@,
        reply.country_name is None ==> r.country_name@ == "Unknown"@,
        reply.country_code2 is None ==> r.country_code@ == "US"@,
        reply.state_prov is None ==> r.state_prov@ == "Unknown"@,
        reply.city is None ==> r.city@ == "Unknown"@,
        none.country_name@ == "Unknown"@ && none.country_code@ == "US"@,
        none.state_prov@ == "Unknown"@ && none.city@ == "Unknown"@,
{
}

/// The service is asked exactly where there is a key, with the key, for the
/// address: the two stand at the end of what is asked, and two addresses are
/// asked for apart.
pub proof fn law_place_is_asked_for(
    ip: &str,
    other: &str,
    key: &str,
    r: Option<String>,
    o: Option<String>,
)
    requires
        call_ensures(fetch_geo, (ip, key), r),
        call_ensures(fetch_geo, (other, key), o),
    ensures
        r is Some <==> key@.len() > 0,
        r matches Some(url) ==> ("apiKey="@ + key@ + "&ip="@ + ip@).is_suffix_of(url@)
            && "https://api.ipgeolocation.io/ipgeo?"@.is_prefix_of(url@),
        r matches Some(url) ==> (o matches Some(second) && (url@ == second@ <==> ip@ == other@)),
{
    if r is Some {
        reveal_strlit("apiKey=");
        reveal_strlit("https://api.ipgeolocation.io/ipgeo?");
        reveal_strlit("https://api.ipgeolocation.io/ipgeo?apiKey=");
        let url = r->0@;
        let start = "https://api.ipgeolocation.io/ipgeo?apiKey="@;
        assert(start =~= "https://api.ipgeolocation.io/ipgeo?"@ + "apiKey="@);
        let end = "apiKey="@ + key@ + "&ip="@ + ip@;
        assert(url =~= "https://api.ipgeolocation.io/ipgeo?"@ + end);
        assert(url.skip(url.len() - end.len()) =~= end);
        let head = start + key@ + "&ip="@;
        assert(url =~= head + ip@);
        assert(o->0@ =~= head + other@);
        assert((head + ip@).skip(head.len() as int) =~= ip@);
        assert((head + other@).skip(head.len() as int) =~= other@);
    }
}

} // verus!
