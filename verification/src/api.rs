use vstd::prelude::*;

verus! {

/// Where the sports list is fetched from, before the API key.
pub open spec fn sports_url_prefix() -> Seq<char> {
    "https://api.the-odds-api.com/v4/sports/?apiKey="@
}

/// Where the outright odds of a sport are fetched from, before the sport's key.
pub open spec fn outrights_url_prefix() -> Seq<char> {
    "https://api.the-odds-api.com/v4/sports/"@
}

/// The cache key of the sports list.
pub fn sports_cache_key() -> (r: String)
    ensures
        r@ == "sports"@,
{
    "sports".to_owned()
}

/// The cache key of the outright odds of the sport `sport_key`.
pub fn outrights_cache_key(sport_key: &str) -> (r: String)
    ensures
        r@ == "outrights_"@ + sport_key@,
{
    let mut key = "outrights_".to_owned();
    key.append(sport_key);
    key
}

/// The address that lists the sports, for the API key `api_key`.
pub fn sports_url(api_key: &str) -> (r: String)
    ensures
        r@ == sports_url_prefix() + api_key@,
{
    let mut url = "https://api.the-odds-api.com/v4/sports/?apiKey=".to_owned();
    url.append(api_key);
    url
}

/// The address of the outright odds of the sport `sport_key` on European
/// bookmakers, for the API key `api_key`.
pub fn outrights_url(sport_key: &str, api_key: &str) -> (r: String)
    ensures
        r@ == outrights_url_prefix() + sport_key@ + "/odds/?apiKey="@ + api_key@
            + "&regions=eu&markets=outrights"@,
{
    let mut url = "https://api.the-odds-api.com/v4/sports/".to_owned();
    url.append(sport_key);
    url.append("/odds/?apiKey=");
    url.append(api_key);
    url.append("&regions=eu&markets=outrights");
    url
}

} // verus!
