//! The request planner: URLs and authentication for the standings API,
//! and the startup check that refuses to plan any request without a key.

use vstd::prelude::*;
use vstd::string::StringExecFns;
use crate::model::AppError;
use crate::model::Competition;
use crate::numfmt::spec_dec;
use crate::numfmt::u16_to_string;

verus! {

/// The base URL of the standings API.
pub open spec fn spec_api_url() -> Seq<char> {
    "http://api.football-data.org/v2/competitions/"@
}

/// The standings URL for one competition id.
pub open spec fn spec_standings_url(id: nat) -> Seq<char> {
    spec_api_url() + spec_dec(id) + "/standings"@
}

/// The name of the authentication header.
pub open spec fn spec_auth_header() -> Seq<char> {
    "X-Auth-Token"@
}

/// The base URL of the standings API.
pub fn api_url() -> (r: &'static str)
    ensures
        r@ == spec_api_url(),
{
    "http://api.football-data.org/v2/competitions/"
}

/// The standings URL for one competition id.
pub fn standings_url(id: u16) -> (r: String)
    ensures
        r@ == spec_standings_url(id as nat),
{
    let mut r = api_url().to_owned();
    let digits = u16_to_string(id);
    r.append(digits.as_str());
    r.append("/standings");
    proof {
        assert(r@ =~= spec_standings_url(id as nat));
    }
    r
}

/// The name of the authentication header.
pub fn auth_header_name() -> (r: &'static str)
    ensures
        r@ == spec_auth_header(),
{
    "X-Auth-Token"
}

/// One planned HTTP GET: the URL and the authentication header to send.
#[derive(Debug)]
pub struct FetchRequest {
    pub url: String,
    pub header_name: String,
    pub header_value: String,
}

/// Plans the run's requests. Without an API key no request at all is
/// planned: the result is a configuration error. With a key, exactly one
/// request per competition is planned, in order, each carrying the key
/// in the authentication header.
pub fn plan_requests(api_key: Option<String>, comps: &Vec<Competition>) -> (r: Result<
    Vec<FetchRequest>,
    AppError,
>)
    ensures
        api_key is None ==> (r matches Err(e) && e is ConfigError),
        api_key matches Some(k) ==> (r matches Ok(reqs) && reqs@.len() == comps@.len() && forall|
            i: int,
        |
            0 <= i < comps@.len() ==> #[trigger] reqs@[i].url@ == spec_standings_url(
                comps@[i].id as nat,
            ) && reqs@[i].header_name@ == spec_auth_header() && reqs@[i].header_value@ == k@),
{
    match api_key {
        None => Err(AppError::ConfigError),
        Some(key) => {
            let mut reqs: Vec<FetchRequest> = Vec::new();
            let mut i: usize = 0;
            while i < comps.len()
                invariant
                    i <= comps@.len(),
                    reqs@.len() == i,
                    forall|j: int|
                        0 <= j < i ==> #[trigger] reqs@[j].url@ == spec_standings_url(
                            comps@[j].id as nat,
                        ) && reqs@[j].header_name@ == spec_auth_header()
                            && reqs@[j].header_value@ == key@,
                decreases comps@.len() - i,
            {
                let url = standings_url(comps[i].id);
                reqs.push(
                    FetchRequest {
                        url,
                        header_name: auth_header_name().to_owned(),
                        header_value: key.clone(),
                    },
                );
                i = i + 1;
            }
            Ok(reqs)
        },
    }
}

} // verus!
