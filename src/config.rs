//! Resolution of the API token and the inverter identifier, and the headers
//! that every request carries.
use vstd::prelude::*;
use vstd::string::*;

use crate::error::ConfigError;

verus! {

/// Environment variable that holds the API token when the input has none.
pub const API_TOKEN_VARIABLE: &'static str = "GIVENERGY_API_TOKEN";

/// Environment variable that holds the inverter identifier when the input
/// has none.
pub const INVERTER_ID_VARIABLE: &'static str = "GIVENERGY_INVERTER_ID";

/// The invocation's input: each value may be left to the environment.
#[derive(Debug)]
pub struct Input {
    pub inverter_id: Option<String>,
    pub api_token: Option<String>,
}

/// What the environment holds under the two variables, as looked up by the
/// caller.
#[derive(Debug)]
pub struct Environment {
    pub api_token: Option<String>,
    pub inverter_id: Option<String>,
}

/// The credentials and device of every request of one invocation.
#[derive(Debug)]
pub struct RequestParameters {
    pub api_token: String,
    pub inverter_id: String,
}

/// A value given explicitly wins over the environment's.
pub open spec fn resolved(given: Option<String>, fallback: Option<String>) -> Option<String> {
    match given {
        Some(v) => Some(v),
        None => fallback,
    }
}

/// The token and the inverter identifier, each from the input or else from
/// the environment. The token is resolved first, so a missing token is
/// reported even when the identifier is missing too.
pub fn resolve(input: Input, env: Environment) -> (r: Result<RequestParameters, ConfigError>)
    ensures
        match resolved(input.api_token, env.api_token) {
            None => r matches Err(ConfigError::MissingApiToken),
            Some(token) => match resolved(input.inverter_id, env.inverter_id) {
                None => r matches Err(ConfigError::MissingInverterId),
                Some(id) => r matches Ok(p) && p.api_token == token && p.inverter_id == id,
            },
        },
{
    let Input { inverter_id, api_token } = input;
    let Environment { api_token: env_token, inverter_id: env_id } = env;
    let api_token = match api_token {
        Some(token) => token,
        None => match env_token {
            Some(token) => token,
            None => {
                return Err(ConfigError::MissingApiToken);
            },
        },
    };
    let inverter_id = match inverter_id {
        Some(id) => id,
        None => match env_id {
            Some(id) => id,
            None => {
                return Err(ConfigError::MissingInverterId);
            },
        },
    };
    Ok(RequestParameters { api_token, inverter_id })
}

/// The headers of every request: bearer authorization with the token, and
/// JSON as content type and accepted type.
pub open spec fn headers_of(token: Seq<char>) -> Seq<(Seq<char>, Seq<char>)> {
    seq![
        ("Authorization"@, "Bearer "@ + token),
        ("Content-Type"@, "application/json"@),
        ("Accept"@, "application/json"@),
    ]
}

/// The headers that each request of these parameters carries.
pub fn request_headers(params: &RequestParameters) -> (r: Vec<(String, String)>)
    ensures
        r@.len() == 3,
        forall|i: int|
            0 <= i < 3 ==> (#[trigger] r@[i]).0@ == headers_of(params.api_token@)[i].0
                && r@[i].1@ == headers_of(params.api_token@)[i].1,
{
    let mut auth = "Bearer ".to_owned();
    auth.append(params.api_token.as_str());
    let mut r: Vec<(String, String)> = Vec::new();
    r.push(("Authorization".to_owned(), auth));
    r.push(("Content-Type".to_owned(), "application/json".to_owned()));
    r.push(("Accept".to_owned(), "application/json".to_owned()));
    assert forall|i: int| 0 <= i < 3 implies (#[trigger] r@[i]).0@ == headers_of(params.api_token@)[i].0
        && r@[i].1@ == headers_of(params.api_token@)[i].1 by {
        if i == 0 {} else if i == 1 {} else {}
    }
    r
}

} // verus!
