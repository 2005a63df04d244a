//! Building the one HTTP request an invocation performs.
//!
//! An action selects the target URI and the HTTP method; every request
//! carries the same six headers, among them the timestamp, the nonce and
//! the signature computed over exactly that timestamp and nonce. Only a
//! control command carries a body. The caller performs the actual HTTP
//! exchange with the values assembled here.
use vstd::prelude::*;

use crate::decimal::dec_int;
use crate::json::control_body;
use crate::json::spec_control_body;
use crate::signer::SigningError;
use crate::signer::compute_signature;
use crate::signer::spec_signature;

verus! {

/// The action selected by the caller.
#[derive(Debug)]
pub enum Action {
    /// List all devices.
    List,
    /// Get the status of one device.
    Status { device_id: String },
    /// Send a command to one device.
    Control { device_id: String, cmd: String, param: String },
}

/// The HTTP method of a request.
#[derive(Debug, Clone, Copy, PartialEq, Eq, Structural)]
pub enum Method {
    Get,
    Post,
}

/// The fixed root of the device API.
pub fn api_root() -> (r: &'static str)
    ensures
        r@ == ("https://api.switch-bot.com/v1.1/devices")@,
{
    "https://api.switch-bot.com/v1.1/devices"
}

/// The URI that lists all devices.
pub open spec fn spec_list_uri(root: Seq<char>) -> Seq<char> {
    root + ("/")@
}

/// The URI of one device's status.
pub open spec fn spec_status_uri(root: Seq<char>, device_id: Seq<char>) -> Seq<char> {
    root + ("/")@ + device_id + ("/status")@
}

/// The URI that accepts commands for one device.
pub open spec fn spec_control_uri(root: Seq<char>, device_id: Seq<char>) -> Seq<char> {
    root + ("/")@ + device_id + ("/commands")@
}

/// The target URI of an action.
pub open spec fn spec_uri_for(root: Seq<char>, a: Action) -> Seq<char> {
    match a {
        Action::List => spec_list_uri(root),
        Action::Status { device_id } => spec_status_uri(root, device_id@),
        Action::Control { device_id, .. } => spec_control_uri(root, device_id@),
    }
}

/// The HTTP method of an action: POST for a control command, GET otherwise.
pub open spec fn spec_method_for(a: Action) -> Method {
    match a {
        Action::Control { .. } => Method::Post,
        _ => Method::Get,
    }
}

/// The body of an action: only a control command carries one.
pub open spec fn spec_body_for(a: Action) -> Option<Seq<char>> {
    match a {
        Action::Control { device_id: _, cmd, param } => Some(spec_control_body(cmd@, param@)),
        _ => None,
    }
}

pub fn gen_list_uri(root_uri: &str) -> (r: String)
    ensures
        r@ == spec_list_uri(root_uri@),
{
    let mut s = String::from_str(root_uri);
    s.append("/");
    s
}

pub fn gen_status_uri(root_uri: &str, device_id: &String) -> (r: String)
    ensures
        r@ == spec_status_uri(root_uri@, device_id@),
{
    let mut s = String::from_str(root_uri);
    s.append("/");
    s.append(device_id.as_str());
    s.append("/status");
    s
}

pub fn gent_control_uri(root_uri: &str, device_id: &String) -> (r: String)
    ensures
        r@ == spec_control_uri(root_uri@, device_id@),
{
    let mut s = String::from_str(root_uri);
    s.append("/");
    s.append(device_id.as_str());
    s.append("/commands");
    s
}

/// Select the HTTP method for an action.
pub fn method_for(action: &Action) -> (m: Method)
    ensures
        m == spec_method_for(*action),
{
    match action {
        Action::Control { .. } => Method::Post,
        _ => Method::Get,
    }
}

/// The six headers every request carries, in order: the bearer token, the
/// content type, the charset, the decimal timestamp, the signature, and
/// the nonce.
pub open spec fn headers_match(
    h: Seq<(String, String)>,
    token: Seq<char>,
    timestamp: int,
    nonce: Seq<char>,
    sign: Seq<char>,
) -> bool {
    &&& h.len() == 6
    &&& h[0].0@ == ("Authorization")@ && h[0].1@ == token
    &&& h[1].0@ == ("Content-Type")@ && h[1].1@ == ("application/json")@
    &&& h[2].0@ == ("charset")@ && h[2].1@ == ("utf8")@
    &&& h[3].0@ == ("t")@ && h[3].1@ == dec_int(timestamp)
    &&& h[4].0@ == ("sign")@ && h[4].1@ == sign
    &&& h[5].0@ == ("nonce")@ && h[5].1@ == nonce
}

/// Assemble the header list sent with every request.
pub fn build_headers(token: &str, timestamp: i64, nonce: &str, sign: &str) -> (h: Vec<
    (String, String),
>)
    ensures
        headers_match(h@, token@, timestamp as int, nonce@, sign@),
{
    let mut h: Vec<(String, String)> = Vec::new();
    h.push((String::from_str("Authorization"), String::from_str(token)));
    h.push((String::from_str("Content-Type"), String::from_str("application/json")));
    h.push((String::from_str("charset"), String::from_str("utf8")));
    h.push((String::from_str("t"), crate::decimal::i64_to_decimal(timestamp)));
    h.push((String::from_str("sign"), String::from_str(sign)));
    h.push((String::from_str("nonce"), String::from_str(nonce)));
    h
}

/// One fully assembled HTTP request, ready to be sent.
pub struct Request {
    pub method: Method,
    pub uri: String,
    pub headers: Vec<(String, String)>,
    pub body: Option<String>,
}

/// Whether an assembled body agrees with the body an action calls for.
pub open spec fn body_matches(b: Option<String>, sb: Option<Seq<char>>) -> bool {
    match (b, sb) {
        (Some(x), Some(y)) => x@ == y,
        (None, None) => true,
        _ => false,
    }
}

/// Whether a request is exactly the one that `a` calls for under the given
/// credentials, timestamp and nonce. The `t` and `nonce` headers carry the
/// very values the signature in the `sign` header was computed over.
pub open spec fn request_matches(
    r: Request,
    a: Action,
    root: Seq<char>,
    token: Seq<char>,
    timestamp: int,
    nonce: Seq<char>,
    secret: Seq<char>,
) -> bool {
    &&& r.method == spec_method_for(a)
    &&& r.uri@ == spec_uri_for(root, a)
    &&& headers_match(
        r.headers@,
        token,
        timestamp,
        nonce,
        spec_signature(token, timestamp, nonce, secret),
    )
    &&& body_matches(r.body, spec_body_for(a))
}

/// Build the single request an invocation performs: sign, then assemble
/// URI, method, headers and body. Fails exactly when the secret is empty.
pub fn build_request(
    action: &Action,
    root_uri: &str,
    token: &str,
    secret: &str,
    timestamp: i64,
    nonce: &str,
) -> (r: Result<Request, SigningError>)
    ensures
        r is Ok <==> secret@.len() > 0,
        r is Err ==> r->Err_0 == SigningError::EmptyKey,
        r is Ok ==> request_matches(
            r->Ok_0,
            *action,
            root_uri@,
            token@,
            timestamp as int,
            nonce@,
            secret@,
        ),
{
    let sign = match compute_signature(token, timestamp, nonce, secret) {
        Ok(s) => s,
        Err(e) => {
            return Err(e);
        },
    };
    let uri = match action {
        Action::List => gen_list_uri(root_uri),
        Action::Status { device_id } => gen_status_uri(root_uri, device_id),
        Action::Control { device_id, .. } => gent_control_uri(root_uri, device_id),
    };
    let method = method_for(action);
    let body = match action {
        Action::Control { device_id: _, cmd, param } => Some(
            control_body(cmd.as_str(), param.as_str()),
        ),
        _ => None,
    };
    let headers = build_headers(token, timestamp, nonce, sign.as_str());
    Ok(Request { method, uri, headers, body })
}

} // verus!
