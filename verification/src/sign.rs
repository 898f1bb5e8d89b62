//! The signed-request pipeline: canonical query strings, the message to be
//! signed, the HMAC-SHA256/base64 signature, and the prepared request that
//! the transport layer executes.

use vstd::prelude::*;

use crate::apikey::OkxAccountClient;
use crate::apikey::OkxPublicClient;
use crate::utils::utc_now_iso_millis;
use vstd::utf8::encode_utf8;

verus! {

/// What `ring`'s HMAC-SHA256 returns for a key and a message.
pub uninterp spec fn hmac_sha256_of(key: Seq<u8>, msg: Seq<u8>) -> Seq<u8>;

/// What `base64`'s standard-alphabet encoding returns for a byte string.
pub uninterp spec fn base64_of(bytes: Seq<u8>) -> Seq<char>;

/// Relies on `ring::hmac::sign` with `HMAC_SHA256`: the tag is a function of
/// the key and message bytes alone.
#[verifier::external_body]
fn hmac_sha256(key: &[u8], msg: &[u8]) -> (r: Vec<u8>)
    ensures
        r@ == hmac_sha256_of(key@, msg@),
{
    let hmac_key = ring::hmac::Key::new(ring::hmac::HMAC_SHA256, key);
    let tag = ring::hmac::sign(&hmac_key, msg);
    tag.as_ref().to_vec()
}

/// Relies on `base64`'s `STANDARD` engine: the encoding is a function of the
/// input bytes alone.
#[verifier::external_body]
fn base64_encode(bytes: &[u8]) -> (r: String)
    ensures
        r@ == base64_of(bytes@),
{
    base64::engine::Engine::encode(&base64::engine::general_purpose::STANDARD, bytes)
}

/// The signature of a message under a secret: base64 of the HMAC-SHA256 tag
/// over the UTF-8 bytes of both.
pub open spec fn spec_sign(secret: Seq<char>, message: Seq<char>) -> Seq<char> {
    base64_of(hmac_sha256_of(encode_utf8(secret), encode_utf8(message)))
}

/// Signing stability: the signature depends on the secret and the message
/// alone, so equal inputs sign equal on every run.
pub proof fn lemma_sign_deterministic(
    secret_a: Seq<char>,
    message_a: Seq<char>,
    secret_b: Seq<char>,
    message_b: Seq<char>,
)
    requires
        secret_a == secret_b,
        message_a == message_b,
    ensures
        spec_sign(secret_a, message_a) == spec_sign(secret_b, message_b),
{
}

/// Computes the signature of `message` under `secret_key`.
pub fn sign_message(secret_key: &str, message: &str) -> (r: String)
    ensures
        r@ == spec_sign(secret_key@, message@),
{
    let tag = hmac_sha256(secret_key.as_bytes(), message.as_bytes());
    base64_encode(tag.as_slice())
}

/// The views of a list of string pairs.
pub open spec fn pair_views(s: Seq<(String, String)>) -> Seq<(Seq<char>, Seq<char>)> {
    s.map_values(|p: (String, String)| (p.0@, p.1@))
}

/// `k1=v1&k2=v2&...` over a parameter list.
pub open spec fn spec_query_string(params: Seq<(Seq<char>, Seq<char>)>) -> Seq<char>
    decreases params.len(),
{
    if params.len() == 0 {
        Seq::<char>::empty()
    } else if params.len() == 1 {
        params[0].0 + "="@ + params[0].1
    } else {
        spec_query_string(params.drop_last()) + "&"@ + params.last().0 + "="@ + params.last().1
    }
}

/// Joins parameters into the canonical query string.
pub fn query_string(parameters: &Vec<(String, String)>) -> (r: String)
    ensures
        r@ == spec_query_string(pair_views(parameters@)),
{
    let ghost ps = pair_views(parameters@);
    let n = parameters.len();
    let mut out = String::new();
    let mut i: usize = 0;
    proof {
        assert(ps.take(0) =~= Seq::<(Seq<char>, Seq<char>)>::empty());
    }
    while i < n
        invariant
            0 <= i <= n,
            n == ps.len(),
            ps == pair_views(parameters@),
            out@ == spec_query_string(ps.take(i as int)),
        decreases n - i,
    {
        proof {
            assert(ps.take(i + 1).drop_last() =~= ps.take(i as int));
            assert(ps.take(i + 1).last() == ps[i as int]);
        }
        if i > 0 {
            out.append("&");
        }
        let entry = &parameters[i];
        out.append(entry.0.as_str());
        out.append("=");
        out.append(entry.1.as_str());
        i = i + 1;
    }
    proof {
        assert(ps.take(n as int) =~= ps);
    }
    out
}

/// The request path with its query string attached, if it has parameters.
pub open spec fn spec_get_path(path: Seq<char>, params: Seq<(Seq<char>, Seq<char>)>) -> Seq<char> {
    if params.len() == 0 {
        path
    } else {
        path + "?"@ + spec_query_string(params)
    }
}

/// Builds the path-with-query of a GET request.
pub fn build_get_path(request_path: &str, parameters: &Vec<(String, String)>) -> (r: String)
    ensures
        r@ == spec_get_path(request_path@, pair_views(parameters@)),
{
    if parameters.len() == 0 {
        request_path.to_owned()
    } else {
        let mut s = request_path.to_owned();
        s.append("?");
        let q = query_string(parameters);
        s.append(q.as_str());
        s
    }
}

/// The string a GET request signs: timestamp, method, path-with-query.
pub open spec fn spec_get_message(timestamp: Seq<char>, path_with_query: Seq<char>) -> Seq<char> {
    timestamp + "GET"@ + path_with_query
}

/// The string a POST request signs: timestamp, method, path, body.
pub open spec fn spec_post_message(timestamp: Seq<char>, path: Seq<char>, body: Seq<char>) -> Seq<
    char,
> {
    timestamp + "POST"@ + path + body
}

/// The headers of an authenticated request.
pub open spec fn spec_account_headers(
    api_key: Seq<char>,
    sign: Seq<char>,
    timestamp: Seq<char>,
    passphrase: Seq<char>,
    testnet: bool,
) -> Seq<(Seq<char>, Seq<char>)> {
    seq![
        ("OK-ACCESS-KEY"@, api_key),
        ("OK-ACCESS-SIGN"@, sign),
        ("OK-ACCESS-TIMESTAMP"@, timestamp),
        ("OK-ACCESS-PASSPHRASE"@, passphrase),
        ("Content-Type"@, "application/json; charset=UTF-8"@),
    ] + (if testnet {
        seq![("x-simulated-trading"@, "1"@)]
    } else {
        Seq::<(Seq<char>, Seq<char>)>::empty()
    })
}

/// The headers of a public request.
pub open spec fn spec_public_headers(timestamp: Seq<char>, testnet: bool) -> Seq<
    (Seq<char>, Seq<char>),
> {
    seq![
        ("OK-ACCESS-TIMESTAMP"@, timestamp),
        ("Content-Type"@, "application/json; charset=UTF-8"@),
    ] + (if testnet {
        seq![("x-simulated-trading"@, "1"@)]
    } else {
        Seq::<(Seq<char>, Seq<char>)>::empty()
    })
}

/// A fully prepared REST request: everything the transport needs, with the
/// signature already attached.
#[derive(Debug, Clone, PartialEq, Eq)]
pub struct PreparedRequest {
    /// "GET" or "POST".
    pub method: String,
    /// The request path, with the query string attached for GET.
    pub path: String,
    /// The JSON body, for POST.
    pub body: Option<String>,
    /// Header names and values, in order.
    pub headers: Vec<(String, String)>,
}

impl OkxAccountClient {
    /// The request timestamp: ISO-8601 UTC with millisecond precision.
    pub fn get_timestamp(&self) -> String {
        utc_now_iso_millis()
    }

    /// Joins parameters into the canonical query string.
    pub fn parse_params_to_str(&self, parameters: &Vec<(String, String)>) -> (r: String)
        ensures
            r@ == spec_query_string(pair_views(parameters@)),
    {
        query_string(parameters)
    }

    /// The authenticated header set for a signed request.
    pub fn create_header(&self, sign: &str, timestamp: &str) -> (r: Vec<(String, String)>)
        ensures
            pair_views(r@) == spec_account_headers(
                self.api_key@,
                sign@,
                timestamp@,
                self.passphrase@,
                self.base_config.testnet,
            ),
    {
        let mut headers: Vec<(String, String)> = Vec::new();
        headers.push(("OK-ACCESS-KEY".to_owned(), self.api_key.clone()));
        headers.push(("OK-ACCESS-SIGN".to_owned(), sign.to_owned()));
        headers.push(("OK-ACCESS-TIMESTAMP".to_owned(), timestamp.to_owned()));
        headers.push(("OK-ACCESS-PASSPHRASE".to_owned(), self.passphrase.clone()));
        headers.push(("Content-Type".to_owned(), "application/json; charset=UTF-8".to_owned()));
        if self.base_config.testnet {
            headers.push(("x-simulated-trading".to_owned(), "1".to_owned()));
        }
        proof {
            assert(pair_views(headers@) =~= spec_account_headers(
                self.api_key@,
                sign@,
                timestamp@,
                self.passphrase@,
                self.base_config.testnet,
            ));
        }
        headers
    }

    /// Prepares a signed GET request.
    pub fn prepare_get(
        &self,
        request_path: &str,
        parameters: &Vec<(String, String)>,
        timestamp: &str,
    ) -> (r: PreparedRequest)
        ensures
            r.method@ == "GET"@,
            r.path@ == spec_get_path(request_path@, pair_views(parameters@)),
            r.body is None,
            pair_views(r.headers@) == spec_account_headers(
                self.api_key@,
                spec_sign(
                    self.secret_key@,
                    spec_get_message(
                        timestamp@,
                        spec_get_path(request_path@, pair_views(parameters@)),
                    ),
                ),
                timestamp@,
                self.passphrase@,
                self.base_config.testnet,
            ),
    {
        let path = build_get_path(request_path, parameters);
        let mut message = timestamp.to_owned();
        message.append("GET");
        message.append(path.as_str());
        let sign = sign_message(self.secret_key.as_str(), message.as_str());
        let headers = self.create_header(sign.as_str(), timestamp);
        PreparedRequest { method: "GET".to_owned(), path, body: None, headers }
    }

    /// Prepares a signed POST request around an already serialised body.
    pub fn prepare_post(&self, request_path: &str, body: &str, timestamp: &str) -> (r:
        PreparedRequest)
        ensures
            r.method@ == "POST"@,
            r.path@ == request_path@,
            match r.body {
                Some(b) => b@ == body@,
                None => false,
            },
            pair_views(r.headers@) == spec_account_headers(
                self.api_key@,
                spec_sign(
                    self.secret_key@,
                    spec_post_message(timestamp@, request_path@, body@),
                ),
                timestamp@,
                self.passphrase@,
                self.base_config.testnet,
            ),
    {
        let mut message = timestamp.to_owned();
        message.append("POST");
        message.append(request_path);
        message.append(body);
        let sign = sign_message(self.secret_key.as_str(), message.as_str());
        let headers = self.create_header(sign.as_str(), timestamp);
        PreparedRequest {
            method: "POST".to_owned(),
            path: request_path.to_owned(),
            body: Some(body.to_owned()),
            headers,
        }
    }
}

impl OkxPublicClient {
    /// The request timestamp: ISO-8601 UTC with millisecond precision.
    pub fn get_timestamp(&self) -> String {
        utc_now_iso_millis()
    }

    /// Joins parameters into the canonical query string.
    pub fn parse_params_to_str(&self, parameters: &Vec<(String, String)>) -> (r: String)
        ensures
            r@ == spec_query_string(pair_views(parameters@)),
    {
        query_string(parameters)
    }

    /// The header set for a public request.
    pub fn create_header(&self, timestamp: &str) -> (r: Vec<(String, String)>)
        ensures
            pair_views(r@) == spec_public_headers(timestamp@, self.base_config.testnet),
    {
        let mut headers: Vec<(String, String)> = Vec::new();
        headers.push(("OK-ACCESS-TIMESTAMP".to_owned(), timestamp.to_owned()));
        headers.push(("Content-Type".to_owned(), "application/json; charset=UTF-8".to_owned()));
        if self.base_config.testnet {
            headers.push(("x-simulated-trading".to_owned(), "1".to_owned()));
        }
        proof {
            assert(pair_views(headers@) =~= spec_public_headers(
                timestamp@,
                self.base_config.testnet,
            ));
        }
        headers
    }

    /// Prepares a public GET request.
    pub fn prepare_get(
        &self,
        request_path: &str,
        parameters: &Vec<(String, String)>,
        timestamp: &str,
    ) -> (r: PreparedRequest)
        ensures
            r.method@ == "GET"@,
            r.path@ == spec_get_path(request_path@, pair_views(parameters@)),
            r.body is None,
            pair_views(r.headers@) == spec_public_headers(timestamp@, self.base_config.testnet),
    {
        let path = build_get_path(request_path, parameters);
        let headers = self.create_header(timestamp);
        PreparedRequest { method: "GET".to_owned(), path, body: None, headers }
    }

    /// Prepares a public POST request around an already serialised body.
    pub fn prepare_post(&self, request_path: &str, body: &str, timestamp: &str) -> (r:
        PreparedRequest)
        ensures
            r.method@ == "POST"@,
            r.path@ == request_path@,
            match r.body {
                Some(b) => b@ == body@,
                None => false,
            },
            pair_views(r.headers@) == spec_public_headers(timestamp@, self.base_config.testnet),
    {
        let headers = self.create_header(timestamp);
        PreparedRequest {
            method: "POST".to_owned(),
            path: request_path.to_owned(),
            body: Some(body.to_owned()),
            headers,
        }
    }
}

} // verus!
