//! The Jenkins REST client's own logic: the Basic auth header, request URLs,
//! and the status ladder every response goes through.
//!
//! * 2xx -> the response
//! * 401 -> `AppError::Unauthorized`
//! * 403 -> `AppError::Forbidden`
//! * any other status -> `AppError::Status(code, body)`, the body carried in
//!   the error rather than printed.

use base64::Engine;
use vstd::prelude::*;

use crate::config::{normalize_url, normalized};
use crate::error::AppError;
use crate::text::{eq_ignore_ascii_case, eq_ignore_ascii_case_spec};

verus! {

/// Seconds after which a request gives up.
pub const DEFAULT_TIMEOUT_SECS: u64 = 10;

/// What standard Base64 (RFC 4648 alphabet, with `=` padding) makes of the
/// UTF-8 bytes of `text`.
pub uninterp spec fn base64_standard(text: Seq<char>) -> Seq<char>;

/// Whether Base64 output for `n` input bytes has a length that fits in a
/// `usize`.
pub open spec fn base64_fits(n: nat) -> bool {
    (n / 3) * 4 + (if n % 3 > 0 { 4int } else { 0int }) <= usize::MAX
}

/// Encodes the UTF-8 bytes of `text` in standard Base64.
///
/// Calls `base64::engine::general_purpose::STANDARD.encode`, which panics
/// when the encoded length overflows a `usize` (left out by `requires`); the
/// contract names its result without restating the encoding.
#[verifier::external_body]
fn base64_encode(text: &str) -> (r: String)
    requires
        base64_fits(vstd::utf8::encode_utf8(text@).len()),
    ensures
        r@ == base64_standard(text@),
{
    base64::engine::general_purpose::STANDARD.encode(text)
}

/// `user:token`, the credentials as Basic auth joins them.
pub open spec fn credentials(user: Seq<char>, token: Seq<char>) -> Seq<char> {
    user + seq![':'] + token
}

/// The `Authorization` header value for already encoded credentials.
pub fn basic_auth_value(encoded: &str) -> (r: String)
    ensures
        r@ == "Basic "@ + encoded@,
{
    let mut r = "Basic ".to_owned();
    r.append(encoded);
    r
}

/// The `Authorization` header for `user` and API `token`.
pub fn basic_auth_header(user: &str, token: &str) -> (r: String)
    requires
        base64_fits(vstd::utf8::encode_utf8(credentials(user@, token@)).len()),
    ensures
        r@ == "Basic "@ + base64_standard(credentials(user@, token@)),
{
    let mut pair = user.to_owned();
    pair.append(":");
    pair.append(token);
    proof {
        reveal_strlit(":");
        assert(":"@ =~= seq![':']);
        assert(pair@ == credentials(user@, token@));
    }
    let encoded = base64_encode(pair.as_str());
    basic_auth_value(encoded.as_str())
}

/// A client's target: the normalized base URL and the header it
/// authenticates with.
#[derive(Debug)]
pub struct Client {
    auth_header: String,
    base: String,
}

impl Client {
    /// The `Authorization` header every request carries.
    pub closed spec fn header_spec(&self) -> Seq<char> {
        self.auth_header@
    }

    /// The base URL, without trailing slashes.
    pub closed spec fn base_spec(&self) -> Seq<char> {
        self.base@
    }

    /// A client for `base` with Basic auth as `user` with API `token`.
    pub fn with_base(base: &str, user: &str, token: &str) -> (c: Client)
        requires
            base64_fits(vstd::utf8::encode_utf8(credentials(user@, token@)).len()),
        ensures
            c.header_spec() == "Basic "@ + base64_standard(credentials(user@, token@)),
            c.base_spec() == normalized(base@),
    {
        Client { auth_header: basic_auth_header(user, token), base: normalize_url(base) }
    }

    /// The `Authorization` header every request carries.
    pub fn auth_header(&self) -> (h: &str)
        ensures
            h@ == self.header_spec(),
    {
        self.auth_header.as_str()
    }

    /// The base URL, without trailing slashes.
    pub fn base(&self) -> (b: &str)
        ensures
            b@ == self.base_spec(),
    {
        self.base.as_str()
    }

    /// The absolute URL of a path relative to the base URL.
    pub fn url_for(&self, path: &str) -> (u: String)
        ensures
            u@ == self.base_spec() + path@,
    {
        let mut u = self.base.clone();
        u.append(path);
        u
    }
}

/// A successful response: status, body, and headers in the order they came,
/// each value `None` when it is not visible ASCII text.
#[derive(Debug, PartialEq, Eq)]
pub struct RawResponse {
    pub status: u16,
    pub body: String,
    pub headers: Vec<(String, Option<String>)>,
}

/// The value of the first header named `name` (ignoring ASCII case), if
/// there is one and it is text.
pub open spec fn header_spec(headers: Seq<(String, Option<String>)>, name: Seq<char>) -> Option<Seq<char>>
    decreases headers.len(),
{
    if headers.len() == 0 {
        None
    } else if eq_ignore_ascii_case_spec(headers[0].0@, name) {
        match headers[0].1 {
            Some(v) => Some(v@),
            None => None,
        }
    } else {
        header_spec(headers.drop_first(), name)
    }
}

impl RawResponse {
    /// The value of the header `name`, as `HeaderMap::get` finds it and
    /// `to_str` reads it.
    pub fn header(&self, name: &str) -> (r: Option<&str>)
        ensures
            match r {
                Some(v) => header_spec(self.headers@, name@) == Some(v@),
                None => header_spec(self.headers@, name@) is None,
            },
    {
        let mut i: usize = 0;
        assert(self.headers@.skip(0) == self.headers@);
        while i < self.headers.len()
            invariant
                0 <= i <= self.headers@.len(),
                header_spec(self.headers@, name@) == header_spec(self.headers@.skip(i as int), name@),
            decreases self.headers.len() - i,
        {
            let ghost rest = self.headers@.skip(i as int);
            assert(rest[0] == self.headers@[i as int]);
            assert(rest.drop_first() == self.headers@.skip(i + 1));
            if eq_ignore_ascii_case(self.headers[i].0.as_str(), name) {
                return match &self.headers[i].1 {
                    Some(v) => Some(v.as_str()),
                    None => None,
                };
            }
            i = i + 1;
        }
        None
    }
}

/// Whether an HTTP status is a success (2xx).
pub open spec fn is_success(status: u16) -> bool {
    200 <= status && status <= 299
}

/// Sorts a finished request by its status: 2xx gives the response, 401 and
/// 403 their own errors, any other status `Status` with the body.
pub fn check_response(status: u16, body: String, headers: Vec<(String, Option<String>)>) -> (r: Result<RawResponse, AppError>)
    ensures
        is_success(status) ==> r == Ok::<RawResponse, AppError>(RawResponse { status, body, headers }),
        status == 401 ==> r == Err::<RawResponse, AppError>(AppError::Unauthorized),
        status == 403 ==> r == Err::<RawResponse, AppError>(AppError::Forbidden),
        !is_success(status) && status != 401 && status != 403 ==> r == Err::<RawResponse, AppError>(
            AppError::Status(status, body),
        ),
{
    if 200 <= status && status <= 299 {
        Ok(RawResponse { status, body, headers })
    } else if status == 401 {
        Err(AppError::Unauthorized)
    } else if status == 403 {
        Err(AppError::Forbidden)
    } else {
        Err(AppError::Status(status, body))
    }
}

} // verus!
