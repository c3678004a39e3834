//! The pure parts of the remote resource client: the error taxonomy, the
//! mapping from HTTP status codes into it, the versioned endpoint paths, and
//! query-string assembly. The transport itself lives outside the library
//! and hands status codes and bodies back as plain values.

use vstd::prelude::*;

use crate::models::pair_views;
use crate::strutil::{dec_string, i32_to_string};

verus! {

/// The error taxonomy of the resource client.
#[derive(Debug, Clone, PartialEq)]
pub enum ApiError {
    /// The service rejected the credentials or the token.
    Unauthorized,
    /// The resource does not exist.
    NotFound,
    /// Any other non-success status, with the response body.
    Server(String),
    /// The request never completed; the transport's description.
    Network(String),
    /// The response arrived but could not be decoded; the decoder's
    /// description.
    InvalidResponse(String),
}

/// The message shown for an error.
pub open spec fn api_error_message(e: ApiError) -> Seq<char> {
    match e {
        ApiError::Unauthorized => "Unauthorized - please login again"@,
        ApiError::NotFound => "Not found"@,
        ApiError::Server(m) => "Server error: "@ + m@,
        ApiError::Network(m) => "Network error: "@ + m@,
        ApiError::InvalidResponse(m) => "Invalid response: "@ + m@,
    }
}

impl ApiError {
    /// The error as a user-visible message.
    pub fn message(&self) -> (r: String)
        ensures
            r@ == api_error_message(*self),
    {
        match self {
            ApiError::Unauthorized => String::from_str("Unauthorized - please login again"),
            ApiError::NotFound => String::from_str("Not found"),
            ApiError::Server(m) => {
                let mut out = String::from_str("Server error: ");
                out.append(m.as_str());
                out
            },
            ApiError::Network(m) => {
                let mut out = String::from_str("Network error: ");
                out.append(m.as_str());
                out
            },
            ApiError::InvalidResponse(m) => {
                let mut out = String::from_str("Invalid response: ");
                out.append(m.as_str());
                out
            },
        }
    }
}

/// Whether a status code counts as success.
pub open spec fn is_success_status(status: int) -> bool {
    200 <= status < 300
}

/// The text of a generic server error: the status code, a separator, and
/// the response body.
pub open spec fn server_error_text(status: int, body: Seq<char>) -> Seq<char> {
    dec_string(status) + ": "@ + body
}

/// Map an HTTP status code and response body to the error taxonomy:
/// unauthorized and not-found are distinguished, any success code passes,
/// and every other code becomes a server error carrying the body.
pub fn classify_status(status: u16, body: String) -> (r: Result<(), ApiError>)
    ensures
        status == 401 ==> r == Result::<(), ApiError>::Err(ApiError::Unauthorized),
        status == 404 ==> r == Result::<(), ApiError>::Err(ApiError::NotFound),
        status != 401 && status != 404 && is_success_status(status as int) ==> r
            == Result::<(), ApiError>::Ok(()),
        status != 401 && status != 404 && !is_success_status(status as int) ==> (r matches Err(e)
            && e matches ApiError::Server(m) && m@ == server_error_text(status as int, body@)),
{
    if status == 401 {
        Err(ApiError::Unauthorized)
    } else if status == 404 {
        Err(ApiError::NotFound)
    } else if 200 <= status && status < 300 {
        Ok(())
    } else {
        let mut text = i32_to_string(status as i32);
        text.append(": ");
        text.append(body.as_str());
        Err(ApiError::Server(text))
    }
}

/// What the outside URL encoder returns for a text. Relies on
/// urlencoding::encode being a function of the text alone.
pub uninterp spec fn url_encode_of(s: Seq<char>) -> Seq<char>;

/// Relies on urlencoding::encode: percent-encodes every byte except
/// alphanumerics and `-`, `_`, `.`, `~`; the result depends on the text
/// alone, and an empty text stays empty.
#[verifier::external_body]
fn url_encode(v: &str) -> (r: String)
    ensures
        r@ == url_encode_of(v@),
        v@.len() == 0 ==> r@.len() == 0,
{
    urlencoding::encode(v).into_owned()
}

/// One query pair as text: the key, `=`, and the encoded value.
pub open spec fn query_pair_text(p: (Seq<char>, Seq<char>)) -> Seq<char> {
    p.0 + seq!['='] + url_encode_of(p.1)
}

/// A query string: the pairs' texts joined with `&`.
pub open spec fn query_string_of(pairs: Seq<(Seq<char>, Seq<char>)>) -> Seq<char>
    decreases pairs.len(),
{
    if pairs.len() == 0 {
        Seq::<char>::empty()
    } else if pairs.len() == 1 {
        query_pair_text(pairs[0])
    } else {
        query_string_of(pairs.drop_last()) + seq!['&'] + query_pair_text(pairs.last())
    }
}

/// Assemble a query string from parameters: each value is URL-encoded and
/// the pairs are joined with `&`.
pub fn query_string(params: &Vec<(&'static str, String)>) -> (r: String)
    ensures
        r@ == query_string_of(pair_views(params@)),
{
    let mut out = String::new();
    let mut i: usize = 0;
    while i < params.len()
        invariant
            i <= params@.len(),
            out@ == query_string_of(pair_views(params@).subrange(0, i as int)),
        decreases params@.len() - i,
    {
        proof {
            let views = pair_views(params@);
            let pre = views.subrange(0, i as int);
            let nxt = views.subrange(0, i as int + 1);
            assert(nxt.drop_last() =~= pre);
            assert(nxt.last() == views[i as int]);
        }
        if i > 0 {
            out.append("&");
            proof {
                reveal_strlit("&");
                assert("&"@ =~= seq!['&']);
            }
        }
        let (key, value) = (params[i].0, &params[i].1);
        out.append(key);
        out.append("=");
        proof {
            reveal_strlit("=");
            assert("="@ =~= seq!['=']);
        }
        let encoded = url_encode(value.as_str());
        out.append(encoded.as_str());
        proof {
            assert(out@ =~= query_string_of(pair_views(params@).subrange(0, i as int + 1)));
        }
        i += 1;
    }
    proof {
        assert(pair_views(params@).subrange(0, params@.len() as int) =~= pair_views(params@));
    }
    out
}

/// An endpoint with its query parameters attached: the path alone when
/// there are none, otherwise the path, `?`, and the query string.
pub fn endpoint_with_params(endpoint: &str, params: &Vec<(&'static str, String)>) -> (r: String)
    ensures
        params@.len() == 0 ==> r@ == endpoint@,
        params@.len() > 0 ==> r@ == endpoint@ + seq!['?'] + query_string_of(pair_views(params@)),
{
    let mut out = String::from_str(endpoint);
    if params.len() > 0 {
        out.append("?");
        proof {
            reveal_strlit("?");
            assert("?"@ =~= seq!['?']);
        }
        let qs = query_string(params);
        out.append(qs.as_str());
    }
    out
}

/// The full request URL: the server base, the fixed version prefix, and
/// the endpoint.
pub fn request_url(base_url: &str, endpoint: &str) -> (r: String)
    ensures
        r@ == base_url@ + "/api/v1"@ + endpoint@,
{
    let mut out = String::from_str(base_url);
    out.append("/api/v1");
    out.append(endpoint);
    out
}

/// An endpoint of a fixed collection with a record id appended, such as
/// one expense inside the expense collection.
pub fn item_path(collection: &str, id: i32) -> (r: String)
    ensures
        r@ == collection@ + seq!['/'] + dec_string(id as int),
{
    let mut out = String::from_str(collection);
    out.append("/");
    proof {
        reveal_strlit("/");
        assert("/"@ =~= seq!['/']);
    }
    let digits = i32_to_string(id);
    out.append(digits.as_str());
    out
}

/// An item endpoint with an action suffix, such as paying one expense.
pub fn item_action_path(collection: &str, id: i32, action: &str) -> (r: String)
    ensures
        r@ == collection@ + seq!['/'] + dec_string(id as int) + action@,
{
    let mut out = item_path(collection, id);
    out.append(action);
    out
}

} // verus!
