//! The callback listener's request handling.
//!
//! The listener itself — a loopback HTTP server that lives for the whole
//! process — belongs to the caller; every request it receives is decided
//! here, from plain values to plain values. A `GET` on the callback path
//! whose query carries a `code` parameter answers 200 with a page that
//! sends the embedding shell on to an application-internal URL carrying
//! the code, and hands the code out for the store; a `GET` on the path
//! without a code answers 400 and touches nothing; everything else
//! answers 404.

use vstd::prelude::*;
use vstd::utf8::decode_utf8;
use vstd::utf8::encode_utf8;
use vstd::utf8::valid_utf8;

use crate::encoding::str_eq;
use crate::encoding::string_of_bytes_lossy;
use crate::query::find_query_param;
use crate::query::spec_find_param;
use crate::store::TokenStore;

verus! {

/// The bytes of the query key `code`.
pub open spec fn spec_code_key() -> Seq<u8> {
    seq![0x63u8, 0x6fu8, 0x64u8, 0x65u8]
}

/// The authorization code carried by a callback request's query string,
/// as percent-decoded bytes: the value of its first `code` parameter.
pub open spec fn spec_callback_code(query: Option<Seq<char>>) -> Option<Seq<u8>> {
    match query {
        Some(q) => spec_find_param(encode_utf8(q), spec_code_key()),
        None => None,
    }
}

/// The characters of an optional query string.
pub open spec fn spec_query_view(query: Option<&str>) -> Option<Seq<char>> {
    match query {
        Some(q) => Some(q@),
        None => None,
    }
}

/// The body of a successful callback answer: a page that sends the
/// embedding shell to the application-internal callback URL carrying the
/// code.
pub open spec fn spec_success_body(code: Seq<char>) -> Seq<char> {
    "<!DOCTYPE html>\n<html>\n<head>\n<meta charset=\"UTF-8\" />\n<title>Authentication Complete</title>\n<script>\n    window.location.href = 'tauri://localhost/callback?code="@
        + code + "';\n</script>\n</head>\n<body>\n</body>\n</html>"@
}

/// What the listener answers: the HTTP status and body, and the captured
/// authorization code when the request carried one.
pub struct CallbackResponse {
    pub status: u16,
    pub body: String,
    pub code: Option<String>,
}

/// Decide one request to the callback listener.
///
/// Only `GET` on `/callback` is served. With a `code` query parameter the
/// answer is 200, the code is handed out, and the body carries it onward;
/// without one the answer is 400 with a fixed diagnostic; any other
/// method or path gets 404. The code string is exact whenever the decoded
/// parameter bytes are valid UTF-8.
pub fn handle_callback_request(method: &str, path: &str, query: Option<&str>) -> (r:
    CallbackResponse)
    ensures
        !(method@ == "GET"@ && path@ == "/callback"@) ==> r.status == 404 && r.body@
            == "Not Found"@ && r.code is None,
        method@ == "GET"@ && path@ == "/callback"@ && spec_callback_code(spec_query_view(query))
            is None ==> r.status == 400 && r.body@ == "Missing 'code' parameter."@
            && r.code is None,
        method@ == "GET"@ && path@ == "/callback"@ ==> (spec_callback_code(
            spec_query_view(query),
        ) matches Some(bs) ==> r.status == 200 && r.code is Some && (valid_utf8(bs)
            ==> r.code.unwrap()@ == decode_utf8(bs))),
        r.code matches Some(c) ==> r.status == 200 && r.body@ == spec_success_body(c@),
{
    if !(str_eq(method, "GET") && str_eq(path, "/callback")) {
        return CallbackResponse {
            status: 404,
            body: String::from_str("Not Found"),
            code: None,
        };
    }
    let code_bytes = match query {
        Some(q) => {
            let mut key: Vec<u8> = Vec::new();
            key.push(0x63);
            key.push(0x6f);
            key.push(0x64);
            key.push(0x65);
            proof {
                assert(key@ =~= spec_code_key());
            }
            find_query_param(q.as_bytes(), key.as_slice())
        },
        None => None,
    };
    match code_bytes {
        Some(bs) => {
            let code = string_of_bytes_lossy(&bs);
            let mut body = String::from_str(
                "<!DOCTYPE html>\n<html>\n<head>\n<meta charset=\"UTF-8\" />\n<title>Authentication Complete</title>\n<script>\n    window.location.href = 'tauri://localhost/callback?code=",
            );
            body.append(code.as_str());
            body.append("';\n</script>\n</head>\n<body>\n</body>\n</html>");
            proof {
                assert(body@ =~= spec_success_body(code@));
            }
            CallbackResponse { status: 200, body, code: Some(code) }
        },
        None => CallbackResponse {
            status: 400,
            body: String::from_str("Missing 'code' parameter."),
            code: None,
        },
    }
}

/// Decide one request and record a captured code in the store.
///
/// The store is written exactly when the request carried a code — last
/// write wins, and the stored value is the query's percent-decoded code
/// parameter; on a 400 or 404 answer the pending-code slot is left
/// unchanged. The credential slot is never touched. The bodies are those
/// of [`handle_callback_request`]: the success page carrying the code,
/// or the fixed diagnostics.
pub fn handle_and_store(
    store: &mut TokenStore,
    method: &str,
    path: &str,
    query: Option<&str>,
) -> (r: CallbackResponse)
    ensures
        r.status == handle_spec_status(method@, path@, spec_query_view(query)),
        r.code matches Some(c) ==> final (store).spec_pending_code() == Some(c) && r.status == 200
            && r.body@ == spec_success_body(c@),
        r.code is None ==> final (store).spec_pending_code() == old(store).spec_pending_code(),
        final (store).spec_credential() == old(store).spec_credential(),
        !(method@ == "GET"@ && path@ == "/callback"@) ==> r.code is None && r.body@
            == "Not Found"@,
        method@ == "GET"@ && path@ == "/callback"@ && spec_callback_code(spec_query_view(query))
            is None ==> r.code is None && r.body@ == "Missing 'code' parameter."@,
        method@ == "GET"@ && path@ == "/callback"@ ==> (spec_callback_code(
            spec_query_view(query),
        ) matches Some(bs) ==> r.code is Some && (valid_utf8(bs) ==> r.code.unwrap()@
            == decode_utf8(bs))),
{
    let r = handle_callback_request(method, path, query);
    match &r.code {
        Some(code) => {
            store.set_pending_code(code.clone());
        },
        None => {},
    }
    r
}

/// The status that [`handle_callback_request`] answers for a request.
pub open spec fn handle_spec_status(
    method: Seq<char>,
    path: Seq<char>,
    query: Option<Seq<char>>,
) -> u16 {
    if !(method == "GET"@ && path == "/callback"@) {
        404
    } else if spec_callback_code(query) is Some {
        200
    } else {
        400
    }
}

} // verus!
