//! A request as the client assembles it, before any transport sees it.

use crate::headers::{
    header_fields, is_field_name, is_value_text, no_headers, put_header, Fields,
};
use crate::text::debug_quoted;
use reqwest::header::HeaderMap;
use vstd::prelude::*;

verus! {

/// The four operations that the API distinguishes.
#[derive(Debug, Clone, Copy, PartialEq, Eq, Structural)]
pub enum Verb {
    Get,
    Post,
    Put,
    Delete,
}

/// What a caller can ask of the API, with the serialized payload where the
/// operation carries one.
#[derive(Debug)]
pub enum Operation {
    Fetch,
    Create(Vec<u8>),
    Replace(Vec<u8>),
    Remove,
}

impl Operation {
    /// The verb that carries out the operation.
    pub open spec fn verb(self) -> Verb {
        match self {
            Operation::Fetch => Verb::Get,
            Operation::Create(_) => Verb::Post,
            Operation::Replace(_) => Verb::Put,
            Operation::Remove => Verb::Delete,
        }
    }

    /// The payload that goes with it.
    pub open spec fn body(self) -> Option<Seq<u8>> {
        match self {
            Operation::Fetch => None,
            Operation::Create(data) => Some(data@),
            Operation::Replace(data) => Some(data@),
            Operation::Remove => None,
        }
    }
}

/// All that a transport needs in order to send one request.
#[derive(Debug)]
pub struct Request {
    pub verb: Verb,
    /// Absolute address: the API's base followed by the caller's path.
    pub url: String,
    pub headers: HeaderMap,
    /// The serialized payload, for the verbs that carry one.
    pub body: Option<Vec<u8>>,
}

/// Address under which every resource of the API lives.
pub open spec fn api_base() -> Seq<char> {
    "https://api.twitch.tv/kraken"@
}

/// The four header fields of a request: `application` as the value that
/// names the application, the content type and the API version as fixed
/// values, and the token behind the word `OAuth` and a space.
pub open spec fn header_set(application: Seq<char>, token: Seq<char>) -> Fields {
    Fields::empty().insert("client-id"@, application).insert(
        "content-type"@,
        "application/json; charset=UTF-8"@,
    ).insert("accept"@, "application/vnd.twitchtv.v5+json"@).insert(
        "authorization"@,
        "OAuth "@ + token,
    )
}

/// The header fields of a request made for the application `client_id` with
/// the bearer token `token`. The application identifier travels in its
/// debug-quoted form, between double quotes.
pub open spec fn request_fields(client_id: Seq<char>, token: Seq<char>) -> Fields {
    header_set(debug_quoted(client_id), token)
}

/// Whether both values can stand in header fields.
pub open spec fn travels(application: Seq<char>, token: Seq<char>) -> bool {
    is_value_text(application) && is_value_text("OAuth "@ + token)
}

/// The bytes of a payload, if there is one.
pub open spec fn payload(body: Option<Vec<u8>>) -> Option<Seq<u8>> {
    match body {
        Some(bytes) => Some(bytes@),
        None => None,
    }
}

impl Request {
    /// Whether this request is the one that `verb` on `path` calls for, with
    /// the given credentials and payload.
    pub open spec fn is_for(
        &self,
        verb: Verb,
        path: Seq<char>,
        client_id: Seq<char>,
        token: Seq<char>,
        body: Option<Seq<u8>>,
    ) -> bool {
        &&& self.verb == verb
        &&& self.url@ == api_base() + path
        &&& header_fields(self.headers) == request_fields(client_id, token)
        &&& payload(self.body) == body
    }
}

/// The four header names are short, lower-case and made of letters and
/// hyphens.
proof fn lemma_field_names()
    ensures
        is_field_name("client-id"@),
        is_field_name("content-type"@),
        is_field_name("accept"@),
        is_field_name("authorization"@),
{
    reveal_strlit("client-id");
    reveal_strlit("content-type");
    reveal_strlit("accept");
    reveal_strlit("authorization");
}

/// The two fixed header values hold nothing that a header value may not hold.
proof fn lemma_fixed_values()
    ensures
        is_value_text("application/json; charset=UTF-8"@),
        is_value_text("application/vnd.twitchtv.v5+json"@),
{
    reveal_strlit("application/json; charset=UTF-8");
    reveal_strlit("application/vnd.twitchtv.v5+json");
}

/// Fills a header collection with the four fields of a request, given the
/// value that names the application and the token. `None` where the
/// collection refuses one of the two as a header value.
pub fn assemble_headers(application: &str, token: &str) -> (headers: Option<HeaderMap>)
    ensures
        headers is Some <==> travels(application@, token@),
        headers matches Some(map) ==> header_fields(map) == header_set(application@, token@),
{
    proof {
        lemma_field_names();
        lemma_fixed_values();
    }
    let mut oauth = String::from_str("OAuth ");
    oauth.append(token);

    let mut headers = no_headers();
    if !put_header(&mut headers, "client-id", application) {
        return None;
    }
    put_header(&mut headers, "content-type", "application/json; charset=UTF-8");
    put_header(&mut headers, "accept", "application/vnd.twitchtv.v5+json");
    if !put_header(&mut headers, "authorization", oauth.as_str()) {
        return None;
    }
    Some(headers)
}

/// What each of the four header fields of a request holds: the value that
/// names the application, the two fixed values, and the token behind `OAuth`
/// and a space. There is no fifth field.
pub proof fn lemma_header_set(application: Seq<char>, token: Seq<char>)
    ensures
        header_set(application, token).dom() =~= set![
            "client-id"@,
            "content-type"@,
            "accept"@,
            "authorization"@,
        ],
        header_set(application, token)["client-id"@] == application,
        header_set(application, token)["content-type"@] == "application/json; charset=UTF-8"@,
        header_set(application, token)["accept"@] == "application/vnd.twitchtv.v5+json"@,
        header_set(application, token)["authorization"@] == "OAuth "@ + token,
{
    reveal_strlit("client-id");
    reveal_strlit("content-type");
    reveal_strlit("accept");
    reveal_strlit("authorization");
    assert("client-id"@.len() == 9);
    assert("content-type"@.len() == 12);
    assert("accept"@.len() == 6);
    assert("authorization"@.len() == 13);
}

} // verus!
