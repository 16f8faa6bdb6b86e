//! The client: credentials, request assembly and the four verbs.

use crate::credentials::Credentials;
use crate::headers::header_fields;
use crate::request::{
    assemble_headers, lemma_header_set, payload, request_fields, travels, Operation, Request,
    Verb,
};
use crate::response::{conclude, is_success, settles, ApiError, Response, TwitchResult};
use crate::text::{debug_quote, debug_quoted};
use reqwest::header::HeaderMap;
use vstd::prelude::*;

verus! {

/// A client of the API. It owns the credentials that every request carries.
#[derive(Debug)]
pub struct TwitchClient {
    cred: Credentials,
}

/// A client for the application `clientid`, without a token.
pub fn new(clientid: String) -> (client: TwitchClient)
    ensures
        client.application_id() == clientid@,
        client.token() == Seq::<char>::empty(),
{
    TwitchClient { cred: Credentials::new(clientid) }
}

impl TwitchClient {
    /// The application identifier that the client was made with.
    pub closed spec fn application_id(&self) -> Seq<char> {
        self.cred.client_id@
    }

    /// The bearer token that the next request will carry.
    pub closed spec fn token(&self) -> Seq<char> {
        self.cred.token@
    }

    /// Whether the credentials can travel in header fields at all: the
    /// debug-quoted application identifier and the token behind `OAuth` both
    /// have to be text that a header value can hold. `is_sendable` tests it.
    pub open spec fn sendable(&self) -> bool {
        travels(debug_quoted(self.application_id()), self.token())
    }

    /// The credentials in use.
    pub fn credentials(&self) -> (cred: &Credentials)
        ensures
            cred.client_id@ == self.application_id(),
            cred.token@ == self.token(),
    {
        &self.cred
    }

    /// Replaces the bearer token. Requests assembled from now on carry the
    /// new one; the application identifier stays.
    pub fn set_oauth_token(&mut self, token: &str)
        ensures
            final(self).token() == token@,
            final(self).application_id() == old(self).application_id(),
    {
        self.cred.set_token(token);
    }

    /// The header fields of the next request, or `None` where the header
    /// collection refuses the application identifier or the token.
    pub fn request_headers(&self) -> (headers: Option<HeaderMap>)
        ensures
            headers is Some <==> self.sendable(),
            headers matches Some(map) ==> header_fields(map) == request_fields(
                self.application_id(),
                self.token(),
            ),
    {
        let quoted = debug_quote(self.cred.client_id.as_str());
        assemble_headers(quoted.as_str(), self.cred.token.as_str())
    }

    /// Assembles the request that `verb` on `path` calls for: the absolute
    /// address, the header fields made from the credentials as they are now,
    /// and the payload. `None` where the credentials cannot travel in header
    /// fields.
    ///
    /// The path is appended to the API's base as it is; the caller encodes it.
    pub fn build_request(
        &self,
        verb: Verb,
        path: &str,
        body: Option<Vec<u8>>,
    ) -> (request: Option<Request>)
        ensures
            request is Some <==> self.sendable(),
            request matches Some(r) ==> r.is_for(
                verb,
                path@,
                self.application_id(),
                self.token(),
                payload(body),
            ),
    {
        match self.request_headers() {
            None => None,
            Some(headers) => {
                let url = String::from_str("https://api.twitch.tv/kraken").concat(path);
                Some(Request { verb, url, headers, body })
            },
        }
    }

    /// Whether `result` is an outcome of `verb` on `path`: some request made
    /// for this client's credentials was handed to `send`, and `result` is what
    /// the reply leads to.
    pub open spec fn completes<T, S, D>(
        &self,
        verb: Verb,
        path: Seq<char>,
        body: Option<Seq<u8>>,
        send: S,
        decode: D,
        result: TwitchResult<T>,
    ) -> bool where
        S: FnOnce(Request) -> Option<Response>,
        D: FnOnce(Vec<u8>) -> Option<T>,
    {
        exists|request: Request, reply: Option<Response>|
            {
                &&& request.is_for(verb, path, self.application_id(), self.token(), body)
                &&& #[trigger] send.ensures((request,), reply)
                &&& settles(reply, decode, result)
            }
    }

    /// Whether `send` takes every request that `verb` on `path` can produce.
    pub open spec fn can_send<S>(
        &self,
        verb: Verb,
        path: Seq<char>,
        body: Option<Seq<u8>>,
        send: S,
    ) -> bool where
        S: FnOnce(Request) -> Option<Response>,
    {
        forall|request: Request|
            request.is_for(verb, path, self.application_id(), self.token(), body)
                ==> #[trigger] send.requires((request,))
    }

    /// One round trip: assemble, send, judge the reply.
    fn exchange<T, S, D>(
        &self,
        verb: Verb,
        path: &str,
        body: Option<Vec<u8>>,
        send: S,
        decode: D,
    ) -> (result: TwitchResult<T>) where
        S: FnOnce(Request) -> Option<Response>,
        D: FnOnce(Vec<u8>) -> Option<T>,
        requires
            self.sendable(),
            self.can_send(verb, path@, payload(body), send),
            forall|bytes: Vec<u8>| decode.requires((bytes,)),
        ensures
            self.completes(verb, path@, payload(body), send, decode, result),
    {
        let request = self.build_request(verb, path, body).unwrap();
        let ghost sent = request;
        let reply = send(request);
        let result = conclude(reply, decode);
        assert(send.ensures((sent,), reply) && settles(reply, decode, result));
        result
    }

    /// Fetches the resource at `path`: a GET without a payload.
    pub fn get<T, S, D>(&self, path: &str, send: S, decode: D) -> (result: TwitchResult<T>) where
        S: FnOnce(Request) -> Option<Response>,
        D: FnOnce(Vec<u8>) -> Option<T>,
        requires
            self.sendable(),
            self.can_send(Verb::Get, path@, None, send),
            forall|bytes: Vec<u8>| decode.requires((bytes,)),
        ensures
            self.completes(Verb::Get, path@, None, send, decode, result),
    {
        self.exchange(Verb::Get, path, None, send, decode)
    }

    /// Creates a resource at `path`: a POST with `data` as its payload.
    pub fn post<T, S, D>(
        &self,
        path: &str,
        data: Vec<u8>,
        send: S,
        decode: D,
    ) -> (result: TwitchResult<T>) where
        S: FnOnce(Request) -> Option<Response>,
        D: FnOnce(Vec<u8>) -> Option<T>,
        requires
            self.sendable(),
            self.can_send(Verb::Post, path@, Some(data@), send),
            forall|bytes: Vec<u8>| decode.requires((bytes,)),
        ensures
            self.completes(Verb::Post, path@, Some(data@), send, decode, result),
    {
        self.exchange(Verb::Post, path, Some(data), send, decode)
    }

    /// Replaces the resource at `path`: a PUT with `data` as its payload.
    pub fn put<T, S, D>(
        &self,
        path: &str,
        data: Vec<u8>,
        send: S,
        decode: D,
    ) -> (result: TwitchResult<T>) where
        S: FnOnce(Request) -> Option<Response>,
        D: FnOnce(Vec<u8>) -> Option<T>,
        requires
            self.sendable(),
            self.can_send(Verb::Put, path@, Some(data@), send),
            forall|bytes: Vec<u8>| decode.requires((bytes,)),
        ensures
            self.completes(Verb::Put, path@, Some(data@), send, decode, result),
    {
        self.exchange(Verb::Put, path, Some(data), send, decode)
    }

    /// Removes the resource at `path`: a DELETE without a payload.
    pub fn delete<T, S, D>(&self, path: &str, send: S, decode: D) -> (result: TwitchResult<T>) where
        S: FnOnce(Request) -> Option<Response>,
        D: FnOnce(Vec<u8>) -> Option<T>,
        requires
            self.sendable(),
            self.can_send(Verb::Delete, path@, None, send),
            forall|bytes: Vec<u8>| decode.requires((bytes,)),
        ensures
            self.completes(Verb::Delete, path@, None, send, decode, result),
    {
        self.exchange(Verb::Delete, path, None, send, decode)
    }

    /// Tells whether the credentials can travel in header fields, which the
    /// verbs take for granted.
    pub fn is_sendable(&self) -> (ok: bool)
        ensures
            ok == self.sendable(),
    {
        self.request_headers().is_some()
    }

    /// Carries out `operation` on `path` if the credentials can be sent, and
    /// returns `None`, with nothing handed to `send`, if they cannot.
    pub fn perform<T, S, D>(
        &self,
        operation: Operation,
        path: &str,
        send: S,
        decode: D,
    ) -> (outcome: Option<TwitchResult<T>>) where
        S: FnOnce(Request) -> Option<Response>,
        D: FnOnce(Vec<u8>) -> Option<T>,
        requires
            self.can_send(operation.verb(), path@, operation.body(), send),
            forall|bytes: Vec<u8>| decode.requires((bytes,)),
        ensures
            outcome is Some <==> self.sendable(),
            outcome matches Some(result) ==> self.completes(
                operation.verb(),
                path@,
                operation.body(),
                send,
                decode,
                result,
            ),
    {
        if !self.is_sendable() {
            return None;
        }
        Some(
            match operation {
                Operation::Fetch => self.get(path, send, decode),
                Operation::Create(data) => self.post(path, data, send, decode),
                Operation::Replace(data) => self.put(path, data, send, decode),
                Operation::Remove => self.delete(path, send, decode),
            },
        )
    }
}

/// What a client that has no token yet sends. Every verb hands the transport
/// a request that is for the client as it then is; for a client without a
/// token, such a request carries `OAuth` and a space as its authorization,
/// and the debug-quoted application identifier.
pub proof fn lemma_fresh_client_request(
    client: TwitchClient,
    request: Request,
    verb: Verb,
    path: Seq<char>,
    body: Option<Seq<u8>>,
)
    requires
        client.token() == Seq::<char>::empty(),
        request.is_for(verb, path, client.application_id(), client.token(), body),
    ensures
        header_fields(request.headers)["authorization"@] == "OAuth "@,
        header_fields(request.headers)["client-id"@] == debug_quoted(client.application_id()),
{
    lemma_header_set(debug_quoted(client.application_id()), client.token());
    assert("OAuth "@ + Seq::<char>::empty() =~= "OAuth "@);
}

/// Setting a token shows in every request made afterwards, and in nothing
/// else: for a client `after` that holds `token` and the application of
/// `before`, which is how `set_oauth_token` leaves a client, a request carries
/// `OAuth`, a space and `token` as its authorization and names the application
/// as before. A request made earlier is a value of its own and keeps the
/// token it was made with.
pub proof fn lemma_request_carries_token(
    before: TwitchClient,
    after: TwitchClient,
    token: Seq<char>,
    request: Request,
    verb: Verb,
    path: Seq<char>,
    body: Option<Seq<u8>>,
)
    requires
        after.token() == token,
        after.application_id() == before.application_id(),
        request.is_for(verb, path, after.application_id(), after.token(), body),
    ensures
        header_fields(request.headers)["authorization"@] == "OAuth "@ + token,
        header_fields(request.headers)["client-id"@] == debug_quoted(before.application_id()),
{
    lemma_header_set(debug_quoted(after.application_id()), after.token());
}

/// Where the transport only ever answers with a status outside 2xx (a 404,
/// say), every verb ends in a status failure that carries that status, and
/// never in a decoded payload.
pub proof fn lemma_refused_call_fails<T, S, D>(
    client: TwitchClient,
    verb: Verb,
    path: Seq<char>,
    body: Option<Seq<u8>>,
    send: S,
    decode: D,
    result: TwitchResult<T>,
) where
    S: FnOnce(Request) -> Option<Response>,
    D: FnOnce(Vec<u8>) -> Option<T>,
    requires
        client.completes(verb, path, body, send, decode, result),
        forall|request: Request, reply: Option<Response>| #[trigger]
            send.ensures((request,), reply) ==> reply is Some && !is_success(reply->0.status),
    ensures
        result is Err,
        result->Err_0 is HttpStatusFailure,
        !is_success(result->Err_0->status),
{
}

/// Where the transport answers with success and a body, but the decoder can
/// make nothing of the body, every verb ends in a decode failure.
pub proof fn lemma_undecodable_reply_fails<T, S, D>(
    client: TwitchClient,
    verb: Verb,
    path: Seq<char>,
    body: Option<Seq<u8>>,
    send: S,
    decode: D,
    result: TwitchResult<T>,
) where
    S: FnOnce(Request) -> Option<Response>,
    D: FnOnce(Vec<u8>) -> Option<T>,
    requires
        client.completes(verb, path, body, send, decode, result),
        forall|request: Request, reply: Option<Response>| #[trigger]
            send.ensures((request,), reply) ==> reply is Some && is_success(reply->0.status)
                && reply->0.body is Some,
        forall|body: Vec<u8>, attempt: Option<T>| #[trigger]
            decode.ensures((body,), attempt) ==> attempt is None,
    ensures
        result is Err,
        result->Err_0 == ApiError::DecodeFailure,
{
}

} // verus!
