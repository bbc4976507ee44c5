//! The client: its fixed base URI and token, the requests it builds, and the
//! envelope that every response body comes in.

use crate::auth::{check_token, is_token, lemma_control_is_no_token};
use crate::decode::{field, outcome, required, DecodeError, DecodeErrorView, FromJson};
use crate::error::{ConfigurationError, RequestBuildError};
use crate::json::{json_document, json_text, Json, JsonValue};
use crate::request::{HeaderView, Method, Request, RequestView};
use crate::tls::{client_config, h2, http11, TlsConfig, TlsConfigView};
use crate::uri::{
    base_builder, before_fragment, kept_path, Uri, UriBuilder, UriBuilderView, UriView,
};
use vstd::prelude::*;

verus! {

/// The envelope of a response body: a JSON object whose member `data` is
/// the answer.
#[derive(Debug, Clone, PartialEq, Eq)]
pub struct ProxmoxRes<T> {
    pub data: T,
}

impl<T: DeepView> DeepView for ProxmoxRes<T> {
    type V = ProxmoxRes<T::V>;

    open spec fn deep_view(&self) -> ProxmoxRes<T::V> {
        ProxmoxRes { data: self.data.deep_view() }
    }
}

impl<T: FromJson> FromJson for ProxmoxRes<T> {
    open spec fn decoded(doc: JsonValue) -> Result<ProxmoxRes<T::V>, DecodeErrorView> {
        match required(doc, "data"@) {
            Err(e) => Err(e),
            Ok(inner) => match T::decoded(inner) {
                Err(e) => Err(e),
                Ok(data) => Ok(ProxmoxRes { data }),
            },
        }
    }

    fn from_json(doc: &Json) -> (r: Result<ProxmoxRes<T>, DecodeError>) {
        let data = T::from_json(field(doc, "data")?)?;
        Ok(ProxmoxRes { data })
    }
}

/// What the document of a response body decodes to: the `data` of its
/// envelope, or why there is none.
pub open spec fn decoded_document<T: FromJson>(doc: JsonValue) -> Result<T::V, DecodeErrorView> {
    match ProxmoxRes::<T>::decoded(doc) {
        Ok(envelope) => Ok(envelope.data),
        Err(e) => Err(e),
    }
}

/// What a response body decodes to: `Malformed` where the bytes are no JSON
/// text, else what their document decodes to.
pub open spec fn decoded_body<T: FromJson>(bytes: Seq<u8>) -> Result<T::V, DecodeErrorView> {
    match json_document(bytes) {
        None => Err(DecodeErrorView::Malformed),
        Some(doc) => decoded_document::<T>(doc),
    }
}

/// Takes the `data` out of the envelope `doc`, decoded as a `T`. Nothing is
/// decoded in part: any mismatch fails the whole.
pub fn decode_document<T: FromJson>(doc: &Json) -> (r: Result<T, DecodeError>)
    ensures
        outcome(r) == decoded_document::<T>(doc@),
{
    match ProxmoxRes::<T>::from_json(doc) {
        Ok(envelope) => Ok(envelope.data),
        Err(e) => Err(e),
    }
}

/// Decodes a response body: reads the bytes as JSON and takes the `data`
/// out of the envelope, decoded as a `T`.
pub fn decode<T: FromJson>(bytes: &[u8]) -> (r: Result<T, DecodeError>)
    ensures
        outcome(r) == decoded_body::<T>(bytes@),
{
    match Json::from_slice(bytes) {
        Some(doc) => decode_document::<T>(&doc),
        None => Err(DecodeError::Malformed),
    }
}

/// The client of one server: a base URI and a token, both fixed when the
/// client is made, and the configuration of its TLS connector. Every request
/// is built from them; none of them changes afterwards.
#[derive(Debug)]
pub struct ProxmoxApiService {
    base: Uri,
    auth: String,
    tls: TlsConfig,
}

/// What a [`ProxmoxApiService`] holds.
pub struct ProxmoxApiServiceView {
    pub base: UriView,
    pub auth: Seq<char>,
    pub tls: TlsConfigView,
}

impl View for ProxmoxApiService {
    type V = ProxmoxApiServiceView;

    closed spec fn view(&self) -> ProxmoxApiServiceView {
        ProxmoxApiServiceView { base: self.base@, auth: self.auth@, tls: self.tls@ }
    }
}

/// The base URI that a base text gives: its scheme and its authority, with
/// the path fixed to the root.
pub open spec fn base_uri(base: Seq<char>) -> Option<UriView> {
    match base_builder(base) {
        Some(builder) => builder.built(seq!['/']),
        None => None,
    }
}

/// The client that a base text and a token give. The base is looked at
/// first.
pub open spec fn configured(base: Seq<char>, auth: Seq<char>) -> Result<
    ProxmoxApiServiceView,
    ConfigurationError,
> {
    match base_uri(base) {
        None => Err(ConfigurationError::InvalidBaseUri),
        Some(uri) => if is_token(auth) {
            Ok(ProxmoxApiServiceView { base: uri, auth, tls: client_config() })
        } else {
            Err(ConfigurationError::InvalidAuthToken)
        },
    }
}

/// The outcome of building a request, the request by what it holds.
pub open spec fn built_request(r: Result<Request, RequestBuildError>) -> Result<
    RequestView,
    RequestBuildError,
> {
    match r {
        Ok(request) => Ok(request@),
        Err(e) => Err(e),
    }
}

impl ProxmoxApiServiceView {
    /// The builder for the scheme and the authority of the base.
    pub open spec fn builder(self) -> UriBuilderView {
        UriBuilderView { scheme: self.base.scheme, authority: self.base.authority }
    }

    /// The request for `uri` that carries the token, as its only header.
    pub open spec fn authorized(self, method: Method, uri: UriView) -> RequestView {
        RequestView {
            method,
            uri,
            headers: seq![HeaderView { name: "Authorization"@, value: self.auth }],
            body: None,
        }
    }

    /// The GET request for a target that was built, or was not.
    pub open spec fn get_request_for(self, target: Option<UriView>) -> Result<
        RequestView,
        RequestBuildError,
    > {
        match target {
            None => Err(RequestBuildError::InvalidPath),
            Some(uri) => Ok(self.authorized(Method::Get, uri)),
        }
    }

    /// The POST request for a target that was built, or was not, and a body
    /// that was written, or was not. The target is looked at first.
    pub open spec fn post_request_for(self, target: Option<UriView>, body: Option<Seq<u8>>) -> Result<
        RequestView,
        RequestBuildError,
    > {
        match target {
            None => Err(RequestBuildError::InvalidPath),
            Some(uri) => match body {
                None => Err(RequestBuildError::SerializationError),
                Some(bytes) => Ok(self.authorized(Method::Post, uri).with_body(bytes)),
            },
        }
    }

    /// The GET request for `path`.
    pub open spec fn get_request(self, path: Seq<char>) -> Result<RequestView, RequestBuildError> {
        self.get_request_for(self.builder().built(path))
    }

    /// The POST request for `path` with `data` as its body.
    pub open spec fn post_request(self, path: Seq<char>, data: JsonValue) -> Result<
        RequestView,
        RequestBuildError,
    > {
        self.post_request_for(self.builder().built(path), json_text(data))
    }
}

/// What an optional URI holds.
pub open spec fn target_view(target: Option<Uri>) -> Option<UriView> {
    match target {
        Some(uri) => Some(uri@),
        None => None,
    }
}

/// What optional bytes hold.
pub open spec fn bytes_view(bytes: Option<Vec<u8>>) -> Option<Seq<u8>> {
    match bytes {
        Some(b) => Some(b@),
        None => None,
    }
}

impl ProxmoxApiService {
    #[verifier::type_invariant]
    spec fn token_is_valid(self) -> bool {
        is_token(self.auth@)
    }

    /// Makes the client of the server at `base`, with `auth` as its token.
    /// Both are checked here, not when the first request is built.
    pub fn new(base: &str, auth: &str) -> (r: Result<ProxmoxApiService, ConfigurationError>)
        ensures
            match r {
                Ok(client) => configured(base@, auth@) == Ok::<
                    ProxmoxApiServiceView,
                    ConfigurationError,
                >(client@),
                Err(e) => configured(base@, auth@) == Err::<
                    ProxmoxApiServiceView,
                    ConfigurationError,
                >(e),
            },
    {
        let tls = TlsConfig::new();
        let builder = match crate::uri::get_uri_builder(base) {
            Ok(builder) => builder,
            Err(_) => return Err(ConfigurationError::InvalidBaseUri),
        };
        proof {
            reveal_strlit("/");
            assert("/"@ =~= seq!['/']);
        }
        let base = match builder.build("/") {
            Ok(uri) => uri,
            Err(_) => return Err(ConfigurationError::InvalidBaseUri),
        };
        if !check_token(auth) {
            return Err(ConfigurationError::InvalidAuthToken);
        }
        Ok(ProxmoxApiService { base, auth: auth.to_owned(), tls })
    }

    /// The base URI.
    pub fn base(&self) -> (r: &Uri)
        ensures
            r@ == self@.base,
    {
        &self.base
    }

    /// The token. It may stand as the value of a header.
    pub fn auth(&self) -> (r: &str)
        ensures
            r@ == self@.auth,
            is_token(r@),
    {
        proof {
            use_type_invariant(self);
        }
        self.auth.as_str()
    }

    /// The configuration of the TLS connector.
    pub fn tls(&self) -> (r: &TlsConfig)
        ensures
            r@ == self@.tls,
    {
        &self.tls
    }

    /// Sets the `Authorization` header of `req` to the token.
    fn add_auth(&self, req: &mut Request)
        ensures
            final(req)@ == old(req)@.with_header("Authorization"@, self@.auth),
    {
        req.insert_header("Authorization", self.auth.as_str());
    }

    /// The builder for the scheme and the authority of the base.
    fn get_uri_builder(&self) -> (r: UriBuilder)
        ensures
            r@ == self@.builder(),
    {
        UriBuilder::from_uri(&self.base)
    }

    /// The request for `uri` that carries the token.
    fn authorized(&self, method: Method, uri: Uri) -> (r: Request)
        ensures
            r@ == self@.authorized(method, uri@),
    {
        let mut req = Request::new(method, uri);
        self.add_auth(&mut req);
        proof {
            assert(req@.headers =~= seq![
                HeaderView { name: "Authorization"@, value: self@.auth },
            ]);
        }
        req
    }

    /// The GET request for a target that was built, or was not: the request
    /// for the target, with the token, or `InvalidPath`.
    pub fn get_request_for(&self, target: Option<Uri>) -> (r: Result<Request, RequestBuildError>)
        ensures
            built_request(r) == self@.get_request_for(target_view(target)),
    {
        match target {
            Some(uri) => Ok(self.authorized(Method::Get, uri)),
            None => Err(RequestBuildError::InvalidPath),
        }
    }

    /// The POST request for a target that was built, or was not, and a body
    /// that was written, or was not: the request for the target, with the
    /// token and the body; `InvalidPath` without a target; else
    /// `SerializationError` without a body.
    pub fn post_request_for(&self, target: Option<Uri>, body: Option<Vec<u8>>) -> (r: Result<
        Request,
        RequestBuildError,
    >)
        ensures
            built_request(r) == self@.post_request_for(target_view(target), bytes_view(body)),
    {
        match target {
            Some(uri) => match body {
                Some(bytes) => Ok(self.authorized(Method::Post, uri).body(bytes)),
                None => Err(RequestBuildError::SerializationError),
            },
            None => Err(RequestBuildError::InvalidPath),
        }
    }

    /// Builds the GET request for `path`. Nothing is sent.
    pub fn make_get_request(&self, path: &str) -> (r: Result<Request, RequestBuildError>)
        ensures
            built_request(r) == self@.get_request(path@),
    {
        let target = match self.get_uri_builder().build(path) {
            Ok(uri) => Some(uri),
            Err(_) => None,
        };
        self.get_request_for(target)
    }

    /// Builds the POST request for `path`, with `data` written as JSON for
    /// its body. Nothing is sent, and no request is built in part.
    pub fn make_post_request(&self, path: &str, data: &Json) -> (r: Result<
        Request,
        RequestBuildError,
    >)
        ensures
            built_request(r) == self@.post_request(path@, data@),
    {
        match self.get_uri_builder().build(path) {
            Ok(uri) => self.post_request_for(Some(uri), data.to_vec()),
            Err(_) => self.post_request_for(None, None),
        }
    }
}

/// A client holds what it was made with: the scheme and the authority that
/// were read from the base text, with the root as path; the token, which may
/// stand in a header; and a TLS configuration that verifies nothing and
/// offers HTTP/1.1 before HTTP/2.
pub proof fn lemma_client_holds_its_configuration(base: Seq<char>, auth: Seq<char>)
    requires
        configured(base, auth) is Ok,
    ensures
        base_builder(base) is Some,
        configured(base, auth)->Ok_0.base.scheme == base_builder(base)->0.scheme,
        configured(base, auth)->Ok_0.base.authority == base_builder(base)->0.authority,
        configured(base, auth)->Ok_0.base.path_and_query == seq!['/'],
        configured(base, auth)->Ok_0.auth == auth,
        is_token(auth),
        configured(base, auth)->Ok_0.tls.insecure_skip_verify,
        configured(base, auth)->Ok_0.tls.alpn_protocols == seq![http11(), h2()],
{
    let root = seq!['/'];
    assert(root.drop_first() =~= Seq::<char>::empty());
    assert(before_fragment(root) =~= root) by {
        reveal_with_fuel(before_fragment, 2);
    }
}

/// No client is made with a token that holds a line break: where the base
/// is well-formed, the token is what fails it.
pub proof fn lemma_line_break_fails_the_token(base: Seq<char>, auth: Seq<char>)
    requires
        auth.contains('\n'),
    ensures
        configured(base, auth) is Err,
        base_uri(base) is Some ==> configured(base, auth) == Err::<
            ProxmoxApiServiceView,
            ConfigurationError,
        >(ConfigurationError::InvalidAuthToken),
{
    lemma_control_is_no_token(auth, '\n');
}

/// Every request that a client builds, GET or POST, carries the token that
/// the client was made with: it is the value of the `Authorization` header,
/// and the request has no other header.
pub proof fn lemma_requests_carry_token(
    base: Seq<char>,
    auth: Seq<char>,
    path: Seq<char>,
    data: JsonValue,
)
    requires
        configured(base, auth) is Ok,
    ensures
        configured(base, auth)->Ok_0.get_request(path) matches Ok(request) ==> {
            &&& request.header("Authorization"@) == Some(auth)
            &&& request.headers.len() == 1
        },
        configured(base, auth)->Ok_0.post_request(path, data) matches Ok(request) ==> {
            &&& request.header("Authorization"@) == Some(auth)
            &&& request.headers.len() == 1
        },
{
    let client = configured(base, auth)->Ok_0;
    assert(client.auth == auth);
    let headers = seq![HeaderView { name: "Authorization"@, value: auth }];
    assert(headers.drop_first() =~= Seq::<HeaderView>::empty());
    assert(crate::request::header_value_of(headers, "Authorization"@) == Some(auth));
}

/// The target of every request that a client builds has the scheme and the
/// authority of the client's base; its path and query are the path given
/// up to a fragment.
pub proof fn lemma_requests_keep_base(client: ProxmoxApiServiceView, path: Seq<char>, data: JsonValue)
    ensures
        client.get_request(path) matches Ok(request) ==> {
            &&& request.method == Method::Get
            &&& request.uri.scheme == client.base.scheme
            &&& request.uri.authority == client.base.authority
            &&& request.uri.path_and_query == kept_path(path)
            &&& request.body is None
        },
        client.post_request(path, data) matches Ok(request) ==> {
            &&& request.method == Method::Post
            &&& request.uri.scheme == client.base.scheme
            &&& request.uri.authority == client.base.authority
            &&& request.uri.path_and_query == kept_path(path)
            &&& request.body == json_text(data)
        },
{
}

} // verus!
