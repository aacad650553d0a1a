//! The request dispatcher: owns the credentials, builds URLs and signed
//! headers, sends requests through the transport adapter and decodes the
//! replies.

use vstd::prelude::*;
use vstd::utf8::encode_utf8;
use crate::errors::{CryptoMktErrorType, CryptoMktResult};
use crate::json::FromJson;
use crate::params::{pairs_view, query_text, Params};
use crate::request::{reply_text_model, CryptoMktRequest, HttpReply, HttpReq};
use crate::response::{decode_response, decoded_model, decodes_to, CryptoMktResponse};
use crate::signature::{
    hmac_sha384, lemma_hex_len, signable, signature_of, signature_text, timestamp_text,
    unix_seconds, HMAC_INPUT_LIMIT,
};
use crate::text::{first_segment, first_segment_of, push_decimal, to_hex};

verus! {

/// The authentication headers of a private request: the API key, the
/// signature of the canonical string, and the timestamp it starts with.
pub open spec fn auth_headers(
    api_key: Seq<char>,
    secret: Seq<char>,
    message: Seq<char>,
) -> Seq<(Seq<char>, Seq<char>)> {
    seq![
        ("X-MKT-APIKEY"@, api_key),
        ("X-MKT-SIGNATURE"@, signature_of(secret, message)),
        ("X-MKT-TIMESTAMP"@, first_segment(message)),
    ]
}

/// Whether `r` is the outcome of a request answered by `reply` and decoded
/// as a `T`: the error the reply stands for, or the decoding of its body.
pub open spec fn edge_outcome<T: FromJson>(
    is_get: bool,
    reply: Option<HttpReply>,
    r: CryptoMktResult<T>,
) -> bool {
    match reply_text_model(is_get, reply) {
        Err(e) => r == Err::<T, CryptoMktErrorType>(e),
        Ok(text) => decodes_to::<T>(text, r),
    }
}

/// Whether `r` are the headers of a request whose canonical string is
/// `message`: none for a public endpoint; else the API key, the signature of
/// the message and the timestamp it starts with; a message too long to sign
/// is a bad request.
pub open spec fn headers_outcome(
    api_key: Seq<char>,
    secret: Seq<char>,
    message: Seq<char>,
    is_public: bool,
    r: CryptoMktResult<Vec<(String, String)>>,
) -> bool {
    if is_public {
        r matches Ok(h) && h@.len() == 0
    } else if signable(secret, message) {
        r matches Ok(h) && pairs_view(h@) == auth_headers(api_key, secret, message)
    } else {
        r == Err::<Vec<(String, String)>, CryptoMktErrorType>(CryptoMktErrorType::BadRequest)
    }
}

/// Whether `r` is the payload of the reply `reply` decoded as a
/// `CryptoMktResponse<T>`, or the error that the reply comes to.
pub open spec fn data_outcome<T: FromJson>(
    is_get: bool,
    reply: Option<HttpReply>,
    r: CryptoMktResult<T>,
) -> bool {
    match reply_text_model(is_get, reply) {
        Err(e) => r == Err::<T, CryptoMktErrorType>(e),
        Ok(text) => match decoded_model::<CryptoMktResponse<T>>(text) {
            Some(m) => r matches Ok(v) && v.deep_view() == m.data,
            None => r == Err::<T, CryptoMktErrorType>(CryptoMktErrorType::MalformedResource),
        },
    }
}

/// A request ready for the transport: its method, URL, headers, and (for a
/// POST) the form it carries.
pub struct PreparedRequest {
    pub is_get: bool,
    pub url: String,
    pub headers: Vec<(String, String)>,
    pub form: Params,
}

/// The dispatcher over an HTTP client `R`. Endpoints are relative paths of
/// the API, as `build_url` describes.
#[derive(Clone)]
pub struct Api<R> {
    api_key: String,
    secret_key: String,
    domain: String,
    api_version: String,
    req: CryptoMktRequest<R>,
}

impl<R: HttpReq> Api<R> {
    /// The API key, sent verbatim.
    pub closed spec fn api_key_view(&self) -> Seq<char> {
        self.api_key@
    }

    /// The secret key, used only to sign.
    pub closed spec fn secret_key_view(&self) -> Seq<char> {
        self.secret_key@
    }

    /// The base URL of the API.
    pub closed spec fn domain_view(&self) -> Seq<char> {
        self.domain@
    }

    /// The version segment of the API.
    pub closed spec fn version_view(&self) -> Seq<char> {
        self.api_version@
    }

    /// A dispatcher with the given credentials that sends its requests
    /// through `http_transport`, on `https://api.cryptomkt.com/`, version `v1`.
    pub fn new(api_key: &str, secret_key: &str, http_transport: R) -> (r: Self)
        ensures
            r.api_key_view() == api_key@,
            r.secret_key_view() == secret_key@,
            r.domain_view() == "https://api.cryptomkt.com/"@,
            r.version_view() == "v1"@,
    {
        Api {
            api_key: String::from_str(api_key),
            secret_key: String::from_str(secret_key),
            domain: String::from_str("https://api.cryptomkt.com/"),
            api_version: String::from_str("v1"),
            req: CryptoMktRequest::new(http_transport),
        }
    }

    /// The base URL.
    pub fn domain(&self) -> (r: String)
        ensures
            r@ == self.domain_view(),
    {
        self.domain.clone()
    }

    /// The API version.
    pub fn api_version(&self) -> (r: String)
        ensures
            r@ == self.version_view(),
    {
        self.api_version.clone()
    }

    /// The URL of `endpoint`: the domain, the version, `/`, the endpoint, and
    /// the parameters as a form-encoded query in ascending order of their
    /// names. The endpoint is appended as it is, so it must be a relative
    /// path of the API such as `orders/active`: no leading `/`, no `.` or `..`
    /// segments, and none of `?`, `#`, spaces or other characters that a URL
    /// escapes. Every endpoint this library requests is of that form.
    pub fn build_url(&self, endpoint: &str, params: &Params) -> (r: String)
        ensures
            r@ == self.domain_view() + self.version_view() + seq!['/'] + endpoint@ + query_text(
                params@,
            ),
    {
        let mut url = self.domain.clone();
        url.append(self.api_version.as_str());
        proof {
            reveal_strlit("/");
        }
        url.append("/");
        url.append(endpoint);
        params.push_query(&mut url);
        url
    }

    /// The canonical string to sign for a request made at `timestamp`.
    pub fn signature_at(&self, timestamp: &str, endpoint: &str, payload: &Params, is_get: bool) -> (r:
        String)
        ensures
            r@ == signature_text(timestamp@, self.version_view(), endpoint@, payload@, is_get),
    {
        let mut s = String::from_str(timestamp);
        proof {
            reveal_strlit("/");
        }
        s.append("/");
        s.append(self.api_version.as_str());
        s.append("/");
        s.append(endpoint);
        if !is_get {
            let values = payload.values_in_key_order();
            s.append(values.as_str());
        }
        assert(s@ =~= signature_text(timestamp@, self.version_view(), endpoint@, payload@, is_get));
        s
    }

    /// The canonical string to sign for a request made now.
    pub fn build_signature_format(&self, endpoint: &str, payload: &Params, is_get: bool) -> (r:
        String)
        ensures
            exists|secs: Option<u64>|
                r@ == signature_text(
                    timestamp_text(secs),
                    self.version_view(),
                    endpoint@,
                    payload@,
                    is_get,
                ),
    {
        let secs = unix_seconds();
        let stamp = timestamp_string(secs);
        let r = self.signature_at(stamp.as_str(), endpoint, payload, is_get);
        assert(r@ == signature_text(
            timestamp_text(secs),
            self.version_view(),
            endpoint@,
            payload@,
            is_get,
        ));
        r
    }

    /// The signature of `msg` under the secret key: 96 lowercase hex digits.
    pub fn sign_msg(&self, msg: &str) -> (r: String)
        requires
            signable(self.secret_key_view(), msg@),
        ensures
            r@ == signature_of(self.secret_key_view(), msg@),
            r@.len() == 96,
    {
        let tag = hmac_sha384(self.secret_key.as_str(), msg);
        proof {
            lemma_hex_len(tag@);
        }
        to_hex(&tag)
    }

    /// The URL of `endpoint` with `params` as its query.
    pub open spec fn url_for(&self, endpoint: Seq<char>, params: Seq<(Seq<char>, Seq<char>)>) -> Seq<
        char,
    > {
        self.domain_view() + self.version_view() + seq!['/'] + endpoint + query_text(params)
    }

    /// The canonical string of a request made at `timestamp`.
    pub open spec fn message_for(
        &self,
        timestamp: Seq<char>,
        endpoint: Seq<char>,
        params: Seq<(Seq<char>, Seq<char>)>,
        is_get: bool,
    ) -> Seq<char> {
        signature_text(timestamp, self.version_view(), endpoint, params, is_get)
    }

    /// Whether the request is private and its canonical string too long to
    /// sign, so that it is refused before it is sent.
    pub open spec fn unsignable(
        &self,
        timestamp: Seq<char>,
        is_get: bool,
        endpoint: Seq<char>,
        params: Seq<(Seq<char>, Seq<char>)>,
        is_public: bool,
    ) -> bool {
        !is_public && !signable(
            self.secret_key_view(),
            self.message_for(timestamp, endpoint, params, is_get),
        )
    }

    /// Whether `r` is the request to send for a GET (`is_get`) or POST of
    /// `params` to `endpoint` at `timestamp`: a GET carries the parameters in
    /// its URL, a POST in its form; a private request carries the
    /// authentication headers, a public one none.
    pub open spec fn prepared_as(
        &self,
        timestamp: Seq<char>,
        is_get: bool,
        endpoint: Seq<char>,
        params: Seq<(Seq<char>, Seq<char>)>,
        is_public: bool,
        r: CryptoMktResult<PreparedRequest>,
    ) -> bool {
        let message = self.message_for(timestamp, endpoint, params, is_get);
        if self.unsignable(timestamp, is_get, endpoint, params, is_public) {
            r == Err::<PreparedRequest, CryptoMktErrorType>(CryptoMktErrorType::BadRequest)
        } else {
            r matches Ok(p) && p.is_get == is_get && p.url@ == self.url_for(
                endpoint,
                if is_get {
                    params
                } else {
                    Seq::empty()
                },
            ) && pairs_view(p.headers@) == (if is_public {
                Seq::empty()
            } else {
                auth_headers(self.api_key_view(), self.secret_key_view(), message)
            }) && p.form@ == params
        }
    }

    /// Whether `r` is the outcome of that request decoded as a `T`, when the
    /// transport answered `reply`.
    pub open spec fn dispatch_outcome<T: FromJson>(
        &self,
        timestamp: Seq<char>,
        is_get: bool,
        endpoint: Seq<char>,
        params: Seq<(Seq<char>, Seq<char>)>,
        is_public: bool,
        reply: Option<HttpReply>,
        r: CryptoMktResult<T>,
    ) -> bool {
        if self.unsignable(timestamp, is_get, endpoint, params, is_public) {
            r == Err::<T, CryptoMktErrorType>(CryptoMktErrorType::BadRequest)
        } else {
            edge_outcome::<T>(is_get, reply, r)
        }
    }

    /// Whether `r` is the payload of that request's reply, decoded as a
    /// `CryptoMktResponse<T>`, when the transport answered `reply`.
    pub open spec fn data_dispatch_outcome<T: FromJson>(
        &self,
        timestamp: Seq<char>,
        is_get: bool,
        endpoint: Seq<char>,
        params: Seq<(Seq<char>, Seq<char>)>,
        is_public: bool,
        reply: Option<HttpReply>,
        r: CryptoMktResult<T>,
    ) -> bool {
        if self.unsignable(timestamp, is_get, endpoint, params, is_public) {
            r == Err::<T, CryptoMktErrorType>(CryptoMktErrorType::BadRequest)
        } else {
            data_outcome::<T>(is_get, reply, r)
        }
    }

    /// The headers of a request made at `timestamp`.
    pub fn headers_at(
        &self,
        timestamp: &str,
        endpoint: &str,
        payload: &Params,
        is_public: bool,
        is_get: bool,
    ) -> (r: CryptoMktResult<Vec<(String, String)>>)
        ensures
            headers_outcome(
                self.api_key_view(),
                self.secret_key_view(),
                self.message_for(timestamp@, endpoint@, payload@, is_get),
                is_public,
                r,
            ),
    {
        let mut headers: Vec<(String, String)> = Vec::new();
        if is_public {
            return Ok(headers);
        }
        let msg = self.signature_at(timestamp, endpoint, payload, is_get);
        let secret_len = self.secret_key.as_str().as_bytes().len();
        let msg_len = msg.as_str().as_bytes().len();
        if secret_len as u64 >= HMAC_INPUT_LIMIT || msg_len as u64 >= HMAC_INPUT_LIMIT {
            return Err(CryptoMktErrorType::BadRequest);
        }
        let signature = self.sign_msg(msg.as_str());
        let stamp = first_segment_of(msg.as_str());
        headers.push((String::from_str("X-MKT-APIKEY"), self.api_key.clone()));
        headers.push((String::from_str("X-MKT-SIGNATURE"), signature));
        headers.push((String::from_str("X-MKT-TIMESTAMP"), stamp));
        assert(pairs_view(headers@) =~= auth_headers(
            self.api_key_view(),
            self.secret_key_view(),
            msg@,
        ));
        Ok(headers)
    }

    /// The headers of a request made now: for some reading of the clock,
    /// those of a request made at its timestamp.
    pub fn build_headers(&self, endpoint: &str, payload: &Params, is_public: bool, is_get: bool) -> (r:
        CryptoMktResult<Vec<(String, String)>>)
        ensures
            exists|secs: Option<u64>|
                #[trigger] headers_outcome(
                    self.api_key_view(),
                    self.secret_key_view(),
                    self.message_for(timestamp_text(secs), endpoint@, payload@, is_get),
                    is_public,
                    r,
                ),
    {
        let secs = unix_seconds();
        let stamp = timestamp_string(secs);
        let r = self.headers_at(stamp.as_str(), endpoint, payload, is_public, is_get);
        assert(headers_outcome(
            self.api_key_view(),
            self.secret_key_view(),
            self.message_for(timestamp_text(secs), endpoint@, payload@, is_get),
            is_public,
            r,
        ));
        r
    }

    /// The request to send for a GET (`is_get`) or POST of `params` to
    /// `endpoint`, made at `timestamp`.
    pub fn prepare(
        &self,
        timestamp: &str,
        is_get: bool,
        endpoint: &str,
        params: Params,
        is_public: bool,
    ) -> (r: CryptoMktResult<PreparedRequest>)
        ensures
            self.prepared_as(timestamp@, is_get, endpoint@, params@, is_public, r),
    {
        let headers = match self.headers_at(timestamp, endpoint, &params, is_public, is_get) {
            Ok(h) => h,
            Err(e) => {
                return Err(e);
            },
        };
        let url = if is_get {
            self.build_url(endpoint, &params)
        } else {
            self.build_url(endpoint, &Params::new())
        };
        if is_public {
            assert(pairs_view(headers@) =~= Seq::<(Seq<char>, Seq<char>)>::empty());
        }
        Ok(PreparedRequest { is_get, url, headers, form: params })
    }

    /// Hands `request` to the transport as it is, and decodes the reply as a
    /// `T`.
    pub fn send<T: FromJson>(&self, request: PreparedRequest) -> (r: CryptoMktResult<T>)
        ensures
            exists|reply: Option<HttpReply>| #[trigger] edge_outcome::<T>(request.is_get, reply, r),
    {
        let is_get = request.is_get;
        let text = if is_get {
            self.req.get(request.url.as_str(), &request.headers)
        } else {
            self.req.post(request.url.as_str(), &request.headers, &request.form)
        };
        let ghost reply = choose|reply: Option<HttpReply>|
            crate::request::text_result_is(text, reply_text_model(is_get, reply));
        match text {
            Ok(t) => {
                let r = decode_response::<T>(t.as_str());
                assert(edge_outcome::<T>(is_get, reply, r));
                r
            },
            Err(e) => {
                assert(edge_outcome::<T>(is_get, reply, Err(e)));
                Err(e)
            },
        }
    }

    /// GET `endpoint` with `params` as its query, signed unless `is_public`,
    /// and decode the reply as a `T`. The request is the one `prepare` makes
    /// for the clock's timestamp, handed to the transport unchanged.
    pub fn get_edge<T: FromJson>(&self, endpoint: &str, params: Params, is_public: bool) -> (r:
        CryptoMktResult<T>)
        ensures
            exists|secs: Option<u64>, reply: Option<HttpReply>|
                #[trigger] self.dispatch_outcome::<T>(
                    timestamp_text(secs),
                    true,
                    endpoint@,
                    params@,
                    is_public,
                    reply,
                    r,
                ),
    {
        self.dispatch(true, endpoint, params, is_public)
    }

    /// POST `payload` to `endpoint` as a signed form, and decode the reply as
    /// a `T`. The request is the one `prepare` makes for the clock's
    /// timestamp, handed to the transport unchanged.
    pub fn post_edge<T: FromJson>(&self, endpoint: &str, payload: Params) -> (r: CryptoMktResult<T>)
        ensures
            exists|secs: Option<u64>, reply: Option<HttpReply>|
                #[trigger] self.dispatch_outcome::<T>(
                    timestamp_text(secs),
                    false,
                    endpoint@,
                    payload@,
                    false,
                    reply,
                    r,
                ),
    {
        self.dispatch(false, endpoint, payload, false)
    }

    fn dispatch<T: FromJson>(&self, is_get: bool, endpoint: &str, params: Params, is_public: bool) -> (r:
        CryptoMktResult<T>)
        ensures
            exists|secs: Option<u64>, reply: Option<HttpReply>|
                #[trigger] self.dispatch_outcome::<T>(
                    timestamp_text(secs),
                    is_get,
                    endpoint@,
                    params@,
                    is_public,
                    reply,
                    r,
                ),
    {
        let ghost p = params@;
        let secs = unix_seconds();
        let stamp = timestamp_string(secs);
        match self.prepare(stamp.as_str(), is_get, endpoint, params, is_public) {
            Err(e) => {
                assert(self.dispatch_outcome::<T>(
                    timestamp_text(secs),
                    is_get,
                    endpoint@,
                    p,
                    is_public,
                    None,
                    Err(e),
                ));
                Err(e)
            },
            Ok(request) => {
                let r = self.send::<T>(request);
                let ghost reply = choose|reply: Option<HttpReply>|
                    #[trigger] edge_outcome::<T>(is_get, reply, r);
                assert(self.dispatch_outcome::<T>(
                    timestamp_text(secs),
                    is_get,
                    endpoint@,
                    p,
                    is_public,
                    reply,
                    r,
                ));
                r
            },
        }
    }
}

/// The timestamp text of a clock reading.
pub fn timestamp_string(secs: Option<u64>) -> (r: String)
    ensures
        r@ == timestamp_text(secs),
{
    let mut s = String::new();
    if let Some(n) = secs {
        push_decimal(&mut s, n);
    }
    s
}

} // verus!
