//! The transport adapter: one HTTP round trip, and the classification of
//! the reply into body text or an error of the library.

use vstd::prelude::*;
use crate::errors::{error_for_status, is_success_status, CryptoMktErrorType, CryptoMktResult};
use crate::params::Params;

verus! {

/// What the server answered: its status code, and its body as text (`None`
/// when the body could not be read).
#[derive(Debug)]
pub struct HttpReply {
    pub status: u16,
    pub body: Option<String>,
}

/// An HTTP client. Each method performs one request with the given headers
/// and hands back the server's reply, or `None` when no reply came (the name
/// did not resolve, the connection was refused or timed out).
pub trait HttpReq {
    /// GET `url`.
    fn get(&self, url: &str, headers: &Vec<(String, String)>) -> Option<HttpReply>;

    /// POST `url` with `payload` as a URL-encoded form body.
    fn post(&self, url: &str, headers: &Vec<(String, String)>, payload: &Params) -> Option<HttpReply>;
}

/// What a reply comes to: the body text of a reply with status 200, else the
/// error that classifies it. Such a reply whose body could not be read
/// is malformed for GET and a bad request for POST; no reply at all is a bad
/// request.
pub open spec fn reply_text_model(is_get: bool, reply: Option<HttpReply>) -> Result<
    Seq<char>,
    CryptoMktErrorType,
> {
    match reply {
        None => Err(CryptoMktErrorType::BadRequest),
        Some(rep) => if is_success_status(rep.status) {
            match rep.body {
                Some(b) => Ok(b@),
                None => Err(
                    if is_get {
                        CryptoMktErrorType::MalformedResource
                    } else {
                        CryptoMktErrorType::BadRequest
                    },
                ),
            }
        } else {
            Err(error_for_status(rep.status))
        },
    }
}

/// Whether a text result agrees with its model.
pub open spec fn text_result_is(
    r: CryptoMktResult<String>,
    m: Result<Seq<char>, CryptoMktErrorType>,
) -> bool {
    match (r, m) {
        (Ok(s), Ok(t)) => s@ == t,
        (Err(a), Err(b)) => a == b,
        _ => false,
    }
}

/// The transport adapter over an HTTP client.
#[derive(Clone)]
pub struct CryptoMktRequest<C> {
    client: C,
}

impl<C: HttpReq> CryptoMktRequest<C> {
    /// An adapter that sends its requests through `client`.
    pub fn new(client: C) -> (r: Self)
        ensures
            r.client() == client,
    {
        CryptoMktRequest { client }
    }

    /// The HTTP client requests go through.
    pub closed spec fn client(&self) -> C {
        self.client
    }

    /// The error for an unsuccessful status code; `prefix` names the method
    /// the status came from.
    pub fn translate_errors(&self, prefix: &str, status: u16) -> (r: CryptoMktErrorType)
        ensures
            r == error_for_status(status),
    {
        match status {
            401 => CryptoMktErrorType::RequestUnauthorized,
            403 => CryptoMktErrorType::RequestForbidden,
            404 => CryptoMktErrorType::RequestNotFound,
            405 => CryptoMktErrorType::RequestMethodNotAllowed,
            406 => CryptoMktErrorType::RequestNotAcceptable,
            410 => CryptoMktErrorType::RequestGone,
            418 => CryptoMktErrorType::RequestTeapot,
            429 => CryptoMktErrorType::RequestTooManyRequests,
            500 => CryptoMktErrorType::RequestInternalServerError,
            503 => CryptoMktErrorType::RequestServiceUnavailable,
            _ => CryptoMktErrorType::BadRequest,
        }
    }

    /// Classifies a reply to a GET (`is_get`) or POST request.
    pub fn reply_text(&self, is_get: bool, reply: Option<HttpReply>) -> (r: CryptoMktResult<String>)
        ensures
            text_result_is(r, reply_text_model(is_get, reply)),
    {
        match reply {
            None => Err(CryptoMktErrorType::BadRequest),
            Some(rep) => {
                if rep.status == 200 {
                    match rep.body {
                        Some(b) => Ok(b),
                        None => {
                            if is_get {
                                Err(CryptoMktErrorType::MalformedResource)
                            } else {
                                Err(CryptoMktErrorType::BadRequest)
                            }
                        },
                    }
                } else if is_get {
                    Err(self.translate_errors("GET", rep.status))
                } else {
                    Err(self.translate_errors("POST", rep.status))
                }
            },
        }
    }

    /// GET `url`: the body text of a successful reply, or the error that the
    /// reply (or its absence) stands for.
    pub fn get(&self, url: &str, headers: &Vec<(String, String)>) -> (r: CryptoMktResult<String>)
        ensures
            exists|reply: Option<HttpReply>| text_result_is(r, reply_text_model(true, reply)),
    {
        let reply = self.client.get(url, headers);
        let ghost seen = reply;
        let r = self.reply_text(true, reply);
        assert(text_result_is(r, reply_text_model(true, seen)));
        r
    }

    /// POST `url` with `payload` as a form body: the body text of a
    /// successful reply, or the error that the reply (or its absence) stands
    /// for.
    pub fn post(&self, url: &str, headers: &Vec<(String, String)>, payload: &Params) -> (r:
        CryptoMktResult<String>)
        ensures
            exists|reply: Option<HttpReply>| text_result_is(r, reply_text_model(false, reply)),
    {
        let reply = self.client.post(url, headers, payload);
        let ghost seen = reply;
        let r = self.reply_text(false, reply);
        assert(text_result_is(r, reply_text_model(false, seen)));
        r
    }
}

} // verus!
