//! The public entry point to the API: one call primitive over the dispatcher.

use vstd::prelude::*;
use crate::dispatcher::Api;
use crate::errors::CryptoMktResult;
use crate::json::FromJson;
use crate::params::Params;
use crate::request::{HttpReply, HttpReq};
use crate::response::CryptoMktResponse;
use crate::signature::timestamp_text;

verus! {

/// The HTTP methods of the API.
#[derive(Debug, Clone, Copy, PartialEq, Eq, Structural)]
pub enum RequestMethod {
    /// HTTP POST (always signed).
    Post,
    /// HTTP GET; the flag tells whether the endpoint is public (unsigned).
    Get(bool),
}

/// Whether requests made with `method` go to a public endpoint: a GET's flag
/// says so; a POST is always signed.
pub open spec fn is_public_method(method: RequestMethod) -> bool {
    match method {
        RequestMethod::Get(is_public) => is_public,
        RequestMethod::Post => false,
    }
}

/// Access to the exchange's API with one pair of credentials.
#[derive(Clone)]
pub struct CryptoMktApi<R> {
    i_api: Api<R>,
}

impl<R: HttpReq> CryptoMktApi<R> {
    /// The dispatcher behind this API.
    pub closed spec fn dispatcher(&self) -> Api<R> {
        self.i_api
    }

    /// A new API instance with the given credentials, whose requests go
    /// through `http_transport`.
    pub fn new(api_key: &str, secret_key: &str, http_transport: R) -> (r: Self)
        ensures
            r.dispatcher().api_key_view() == api_key@,
            r.dispatcher().secret_key_view() == secret_key@,
            r.dispatcher().domain_view() == "https://api.cryptomkt.com/"@,
            r.dispatcher().version_view() == "v1"@,
    {
        CryptoMktApi { i_api: Api::new(api_key, secret_key, http_transport) }
    }

    /// The base URL.
    pub fn domain(&self) -> (r: String)
        ensures
            r@ == self.dispatcher().domain_view(),
    {
        self.i_api.domain()
    }

    /// The API version.
    pub fn version(&self) -> (r: String)
        ensures
            r@ == self.dispatcher().version_view(),
    {
        self.i_api.api_version()
    }

    /// Requests `endpoint` with `payload`, and decodes the reply as a `T`:
    /// a GET goes to `get_edge` with its public flag, a POST to `post_edge`.
    pub fn call<T: FromJson>(&self, method: RequestMethod, endpoint: &str, payload: Params) -> (r:
        CryptoMktResult<T>)
        ensures
            exists|secs: Option<u64>, reply: Option<HttpReply>|
                #[trigger] self.dispatcher().dispatch_outcome::<T>(
                    timestamp_text(secs),
                    method is Get,
                    endpoint@,
                    payload@,
                    is_public_method(method),
                    reply,
                    r,
                ),
    {
        let ghost p = payload@;
        let r = match method {
            RequestMethod::Get(is_public) => self.i_api.get_edge(endpoint, payload, is_public),
            RequestMethod::Post => self.i_api.post_edge(endpoint, payload),
        };
        proof {
            let (secs, reply) = choose|secs: Option<u64>, reply: Option<HttpReply>|
                #[trigger] self.i_api.dispatch_outcome::<T>(
                    timestamp_text(secs),
                    method is Get,
                    endpoint@,
                    p,
                    is_public_method(method),
                    reply,
                    r,
                );
            assert(self.dispatcher().dispatch_outcome::<T>(
                timestamp_text(secs),
                method is Get,
                endpoint@,
                p,
                is_public_method(method),
                reply,
                r,
            ));
        }
        r
    }

    /// Requests `endpoint` with `payload`, and keeps the payload of the reply.
    pub(crate) fn call_for_data<T: FromJson>(
        &self,
        method: RequestMethod,
        endpoint: &str,
        payload: Params,
    ) -> (r: CryptoMktResult<T>)
        ensures
            exists|secs: Option<u64>, reply: Option<HttpReply>|
                #[trigger] self.dispatcher().data_dispatch_outcome::<T>(
                    timestamp_text(secs),
                    method is Get,
                    endpoint@,
                    payload@,
                    is_public_method(method),
                    reply,
                    r,
                ),
    {
        let ghost p = payload@;
        let resp = self.call::<CryptoMktResponse<T>>(method, endpoint, payload);
        let ghost (secs, reply) = choose|secs: Option<u64>, reply: Option<HttpReply>|
            #[trigger] self.dispatcher().dispatch_outcome::<CryptoMktResponse<T>>(
                timestamp_text(secs),
                method is Get,
                endpoint@,
                p,
                is_public_method(method),
                reply,
                resp,
            );
        let r = match resp {
            Ok(value) => Ok(value.data),
            Err(e) => Err(e),
        };
        assert(self.dispatcher().data_dispatch_outcome::<T>(
            timestamp_text(secs),
            method is Get,
            endpoint@,
            p,
            is_public_method(method),
            reply,
            r,
        ));
        r
    }
}

} // verus!
