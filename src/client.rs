//! The client: the market list, balances and payment orders.

use vstd::prelude::*;
use crate::api::{CryptoMktApi, RequestMethod};
use crate::errors::CryptoMktResult;
use crate::market::{id_params, set_param, Market};
use crate::models::{Balance, Payment};
use crate::params::{with_entry, Params};
use crate::request::{HttpReply, HttpReq};
use crate::signature::timestamp_text;
use crate::text::{signed_decimal, signed_decimal_text};

verus! {

/// The view of an optional string.
pub open spec fn opt_view(o: Option<String>) -> Option<Seq<char>> {
    match o {
        Some(s) => Some(s@),
        None => None,
    }
}

/// `s` with `k` set to `v` when there is a `v`.
pub open spec fn with_optional(
    s: Seq<(Seq<char>, Seq<char>)>,
    k: Seq<char>,
    v: Option<Seq<char>>,
) -> Seq<(Seq<char>, Seq<char>)> {
    match v {
        Some(x) => with_entry(s, k, x),
        None => s,
    }
}

/// The parameters of a new payment order: the three required ones, then
/// each optional one that is given.
pub open spec fn payment_order_model(
    to_receive: Seq<char>,
    to_receive_currency: Seq<char>,
    payment_receiver: Seq<char>,
    external_id: Option<Seq<char>>,
    callback_url: Option<Seq<char>>,
    error_url: Option<Seq<char>>,
    success_url: Option<Seq<char>>,
    refund_email: Option<Seq<char>>,
) -> Seq<(Seq<char>, Seq<char>)> {
    let base = with_entry(
        with_entry(
            with_entry(Seq::empty(), "to_receive"@, to_receive),
            "to_receive_currency"@,
            to_receive_currency,
        ),
        "payment_receiver"@,
        payment_receiver,
    );
    with_optional(
        with_optional(
            with_optional(
                with_optional(with_optional(base, "external_id"@, external_id), "callback_url"@, callback_url),
                "error_url"@,
                error_url,
            ),
            "success_url"@,
            success_url,
        ),
        "refund_email"@,
        refund_email,
    )
}

/// The parameters of a listing of payment orders: the date range, then the
/// page and the page size when given.
pub open spec fn payment_list_model(
    start_date: Seq<char>,
    end_date: Seq<char>,
    page: Option<i32>,
    limit: Option<i32>,
) -> Seq<(Seq<char>, Seq<char>)> {
    let base = with_entry(with_entry(Seq::empty(), "start_date"@, start_date), "end_date"@, end_date);
    with_optional(
        with_optional(
            base,
            "page"@,
            match page {
                Some(p) => Some(signed_decimal(p as int)),
                None => None,
            },
        ),
        "limit"@,
        match limit {
            Some(l) => Some(signed_decimal(l as int)),
            None => None,
        },
    )
}

fn set_optional(params: &mut Params, key: &str, value: Option<String>)
    ensures
        final(params)@ == with_optional(old(params)@, key@, opt_view(value)),
{
    if let Some(v) = value {
        set_param(params, key, v);
    }
}

/// The parameters of a new payment order.
pub fn payment_order_params(
    to_receive: &str,
    to_receive_currency: &str,
    payment_receiver: &str,
    external_id: Option<String>,
    callback_url: Option<String>,
    error_url: Option<String>,
    success_url: Option<String>,
    refund_email: Option<String>,
) -> (r: Params)
    ensures
        r@ == payment_order_model(
            to_receive@,
            to_receive_currency@,
            payment_receiver@,
            opt_view(external_id),
            opt_view(callback_url),
            opt_view(error_url),
            opt_view(success_url),
            opt_view(refund_email),
        ),
{
    let mut params = Params::new();
    set_param(&mut params, "to_receive", String::from_str(to_receive));
    set_param(&mut params, "to_receive_currency", String::from_str(to_receive_currency));
    set_param(&mut params, "payment_receiver", String::from_str(payment_receiver));
    set_optional(&mut params, "external_id", external_id);
    set_optional(&mut params, "callback_url", callback_url);
    set_optional(&mut params, "error_url", error_url);
    set_optional(&mut params, "success_url", success_url);
    set_optional(&mut params, "refund_email", refund_email);
    params
}

/// The parameters of a listing of payment orders.
pub fn payment_list_params(start_date: &str, end_date: &str, page: Option<i32>, limit: Option<i32>) -> (r:
    Params)
    ensures
        r@ == payment_list_model(start_date@, end_date@, page, limit),
{
    let mut params = Params::new();
    set_param(&mut params, "start_date", String::from_str(start_date));
    set_param(&mut params, "end_date", String::from_str(end_date));
    if let Some(p) = page {
        set_param(&mut params, "page", signed_decimal_text(p as i64));
    }
    if let Some(l) = limit {
        set_param(&mut params, "limit", signed_decimal_text(l as i64));
    }
    params
}

/// Whether `r` holds one market for each name of `names`, in order; none
/// when the names could not be had.
pub open spec fn markets_from<R: HttpReq>(names: CryptoMktResult<Vec<String>>, r: Seq<Market<R>>) -> bool {
    match names {
        Ok(v) => r.len() == v@.len() && forall|i: int|
            0 <= i < r.len() ==> (#[trigger] r[i]).name_view() == v@[i]@,
        Err(_) => r.len() == 0,
    }
}

/// The client of the exchange for one pair of credentials.
pub struct CryptoMktClient<R> {
    api: CryptoMktApi<R>,
}

impl<R: HttpReq + Clone> CryptoMktClient<R> {
    /// The API instance behind this client.
    pub closed spec fn api(&self) -> CryptoMktApi<R> {
        self.api
    }

    /// A client with the given credentials, whose requests go through
    /// `http_transport`.
    pub fn new(api_key: &str, secret_key: &str, http_transport: R) -> (r: Self)
        ensures
            r.api().dispatcher().api_key_view() == api_key@,
            r.api().dispatcher().secret_key_view() == secret_key@,
            r.api().dispatcher().domain_view() == "https://api.cryptomkt.com/"@,
            r.api().dispatcher().version_view() == "v1"@,
    {
        CryptoMktClient { api: CryptoMktApi::new(api_key, secret_key, http_transport) }
    }

    /// The markets of the exchange, one for each name that a public GET of
    /// `market` lists; none when the request fails.
    pub fn get_markets(&self) -> (r: Vec<Market<R>>)
        ensures
            exists|secs: Option<u64>, reply: Option<HttpReply>, names: CryptoMktResult<Vec<String>>|
                #[trigger] self.api().dispatcher().data_dispatch_outcome::<Vec<String>>(
                    timestamp_text(secs),
                    true,
                    "market"@,
                    Seq::empty(),
                    true,
                    reply,
                    names,
                ) && markets_from(names, r@),
    {
        let empty = Params::new();
        let ghost p = empty@;
        let resp = self.api.call_for_data::<Vec<String>>(RequestMethod::Get(true), "market", empty);
        let ghost names_result = resp;
        let ghost (secs, reply) = choose|secs: Option<u64>, reply: Option<HttpReply>|
            #[trigger] self.api.dispatcher().data_dispatch_outcome::<Vec<String>>(
                timestamp_text(secs),
                true,
                "market"@,
                p,
                true,
                reply,
                resp,
            );
        let mut markets: Vec<Market<R>> = Vec::new();
        if let Ok(names) = resp {
            let n = names.len();
            let mut i: usize = 0;
            while i < n
                invariant
                    n == names@.len(),
                    i <= n,
                    markets@.len() == i,
                    forall|j: int|
                        0 <= j < i ==> (#[trigger] markets@[j]).name_view() == names@[j]@,
                decreases n - i,
            {
                markets.push(Market::new(self.api.clone(), names[i].as_str()));
                i = i + 1;
            }
        }
        assert(markets_from(names_result, markets@));
        assert(self.api().dispatcher().data_dispatch_outcome::<Vec<String>>(
            timestamp_text(secs),
            true,
            "market"@,
            Seq::empty(),
            true,
            reply,
            names_result,
        ));
        markets
    }

    /// The market `name`.
    pub fn create_market(&self, name: &str) -> (r: Market<R>)
        ensures
            r.name_view() == name@,
    {
        Market::new(self.api.clone(), name)
    }

    /// The balances of the user's wallets (`balance`).
    pub fn get_balance(&self) -> (r: CryptoMktResult<Vec<Balance>>)
        ensures
            exists|secs: Option<u64>, reply: Option<HttpReply>|
                #[trigger] self.api().dispatcher().data_dispatch_outcome::<Vec<Balance>>(
                    timestamp_text(secs),
                    true,
                    "balance"@,
                    Seq::empty(),
                    false,
                    reply,
                    r,
                ),
    {
        let empty = Params::new();
        let ghost p = empty@;
        let r = self.api.call_for_data::<Vec<Balance>>(RequestMethod::Get(false), "balance", empty);
        proof {
            let (secs, reply) = choose|secs: Option<u64>, reply: Option<HttpReply>|
                #[trigger] self.api.dispatcher().data_dispatch_outcome::<Vec<Balance>>(
                    timestamp_text(secs),
                    true,
                    "balance"@,
                    p,
                    false,
                    reply,
                    r,
                );
            assert(self.api().dispatcher().data_dispatch_outcome::<Vec<Balance>>(
                timestamp_text(secs),
                true,
                "balance"@,
                Seq::empty(),
                false,
                reply,
                r,
            ));
        }
        r
    }

    /// Creates a payment order for `to_receive`, a decimal text
    /// (`payment/new_order`, with the parameters of `payment_order_params`).
    pub fn create_payment_order(
        &self,
        to_receive: &str,
        to_receive_currency: &str,
        payment_receiver: &str,
        external_id: Option<String>,
        callback_url: Option<String>,
        error_url: Option<String>,
        success_url: Option<String>,
        refund_email: Option<String>,
    ) -> (r: CryptoMktResult<Payment>)
        ensures
            exists|secs: Option<u64>, reply: Option<HttpReply>|
                #[trigger] self.api().dispatcher().data_dispatch_outcome::<Payment>(
                    timestamp_text(secs),
                    false,
                    "payment/new_order"@,
                    payment_order_model(
                        to_receive@,
                        to_receive_currency@,
                        payment_receiver@,
                        opt_view(external_id),
                        opt_view(callback_url),
                        opt_view(error_url),
                        opt_view(success_url),
                        opt_view(refund_email),
                    ),
                    false,
                    reply,
                    r,
                ),
    {
        let params = payment_order_params(
            to_receive,
            to_receive_currency,
            payment_receiver,
            external_id,
            callback_url,
            error_url,
            success_url,
            refund_email,
        );
        let ghost p = params@;
        let r = self.api.call_for_data::<Payment>(RequestMethod::Post, "payment/new_order", params);
        proof {
            let (secs, reply) = choose|secs: Option<u64>, reply: Option<HttpReply>|
                #[trigger] self.api.dispatcher().data_dispatch_outcome::<Payment>(
                    timestamp_text(secs),
                    false,
                    "payment/new_order"@,
                    p,
                    false,
                    reply,
                    r,
                );
            assert(self.api().dispatcher().data_dispatch_outcome::<Payment>(
                timestamp_text(secs),
                false,
                "payment/new_order"@,
                payment_order_model(
                        to_receive@,
                        to_receive_currency@,
                        payment_receiver@,
                        opt_view(external_id),
                        opt_view(callback_url),
                        opt_view(error_url),
                        opt_view(success_url),
                        opt_view(refund_email),
                    ),
                false,
                reply,
                r,
            ));
        }
        r
    }

    /// The status of the payment order `id` (`payment/status`).
    pub fn payment_order_status(&self, id: &str) -> (r: CryptoMktResult<Payment>)
        ensures
            exists|secs: Option<u64>, reply: Option<HttpReply>|
                #[trigger] self.api().dispatcher().data_dispatch_outcome::<Payment>(
                    timestamp_text(secs),
                    true,
                    "payment/status"@,
                    id_params(id@),
                    false,
                    reply,
                    r,
                ),
    {
        let mut params = Params::new();
        set_param(&mut params, "id", String::from_str(id));
        let ghost p = params@;
        let r = self.api.call_for_data::<Payment>(RequestMethod::Get(false), "payment/status", params);
        proof {
            let (secs, reply) = choose|secs: Option<u64>, reply: Option<HttpReply>|
                #[trigger] self.api.dispatcher().data_dispatch_outcome::<Payment>(
                    timestamp_text(secs),
                    true,
                    "payment/status"@,
                    p,
                    false,
                    reply,
                    r,
                );
            assert(self.api().dispatcher().data_dispatch_outcome::<Payment>(
                timestamp_text(secs),
                true,
                "payment/status"@,
                id_params(id@),
                false,
                reply,
                r,
            ));
        }
        r
    }

    /// The payment orders made between two dates (`payment/status`, with the
    /// parameters of `payment_list_params`).
    pub fn get_payment_orders(
        &self,
        start_date: &str,
        end_date: &str,
        page: Option<i32>,
        limit: Option<i32>,
    ) -> (r: CryptoMktResult<Vec<Payment>>)
        ensures
            exists|secs: Option<u64>, reply: Option<HttpReply>|
                #[trigger] self.api().dispatcher().data_dispatch_outcome::<Vec<Payment>>(
                    timestamp_text(secs),
                    true,
                    "payment/status"@,
                    payment_list_model(start_date@, end_date@, page, limit),
                    false,
                    reply,
                    r,
                ),
    {
        let params = payment_list_params(start_date, end_date, page, limit);
        let ghost p = params@;
        let r = self.api.call_for_data::<Vec<Payment>>(RequestMethod::Get(false), "payment/status", params);
        proof {
            let (secs, reply) = choose|secs: Option<u64>, reply: Option<HttpReply>|
                #[trigger] self.api.dispatcher().data_dispatch_outcome::<Vec<Payment>>(
                    timestamp_text(secs),
                    true,
                    "payment/status"@,
                    p,
                    false,
                    reply,
                    r,
                );
            assert(self.api().dispatcher().data_dispatch_outcome::<Vec<Payment>>(
                timestamp_text(secs),
                true,
                "payment/status"@,
                payment_list_model(start_date@, end_date@, page, limit),
                false,
                reply,
                r,
            ));
        }
        r
    }
}

} // verus!
