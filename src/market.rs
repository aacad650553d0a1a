//! One market of the exchange (such as ETHCLP) and the operations on it.

use vstd::prelude::*;
use crate::api::{CryptoMktApi, RequestMethod};
use crate::errors::{CryptoMktErrorType, CryptoMktResult};
use crate::json::FromJson;
use crate::models::{Book, Order, OrdersInstant, Ticker, Trade};
use crate::params::{with_entry, Params};
use crate::request::{HttpReply, HttpReq};
use crate::signature::timestamp_text;
use crate::text::{decimal, push_decimal};

verus! {

/// The side of an order.
#[derive(Debug, Clone, Copy, PartialEq, Eq, Structural)]
pub enum OrderType {
    Buy,
    Sell,
}

impl OrderType {
    /// The name of the side: "Buy" or "Sell".
    pub fn to_string(&self) -> (r: String)
        ensures
            r@ == (if *self is Buy {
                "Buy"@
            } else {
                "Sell"@
            }),
    {
        match self {
            OrderType::Buy => String::from_str("Buy"),
            OrderType::Sell => String::from_str("Sell"),
        }
    }

    /// The name of the side as the API takes it: "buy" or "sell".
    pub fn param_value(&self) -> (r: String)
        ensures
            r@ == side_text(*self),
    {
        match self {
            OrderType::Buy => String::from_str("buy"),
            OrderType::Sell => String::from_str("sell"),
        }
    }
}

/// The state of the user's orders to list.
#[derive(Debug, Clone, Copy, PartialEq, Eq, Structural)]
pub enum OrderState {
    Active,
    Executed,
}

/// The name of a side as the API takes it.
pub open spec fn side_text(t: OrderType) -> Seq<char> {
    if t is Buy {
        "buy"@
    } else {
        "sell"@
    }
}

/// The parameters of a ticker request.
pub open spec fn ticker_params(name: Seq<char>) -> Seq<(Seq<char>, Seq<char>)> {
    with_entry(Seq::empty(), "market"@, name)
}

/// The parameters of an order book request.
pub open spec fn book_params(name: Seq<char>, side: OrderType, page: u32, limit: u32) -> Seq<
    (Seq<char>, Seq<char>),
> {
    with_entry(
        with_entry(
            with_entry(with_entry(Seq::empty(), "market"@, name), "type"@, side_text(side)),
            "page"@,
            decimal(page as nat),
        ),
        "limit"@,
        decimal(limit as nat),
    )
}

/// The parameters of a trades request.
pub open spec fn trades_params(
    name: Seq<char>,
    start: Seq<char>,
    end: Seq<char>,
    page: u32,
    limit: u32,
) -> Seq<(Seq<char>, Seq<char>)> {
    with_entry(
        with_entry(
            with_entry(
                with_entry(with_entry(Seq::empty(), "market"@, name), "start"@, start),
                "end"@,
                end,
            ),
            "page"@,
            decimal(page as nat),
        ),
        "limit"@,
        decimal(limit as nat),
    )
}

/// The parameters of a request for the user's orders.
pub open spec fn user_orders_params(name: Seq<char>, page: u32, limit: u32) -> Seq<
    (Seq<char>, Seq<char>),
> {
    with_entry(
        with_entry(with_entry(Seq::empty(), "market"@, name), "page"@, decimal(page as nat)),
        "limit"@,
        decimal(limit as nat),
    )
}

/// The endpoint that lists the user's orders in `state`.
pub open spec fn orders_endpoint(state: OrderState) -> Seq<char> {
    if state is Active {
        "orders/active"@
    } else {
        "orders/executed"@
    }
}

/// The parameters of a new limit order.
pub open spec fn order_params(name: Seq<char>, amount: Seq<char>, price: Seq<char>, side: OrderType) -> Seq<
    (Seq<char>, Seq<char>),
> {
    with_entry(
        with_entry(
            with_entry(with_entry(Seq::empty(), "market"@, name), "amount"@, amount),
            "price"@,
            price,
        ),
        "type"@,
        side_text(side),
    )
}

/// The parameters of a request about one order or payment.
pub open spec fn id_params(id: Seq<char>) -> Seq<(Seq<char>, Seq<char>)> {
    with_entry(Seq::empty(), "id"@, id)
}

/// The parameters of an instant exchange request.
pub open spec fn instant_params(name: Seq<char>, amount: Seq<char>, side: OrderType) -> Seq<
    (Seq<char>, Seq<char>),
> {
    with_entry(
        with_entry(with_entry(Seq::empty(), "market"@, name), "amount"@, amount),
        "type"@,
        side_text(side),
    )
}

/// Whether `r` is the first element of `list`, or its error; an empty list
/// is malformed.
pub open spec fn first_item<T: FromJson>(list: CryptoMktResult<Vec<T>>, r: CryptoMktResult<T>) -> bool {
    match list {
        Err(e) => r == Err::<T, CryptoMktErrorType>(e),
        Ok(v) => if v@.len() > 0 {
            r matches Ok(x) && x.deep_view() == v@[0].deep_view()
        } else {
            r == Err::<T, CryptoMktErrorType>(CryptoMktErrorType::MalformedResource)
        },
    }
}

/// Sets the parameter `key` to `value`.
pub fn set_param(params: &mut Params, key: &str, value: String)
    ensures
        final(params)@ == with_entry(old(params)@, key@, value@),
{
    params.insert(String::from_str(key), value);
}

/// The decimal text of a page number or a page size.
pub fn number_text(n: u32) -> (r: String)
    ensures
        r@ == decimal(n as nat),
{
    let mut s = String::new();
    push_decimal(&mut s, n as u64);
    s
}

/// A market of the exchange, reached through an API instance.
pub struct Market<R> {
    api: CryptoMktApi<R>,
    name: String,
}

impl<R: HttpReq> Market<R> {
    /// The market's name.
    pub closed spec fn name_view(&self) -> Seq<char> {
        self.name@
    }

    /// The API instance the market is reached through.
    pub closed spec fn api(&self) -> CryptoMktApi<R> {
        self.api
    }

    /// The market `market_name`, reached through `api`.
    pub fn new(api: CryptoMktApi<R>, market_name: &str) -> (r: Self)
        ensures
            r.name_view() == market_name@,
            r.api() == api,
    {
        Market { api, name: String::from_str(market_name) }
    }

    /// The market's name (such as ETHCLP).
    pub fn get_name(&self) -> (r: String)
        ensures
            r@ == self.name_view(),
    {
        self.name.clone()
    }

    /// The current ticker of the market: the first of the list that the public
    /// `ticker` endpoint returns for this market.
    pub fn get_current_ticker(&self) -> (r: CryptoMktResult<Ticker>)
        ensures
            exists|secs: Option<u64>, reply: Option<HttpReply>, list: CryptoMktResult<Vec<Ticker>>|
                #[trigger] self.api().dispatcher().data_dispatch_outcome::<Vec<Ticker>>(
                    timestamp_text(secs),
                    true,
                    "ticker"@,
                    ticker_params(self.name_view()),
                    true,
                    reply,
                    list,
                ) && first_item(list, r),
    {
        let mut params = Params::new();
        set_param(&mut params, "market", self.name.clone());
        let ghost p = params@;
        let resp = self.api.call_for_data::<Vec<Ticker>>(RequestMethod::Get(true), "ticker", params);
        let ghost list = resp;
        let ghost (secs, reply) = choose|secs: Option<u64>, reply: Option<HttpReply>|
            #[trigger] self.api.dispatcher().data_dispatch_outcome::<Vec<Ticker>>(
                timestamp_text(secs),
                true,
                "ticker"@,
                p,
                true,
                reply,
                resp,
            );
        let r = match resp {
            Ok(items) => {
                let mut items = items;
                if items.len() > 0 {
                    Ok(items.remove(0))
                } else {
                    Err(CryptoMktErrorType::MalformedResource)
                }
            },
            Err(e) => Err(e),
        };
        assert(first_item(list, r));
        assert(self.api().dispatcher().data_dispatch_outcome::<Vec<Ticker>>(
            timestamp_text(secs),
            true,
            "ticker"@,
            ticker_params(self.name_view()),
            true,
            reply,
            list,
        ));
        r
    }

    /// A page of the order book on one side: a public GET of `book`.
    pub fn get_orders_book(&self, orders_type: OrderType, page: u32, limit: u32) -> (r:
        CryptoMktResult<Vec<Book>>)
        ensures
            exists|secs: Option<u64>, reply: Option<HttpReply>|
                #[trigger] self.api().dispatcher().data_dispatch_outcome::<Vec<Book>>(
                    timestamp_text(secs),
                    true,
                    "book"@,
                    book_params(self.name_view(), orders_type, page, limit),
                    true,
                    reply,
                    r,
                ),
    {
        let mut params = Params::new();
        set_param(&mut params, "market", self.name.clone());
        set_param(&mut params, "type", orders_type.param_value());
        set_param(&mut params, "page", number_text(page));
        set_param(&mut params, "limit", number_text(limit));
        let ghost p = params@;
        let r = self.api.call_for_data::<Vec<Book>>(RequestMethod::Get(true), "book", params);
        proof {
            let (secs, reply) = choose|secs: Option<u64>, reply: Option<HttpReply>|
                #[trigger] self.api.dispatcher().data_dispatch_outcome::<Vec<Book>>(
                    timestamp_text(secs),
                    true,
                    "book"@,
                    p,
                    true,
                    reply,
                    r,
                );
            assert(self.api().dispatcher().data_dispatch_outcome::<Vec<Book>>(
                timestamp_text(secs),
                true,
                "book"@,
                book_params(self.name_view(), orders_type, page, limit),
                true,
                reply,
                r,
            ));
        }
        r
    }

    /// A page of the trades made between `start` and `end`: a public GET of
    /// `trades`.
    pub fn get_trades(&self, start: &str, end: &str, page: u32, limit: u32) -> (r: CryptoMktResult<
        Vec<Trade>,
    >)
        ensures
            exists|secs: Option<u64>, reply: Option<HttpReply>|
                #[trigger] self.api().dispatcher().data_dispatch_outcome::<Vec<Trade>>(
                    timestamp_text(secs),
                    true,
                    "trades"@,
                    trades_params(self.name_view(), start@, end@, page, limit),
                    true,
                    reply,
                    r,
                ),
    {
        let mut params = Params::new();
        set_param(&mut params, "market", self.name.clone());
        set_param(&mut params, "start", String::from_str(start));
        set_param(&mut params, "end", String::from_str(end));
        set_param(&mut params, "page", number_text(page));
        set_param(&mut params, "limit", number_text(limit));
        let ghost p = params@;
        let r = self.api.call_for_data::<Vec<Trade>>(RequestMethod::Get(true), "trades", params);
        proof {
            let (secs, reply) = choose|secs: Option<u64>, reply: Option<HttpReply>|
                #[trigger] self.api.dispatcher().data_dispatch_outcome::<Vec<Trade>>(
                    timestamp_text(secs),
                    true,
                    "trades"@,
                    p,
                    true,
                    reply,
                    r,
                );
            assert(self.api().dispatcher().data_dispatch_outcome::<Vec<Trade>>(
                timestamp_text(secs),
                true,
                "trades"@,
                trades_params(self.name_view(), start@, end@, page, limit),
                true,
                reply,
                r,
            ));
        }
        r
    }

    /// A page of the user's orders in `state`: a signed GET of
    /// `orders/active` or `orders/executed`.
    pub fn get_user_orders_by_state(&self, state: OrderState, page: u32, limit: u32) -> (r:
        CryptoMktResult<Vec<Order>>)
        ensures
            exists|secs: Option<u64>, reply: Option<HttpReply>|
                #[trigger] self.api().dispatcher().data_dispatch_outcome::<Vec<Order>>(
                    timestamp_text(secs),
                    true,
                    orders_endpoint(state),
                    user_orders_params(self.name_view(), page, limit),
                    false,
                    reply,
                    r,
                ),
    {
        let mut params = Params::new();
        set_param(&mut params, "market", self.name.clone());
        set_param(&mut params, "page", number_text(page));
        set_param(&mut params, "limit", number_text(limit));
        let endpoint = match state {
            OrderState::Active => "orders/active",
            OrderState::Executed => "orders/executed",
        };
        let ghost p = params@;
        let r = self.api.call_for_data::<Vec<Order>>(RequestMethod::Get(false), endpoint, params);
        proof {
            let (secs, reply) = choose|secs: Option<u64>, reply: Option<HttpReply>|
                #[trigger] self.api.dispatcher().data_dispatch_outcome::<Vec<Order>>(
                    timestamp_text(secs),
                    true,
                    endpoint@,
                    p,
                    false,
                    reply,
                    r,
                );
            assert(self.api().dispatcher().data_dispatch_outcome::<Vec<Order>>(
                timestamp_text(secs),
                true,
                orders_endpoint(state),
                user_orders_params(self.name_view(), page, limit),
                false,
                reply,
                r,
            ));
        }
        r
    }

    /// Places a limit order of `amount` at `price`, both decimal texts: a POST
    /// to `orders/create`.
    pub fn create_order(&self, order_type: OrderType, amount: &str, price: &str) -> (r:
        CryptoMktResult<Vec<Order>>)
        ensures
            exists|secs: Option<u64>, reply: Option<HttpReply>|
                #[trigger] self.api().dispatcher().data_dispatch_outcome::<Vec<Order>>(
                    timestamp_text(secs),
                    false,
                    "orders/create"@,
                    order_params(self.name_view(), amount@, price@, order_type),
                    false,
                    reply,
                    r,
                ),
    {
        let mut params = Params::new();
        set_param(&mut params, "market", self.name.clone());
        set_param(&mut params, "amount", String::from_str(amount));
        set_param(&mut params, "price", String::from_str(price));
        set_param(&mut params, "type", order_type.param_value());
        let ghost p = params@;
        let r = self.api.call_for_data::<Vec<Order>>(RequestMethod::Post, "orders/create", params);
        proof {
            let (secs, reply) = choose|secs: Option<u64>, reply: Option<HttpReply>|
                #[trigger] self.api.dispatcher().data_dispatch_outcome::<Vec<Order>>(
                    timestamp_text(secs),
                    false,
                    "orders/create"@,
                    p,
                    false,
                    reply,
                    r,
                );
            assert(self.api().dispatcher().data_dispatch_outcome::<Vec<Order>>(
                timestamp_text(secs),
                false,
                "orders/create"@,
                order_params(self.name_view(), amount@, price@, order_type),
                false,
                reply,
                r,
            ));
        }
        r
    }

    /// The status of the order `order_id`: a signed GET of `orders/status`.
    pub fn get_order_status(&self, order_id: &str) -> (r: CryptoMktResult<Order>)
        ensures
            exists|secs: Option<u64>, reply: Option<HttpReply>|
                #[trigger] self.api().dispatcher().data_dispatch_outcome::<Order>(
                    timestamp_text(secs),
                    true,
                    "orders/status"@,
                    id_params(order_id@),
                    false,
                    reply,
                    r,
                ),
    {
        let mut params = Params::new();
        set_param(&mut params, "id", String::from_str(order_id));
        let ghost p = params@;
        let r = self.api.call_for_data::<Order>(RequestMethod::Get(false), "orders/status", params);
        proof {
            let (secs, reply) = choose|secs: Option<u64>, reply: Option<HttpReply>|
                #[trigger] self.api.dispatcher().data_dispatch_outcome::<Order>(
                    timestamp_text(secs),
                    true,
                    "orders/status"@,
                    p,
                    false,
                    reply,
                    r,
                );
            assert(self.api().dispatcher().data_dispatch_outcome::<Order>(
                timestamp_text(secs),
                true,
                "orders/status"@,
                id_params(order_id@),
                false,
                reply,
                r,
            ));
        }
        r
    }

    /// Cancels the order `order_id`: a POST to `orders/cancel`.
    pub fn cancel_order(&self, order_id: &str) -> (r: CryptoMktResult<Order>)
        ensures
            exists|secs: Option<u64>, reply: Option<HttpReply>|
                #[trigger] self.api().dispatcher().data_dispatch_outcome::<Order>(
                    timestamp_text(secs),
                    false,
                    "orders/cancel"@,
                    id_params(order_id@),
                    false,
                    reply,
                    r,
                ),
    {
        let mut params = Params::new();
        set_param(&mut params, "id", String::from_str(order_id));
        let ghost p = params@;
        let r = self.api.call_for_data::<Order>(RequestMethod::Post, "orders/cancel", params);
        proof {
            let (secs, reply) = choose|secs: Option<u64>, reply: Option<HttpReply>|
                #[trigger] self.api.dispatcher().data_dispatch_outcome::<Order>(
                    timestamp_text(secs),
                    false,
                    "orders/cancel"@,
                    p,
                    false,
                    reply,
                    r,
                );
            assert(self.api().dispatcher().data_dispatch_outcome::<Order>(
                timestamp_text(secs),
                false,
                "orders/cancel"@,
                id_params(order_id@),
                false,
                reply,
                r,
            ));
        }
        r
    }

    /// A quote of the instant exchange for `amount`, a decimal text: a signed
    /// GET of `orders/instant/get`.
    pub fn get_order_instant(&self, order_type: OrderType, amount: &str) -> (r: CryptoMktResult<
        OrdersInstant,
    >)
        ensures
            exists|secs: Option<u64>, reply: Option<HttpReply>|
                #[trigger] self.api().dispatcher().data_dispatch_outcome::<OrdersInstant>(
                    timestamp_text(secs),
                    true,
                    "orders/instant/get"@,
                    instant_params(self.name_view(), amount@, order_type),
                    false,
                    reply,
                    r,
                ),
    {
        let mut params = Params::new();
        set_param(&mut params, "market", self.name.clone());
        set_param(&mut params, "amount", String::from_str(amount));
        set_param(&mut params, "type", order_type.param_value());
        let ghost p = params@;
        let r = self.api.call_for_data::<OrdersInstant>(RequestMethod::Get(false), "orders/instant/get", params);
        proof {
            let (secs, reply) = choose|secs: Option<u64>, reply: Option<HttpReply>|
                #[trigger] self.api.dispatcher().data_dispatch_outcome::<OrdersInstant>(
                    timestamp_text(secs),
                    true,
                    "orders/instant/get"@,
                    p,
                    false,
                    reply,
                    r,
                );
            assert(self.api().dispatcher().data_dispatch_outcome::<OrdersInstant>(
                timestamp_text(secs),
                true,
                "orders/instant/get"@,
                instant_params(self.name_view(), amount@, order_type),
                false,
                reply,
                r,
            ));
        }
        r
    }

    /// Converts `amount`, a decimal text, on the instant exchange: a POST to
    /// `orders/instant/create`.
    pub fn create_order_instant(&self, order_type: OrderType, amount: &str) -> (r: CryptoMktResult<
        String,
    >)
        ensures
            exists|secs: Option<u64>, reply: Option<HttpReply>|
                #[trigger] self.api().dispatcher().data_dispatch_outcome::<String>(
                    timestamp_text(secs),
                    false,
                    "orders/instant/create"@,
                    instant_params(self.name_view(), amount@, order_type),
                    false,
                    reply,
                    r,
                ),
    {
        let mut params = Params::new();
        set_param(&mut params, "market", self.name.clone());
        set_param(&mut params, "amount", String::from_str(amount));
        set_param(&mut params, "type", order_type.param_value());
        let ghost p = params@;
        let r = self.api.call_for_data::<String>(RequestMethod::Post, "orders/instant/create", params);
        proof {
            let (secs, reply) = choose|secs: Option<u64>, reply: Option<HttpReply>|
                #[trigger] self.api.dispatcher().data_dispatch_outcome::<String>(
                    timestamp_text(secs),
                    false,
                    "orders/instant/create"@,
                    p,
                    false,
                    reply,
                    r,
                );
            assert(self.api().dispatcher().data_dispatch_outcome::<String>(
                timestamp_text(secs),
                false,
                "orders/instant/create"@,
                instant_params(self.name_view(), amount@, order_type),
                false,
                reply,
                r,
            ));
        }
        r
    }
}

} // verus!
