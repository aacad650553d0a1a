//! The envelope of every reply, `{status, data, pagination?}`, and the
//! decoding of a reply body into it.

use vstd::prelude::*;
use crate::errors::{CryptoMktErrorType, CryptoMktResult};
use crate::json::{
    field_of, int_or_zero_model, json_of, json_or_null, parse_json, required_model, take_field,
    take_int_or_zero, take_json_or_null, take_required, FromJson, JsonValue,
};
use crate::models::{Balance, Book, Order, OrdersInstant, Payment, Ticker, Trade};

verus! {

/// Pagination of a list reply. `previous` and `next` may be a number, a
/// string or null, as the server sends them.
#[derive(Debug)]
pub struct Pagination {
    pub limit: i32,
    pub page: i32,
    pub previous: JsonValue,
    pub next: JsonValue,
}

/// The pagination of a reply that has none.
pub open spec fn no_pagination() -> Pagination {
    Pagination { limit: 0, page: 0, previous: JsonValue::Null, next: JsonValue::Null }
}

impl Default for Pagination {
    fn default() -> (r: Pagination)
        ensures
            r == no_pagination(),
    {
        Pagination { limit: 0, page: 0, previous: JsonValue::Null, next: JsonValue::Null }
    }
}

impl DeepView for Pagination {
    type V = Pagination;

    open spec fn deep_view(&self) -> Pagination {
        *self
    }
}

impl FromJson for Pagination {
    /// An object reads as a pagination block when `limit` is an `i32`, `page`
    /// is one or absent (zero), and `next` is present; `previous` (null when
    /// absent) and `next` may hold any value.
    open spec fn json_model(j: JsonValue) -> Option<Pagination> {
        match j {
            JsonValue::Object(members) => {
                let fs = members@;
                if required_model::<i32>(fs, "limit"@) is Some && int_or_zero_model(fs, "page"@) is Some
                    && field_of(fs, "next"@) is Some {
                    Some(
                        Pagination {
                            limit: required_model::<i32>(fs, "limit"@)->0,
                            page: int_or_zero_model(fs, "page"@)->0,
                            previous: json_or_null(fs, "previous"@),
                            next: field_of(fs, "next"@)->0,
                        },
                    )
                } else {
                    None
                }
            },
            _ => None,
        }
    }

    fn from_json(j: JsonValue) -> (r: Option<Pagination>) {
        let mut fields = match j {
            JsonValue::Object(members) => members,
            _ => return None,
        };
        proof {
            reveal_strlit("limit");
            reveal_strlit("page");
            reveal_strlit("previous");
            reveal_strlit("next");
            assert("limit"@.len() == 5);
            assert("page"@.len() == 4);
            assert("previous"@.len() == 8);
            assert("next"@.len() == 4);
            assert("page"@[0] != "next"@[0]);
        }
        let limit = match take_required::<i32>(&mut fields, "limit") {
            Some(v) => v,
            None => return None,
        };
        let page = match take_int_or_zero(&mut fields, "page") {
            Some(v) => v,
            None => return None,
        };
        let previous = take_json_or_null(&mut fields, "previous");
        let next = match take_field(&mut fields, "next") {
            Some(v) => v,
            None => return None,
        };
        Some(Pagination { limit, page, previous, next })
    }
}

/// A reply of the exchange.
#[derive(Debug)]
pub struct CryptoMktResponse<T> {
    /// Informational status, such as "success".
    pub status: String,
    /// The payload, whose shape depends on the endpoint.
    pub data: T,
    /// Pagination of list replies; all zero and null when absent.
    pub pagination: Pagination,
}

/// The content of a [`CryptoMktResponse`].
pub struct ResponseView<V> {
    pub status: Seq<char>,
    pub data: V,
    pub pagination: Pagination,
}

impl<T: DeepView> DeepView for CryptoMktResponse<T> {
    type V = ResponseView<T::V>;

    open spec fn deep_view(&self) -> ResponseView<T::V> {
        ResponseView { status: self.status@, data: self.data.deep_view(), pagination: self.pagination }
    }
}

/// The pagination that the members of a reply read as: none when absent.
pub open spec fn pagination_model(fs: Seq<(String, JsonValue)>) -> Option<Pagination> {
    match field_of(fs, "pagination"@) {
        Some(p) => Pagination::json_model(p),
        None => Some(no_pagination()),
    }
}

impl<T: FromJson> FromJson for CryptoMktResponse<T> {
    /// An object reads as a reply when `status` is a string, `data` reads as
    /// a `T`, and `pagination`, if present, reads as a pagination block.
    open spec fn json_model(j: JsonValue) -> Option<ResponseView<T::V>> {
        match j {
            JsonValue::Object(members) => {
                let fs = members@;
                if required_model::<String>(fs, "status"@) is Some && required_model::<T>(
                    fs,
                    "data"@,
                ) is Some && pagination_model(fs) is Some {
                    Some(
                        ResponseView {
                            status: required_model::<String>(fs, "status"@)->0,
                            data: required_model::<T>(fs, "data"@)->0,
                            pagination: pagination_model(fs)->0,
                        },
                    )
                } else {
                    None
                }
            },
            _ => None,
        }
    }

    fn from_json(j: JsonValue) -> (r: Option<CryptoMktResponse<T>>) {
        let mut fields = match j {
            JsonValue::Object(members) => members,
            _ => return None,
        };
        proof {
            reveal_strlit("status");
            reveal_strlit("data");
            reveal_strlit("pagination");
            assert("status"@.len() == 6);
            assert("data"@.len() == 4);
            assert("pagination"@.len() == 10);
        }
        let status = match take_required::<String>(&mut fields, "status") {
            Some(v) => v,
            None => return None,
        };
        let data = match take_required::<T>(&mut fields, "data") {
            Some(v) => v,
            None => return None,
        };
        let pagination = match take_field(&mut fields, "pagination") {
            Some(p) => match Pagination::from_json(p) {
                Some(p) => p,
                None => return None,
            },
            None => Pagination::default(),
        };
        Some(CryptoMktResponse { status, data, pagination })
    }
}

/// The list of markets.
pub type MarketResponse = CryptoMktResponse<Vec<String>>;

/// The ticker of a market.
pub type TickerResponse = CryptoMktResponse<Vec<Ticker>>;

/// Active orders of the order book.
pub type BookResponse = CryptoMktResponse<Vec<Book>>;

/// Trades made in the exchange.
pub type TradeResponse = CryptoMktResponse<Vec<Trade>>;

/// A list of orders.
pub type OrderResponse = CryptoMktResponse<Vec<Order>>;

/// One order.
pub type SimpleOrderResponse = CryptoMktResponse<Order>;

/// A quote of the instant exchange.
pub type OrdersInstantResponse = CryptoMktResponse<OrdersInstant>;

/// A reply whose payload is a plain string.
pub type EmptyResponse = CryptoMktResponse<String>;

/// The balances of the user's wallets.
pub type BalanceResponse = CryptoMktResponse<Vec<Balance>>;

/// One payment order.
pub type PaymentResponse = CryptoMktResponse<Payment>;

/// A list of payment orders.
pub type PaymentListResponse = CryptoMktResponse<Vec<Payment>>;

/// What a body decodes to as a `T`: `None` when it is not JSON or does not
/// have the shape of a `T`.
pub open spec fn decoded_model<T: FromJson>(text: Seq<char>) -> Option<T::V> {
    match json_of(text) {
        Some(j) => T::json_model(j),
        None => None,
    }
}

/// Whether `r` is the outcome of decoding `text` as a `T`: the decoded value,
/// or `MalformedResource`.
pub open spec fn decodes_to<T: FromJson>(text: Seq<char>, r: CryptoMktResult<T>) -> bool {
    match decoded_model::<T>(text) {
        Some(m) => r matches Ok(v) && v.deep_view() == m,
        None => r == Err::<T, CryptoMktErrorType>(CryptoMktErrorType::MalformedResource),
    }
}

/// Decodes a reply body as a `T`.
pub fn decode_response<T: FromJson>(text: &str) -> (r: CryptoMktResult<T>)
    ensures
        decodes_to::<T>(text@, r),
{
    match parse_json(text) {
        Some(j) => match T::from_json(j) {
            Some(v) => Ok(v),
            None => Err(CryptoMktErrorType::MalformedResource),
        },
        None => Err(CryptoMktErrorType::MalformedResource),
    }
}

/// Decoding is idempotent: two decodings of the same body both succeed, with
/// structurally equal values, or both fail with the same error.
pub proof fn lemma_decoding_is_idempotent<T: FromJson>(
    text: Seq<char>,
    r1: CryptoMktResult<T>,
    r2: CryptoMktResult<T>,
)
    requires
        decodes_to::<T>(text, r1),
        decodes_to::<T>(text, r2),
    ensures
        match (r1, r2) {
            (Ok(a), Ok(b)) => a.deep_view() == b.deep_view(),
            (Err(e1), Err(e2)) => e1 == e2,
            _ => false,
        },
{
}

/// Pagination is permissive: whether a pagination block decodes does not
/// depend on `previous` at all, nor on the shape of `next`; each is kept as
/// the JSON value that was sent (`previous` null when absent), so that a
/// number, a string such as "null", and null are all accepted.
pub proof fn lemma_pagination_is_permissive(members: Vec<(String, JsonValue)>)
    ensures
        Pagination::json_model(JsonValue::Object(members)) is Some <==> (required_model::<i32>(
            members@,
            "limit"@,
        ) is Some && int_or_zero_model(members@, "page"@) is Some && field_of(members@, "next"@) is Some),
        Pagination::json_model(JsonValue::Object(members)) matches Some(p) ==> p.previous
            == json_or_null(members@, "previous"@) && Some(p.next) == field_of(members@, "next"@),
{
}

} // verus!
