use cryptomkt::json::parse_i32;
use cryptomkt::response::{decode_response, BookResponse, MarketResponse, OrderResponse, Pagination};
use cryptomkt::text::{signed_decimal_text, str_lt, to_hex};
use cryptomkt::{
    Api, CryptoMktApi, CryptoMktClient, CryptoMktErrorType, CryptoMktRequest, HttpReply, HttpReq,
    JsonValue, OrderType, Params, RequestMethod,
};
use std::cell::RefCell;
use std::rc::Rc;

/// A transport that answers every request with one fixed reply (or none),
/// and records the URL, headers and form of the last request.
#[derive(Clone)]
struct FixedReply {
    status: u16,
    body: Option<String>,
    reachable: bool,
    seen: Rc<RefCell<Vec<(String, Vec<(String, String)>, Vec<(String, String)>)>>>,
}

impl FixedReply {
    fn new(status: u16, body: &str) -> Self {
        FixedReply { status, body: Some(body.to_string()), reachable: true, seen: Rc::new(RefCell::new(Vec::new())) }
    }

    fn answer(&self) -> Option<HttpReply> {
        if self.reachable {
            Some(HttpReply { status: self.status, body: self.body.clone() })
        } else {
            None
        }
    }
}

impl HttpReq for FixedReply {
    fn get(&self, url: &str, headers: &Vec<(String, String)>) -> Option<HttpReply> {
        self.seen.borrow_mut().push((url.to_string(), headers.clone(), Vec::new()));
        self.answer()
    }

    fn post(&self, url: &str, headers: &Vec<(String, String)>, payload: &Params) -> Option<HttpReply> {
        self.seen.borrow_mut().push((url.to_string(), headers.clone(), payload.entries().clone()));
        self.answer()
    }
}

fn order_params() -> Params {
    let mut params = Params::new();
    params.insert("type".to_string(), "buy".to_string());
    params.insert("market".to_string(), "ethclp".to_string());
    params.insert("price".to_string(), "10000".to_string());
    params.insert("amount".to_string(), "0.3".to_string());
    params
}

const BOOK_BODY: &str = "{\"status\":\"success\",\"pagination\":{\"previous\":0,\"limit\":20,\"page\":0,\"next\":null},\"data\":[{\"timestamp\":\"t1\",\"price\":\"1\",\"amount\":\"0.1\"},{\"timestamp\":\"t2\",\"price\":\"2\",\"amount\":\"0.2\"},{\"timestamp\":\"t3\",\"price\":\"3\",\"amount\":\"0.3\"},{\"timestamp\":\"t4\",\"price\":\"4\",\"amount\":\"0.4\"},{\"timestamp\":\"t5\",\"price\":\"5\",\"amount\":\"0.5\"},{\"timestamp\":\"t6\",\"price\":\"6\",\"amount\":\"0.6\"}]}";

#[test]
fn post_signature_orders_values_by_key() {
    let api = Api::new("FS24FJ7", "SFT23GSD", FixedReply::new(200, ""));
    let s = api.signature_at("1525055728", "orders/create", &order_params(), false);
    assert_eq!(s, "1525055728/v1/orders/create0.3ethclp10000buy");
}

#[test]
fn get_signature_ignores_params() {
    let api = Api::new("FS24FJ7", "SFT23GSD", FixedReply::new(200, ""));
    let s = api.signature_at("1525055728", "orders/create", &order_params(), true);
    assert_eq!(s, "1525055728/v1/orders/create");
}

#[test]
fn signature_is_deterministic() {
    let a = Api::new("FS24FJ7", "SFT23GSD", FixedReply::new(200, ""));
    let b = Api::new("other", "SFT23GSD", FixedReply::new(200, ""));
    let s1 = a.sign_msg("1525053829/v1/orders/active");
    let s2 = b.sign_msg("1525053829/v1/orders/active");
    assert_eq!(s1, s2);
    assert_eq!(s1.len(), 96);
    assert_ne!(s1, a.sign_msg("1525053830/v1/orders/active"));
}

#[test]
fn build_url_encodes_query() {
    let api = Api::new("k", "s", FixedReply::new(200, ""));
    let mut params = Params::new();
    params.insert("market".to_string(), "ETHCLP".to_string());
    params.insert("q".to_string(), "a b&c=é*-._~".to_string());
    assert_eq!(
        api.build_url("book", &params),
        "https://api.cryptomkt.com/v1/book?market=ETHCLP&q=a+b%26c%3D%C3%A9*-._%7E"
    );
}

#[test]
fn private_headers_carry_key_signature_and_timestamp() {
    let api = Api::new("FS24FJ7", "SFT23GSD", FixedReply::new(200, ""));
    let headers = api.headers_at("1525053829", "orders/active", &Params::new(), false, true).unwrap();
    assert_eq!(headers.len(), 3);
    assert_eq!(headers[0], ("X-MKT-APIKEY".to_string(), "FS24FJ7".to_string()));
    assert_eq!(
        headers[1],
        (
            "X-MKT-SIGNATURE".to_string(),
            "eb2dfb910f14efee5184000c228ba095cd40ff4db24a1dfd9c52977478b9739b4409b6bc85a2fd6cdfd5c2361092c4b1".to_string()
        )
    );
    assert_eq!(headers[2], ("X-MKT-TIMESTAMP".to_string(), "1525053829".to_string()));
}

#[test]
fn public_headers_are_empty() {
    let api = Api::new("FS24FJ7", "SFT23GSD", FixedReply::new(200, ""));
    let headers = api.headers_at("1525053829", "market", &Params::new(), true, true).unwrap();
    assert!(headers.is_empty());
}

#[test]
fn get_edge_sends_url_and_signed_headers() {
    let transport = FixedReply::new(200, "{\"status\":\"success\",\"data\":\"\"}");
    let api = Api::new("FS24FJ7", "SFT23GSD", transport.clone());
    let mut params = Params::new();
    params.insert("id".to_string(), "M1".to_string());
    let r = api.get_edge::<cryptomkt::response::EmptyResponse>("orders/status", params, false);
    assert!(r.is_ok());
    let seen = transport.seen.borrow();
    assert_eq!(seen[0].0, "https://api.cryptomkt.com/v1/orders/status?id=M1");
    let headers = &seen[0].1;
    assert_eq!(headers[0].1, "FS24FJ7");
    let message = format!("{}/v1/orders/status", headers[2].1);
    assert_eq!(headers[1].1, api.sign_msg(&message));
}

#[test]
fn post_edge_sends_form_without_query() {
    let transport = FixedReply::new(200, "{\"status\":\"success\",\"data\":\"\"}");
    let api = Api::new("FS24FJ7", "SFT23GSD", transport.clone());
    let r = api.post_edge::<cryptomkt::response::EmptyResponse>("orders/create", order_params());
    assert!(r.is_ok());
    let seen = transport.seen.borrow();
    assert_eq!(seen[0].0, "https://api.cryptomkt.com/v1/orders/create");
    assert_eq!(seen[0].2.len(), 4);
    let message = format!("{}/v1/orders/create0.3ethclp10000buy", seen[0].1[2].1);
    assert_eq!(seen[0].1[1].1, api.sign_msg(&message));
}

#[test]
fn list_response_round_trip() {
    let resp = decode_response::<BookResponse>(BOOK_BODY).unwrap();
    assert_eq!(resp.pagination.limit, 20);
    assert_eq!(resp.data.len(), 6);
    assert_eq!(resp.pagination.previous, JsonValue::Number("0".to_string()));
    assert_eq!(resp.pagination.next, JsonValue::Null);
    assert_eq!(resp.data[5].amount, "0.6");
}

#[test]
fn pagination_previous_may_be_the_string_null() {
    let body = "{\"status\":\"success\",\"pagination\":{\"previous\":\"null\",\"limit\":20,\"page\":0,\"next\":\"null\"},\"data\":[]}";
    let resp = decode_response::<OrderResponse>(body).unwrap();
    assert_eq!(resp.pagination.previous, JsonValue::Str("null".to_string()));
    assert_eq!(resp.data.len(), 0);
}

#[test]
fn decoding_twice_gives_equal_results() {
    let a = decode_response::<BookResponse>(BOOK_BODY).unwrap();
    let b = decode_response::<BookResponse>(BOOK_BODY).unwrap();
    assert_eq!(format!("{:?}", a), format!("{:?}", b));
    let e1 = decode_response::<BookResponse>("{").unwrap_err();
    let e2 = decode_response::<BookResponse>("{").unwrap_err();
    assert_eq!(e1, e2);
}

#[test]
fn end_to_end_market_list() {
    let transport = FixedReply::new(200, "{\"status\":\"success\",\"data\":[\"ETHARS\",\"ETHCLP\"]}");
    let api = CryptoMktApi::new("FS24FJ7", "SFT23GSD", transport);
    let resp = api.call::<MarketResponse>(RequestMethod::Get(true), "market", Params::new()).unwrap();
    assert_eq!(resp.data, vec!["ETHARS".to_string(), "ETHCLP".to_string()]);
}

#[test]
fn unauthorized_reply_maps_to_unauthorized() {
    let api = Api::new("FS24FJ7", "SFT23GSD", FixedReply::new(401, ""));
    let r = api.get_edge::<MarketResponse>("market", Params::new(), true);
    assert_eq!(r.unwrap_err(), CryptoMktErrorType::RequestUnauthorized);
    let r = api.post_edge::<MarketResponse>("orders/create", order_params());
    assert_eq!(r.unwrap_err(), CryptoMktErrorType::RequestUnauthorized);
}

#[test]
fn status_codes_map_to_errors() {
    let adapter = CryptoMktRequest::new(FixedReply::new(200, ""));
    let cases = [
        (401, CryptoMktErrorType::RequestUnauthorized),
        (403, CryptoMktErrorType::RequestForbidden),
        (404, CryptoMktErrorType::RequestNotFound),
        (405, CryptoMktErrorType::RequestMethodNotAllowed),
        (406, CryptoMktErrorType::RequestNotAcceptable),
        (410, CryptoMktErrorType::RequestGone),
        (418, CryptoMktErrorType::RequestTeapot),
        (429, CryptoMktErrorType::RequestTooManyRequests),
        (500, CryptoMktErrorType::RequestInternalServerError),
        (503, CryptoMktErrorType::RequestServiceUnavailable),
        (400, CryptoMktErrorType::BadRequest),
        (502, CryptoMktErrorType::BadRequest),
        (302, CryptoMktErrorType::BadRequest),
    ];
    for (status, error) in cases {
        assert_eq!(adapter.translate_errors("GET", status), error);
    }
}

#[test]
fn replies_are_classified() {
    let adapter = CryptoMktRequest::new(FixedReply::new(200, ""));
    assert_eq!(adapter.reply_text(true, None).unwrap_err(), CryptoMktErrorType::BadRequest);
    let ok = HttpReply { status: 200, body: Some("x".to_string()) };
    assert_eq!(adapter.reply_text(true, Some(ok)).unwrap(), "x");
    let created = HttpReply { status: 201, body: Some("y".to_string()) };
    assert_eq!(adapter.reply_text(false, Some(created)).unwrap_err(), CryptoMktErrorType::BadRequest);
    let accepted = HttpReply { status: 202, body: Some("y".to_string()) };
    assert_eq!(adapter.reply_text(true, Some(accepted)).unwrap_err(), CryptoMktErrorType::BadRequest);
    let unread = HttpReply { status: 200, body: None };
    assert_eq!(adapter.reply_text(true, Some(unread)).unwrap_err(), CryptoMktErrorType::MalformedResource);
    let unread = HttpReply { status: 200, body: None };
    assert_eq!(adapter.reply_text(false, Some(unread)).unwrap_err(), CryptoMktErrorType::BadRequest);
    let gone = HttpReply { status: 410, body: Some(String::new()) };
    assert_eq!(adapter.reply_text(false, Some(gone)).unwrap_err(), CryptoMktErrorType::RequestGone);
}

#[test]
fn unreachable_server_is_bad_request() {
    let mut transport = FixedReply::new(200, "");
    transport.reachable = false;
    let api = Api::new("k", "s", transport);
    let r = api.get_edge::<MarketResponse>("market", Params::new(), true);
    assert_eq!(r.unwrap_err(), CryptoMktErrorType::BadRequest);
}

#[test]
fn malformed_bodies_are_malformed_resource() {
    assert_eq!(decode_response::<MarketResponse>("not json").unwrap_err(), CryptoMktErrorType::MalformedResource);
    assert_eq!(
        decode_response::<MarketResponse>("{\"status\":\"success\",\"data\":[1]}").unwrap_err(),
        CryptoMktErrorType::MalformedResource
    );
    assert_eq!(
        decode_response::<MarketResponse>("{\"data\":[]}").unwrap_err(),
        CryptoMktErrorType::MalformedResource
    );
    assert_eq!(
        decode_response::<BookResponse>("{\"status\":\"s\",\"data\":[],\"pagination\":{\"limit\":20}}").unwrap_err(),
        CryptoMktErrorType::MalformedResource
    );
}

#[test]
fn missing_pagination_defaults() {
    let resp = decode_response::<MarketResponse>("{\"status\":\"success\",\"data\":[]}").unwrap();
    assert_eq!(resp.pagination.limit, 0);
    assert_eq!(resp.pagination.page, 0);
    assert_eq!(resp.pagination.previous, JsonValue::Null);
    assert_eq!(resp.pagination.next, JsonValue::Null);
    let d = Pagination::default();
    assert_eq!(d.limit, 0);
}

#[test]
fn order_defaults_and_amounts() {
    let body = "{\"status\":\"success\",\"data\":[{\"type\":\"sell\",\"amount\":{\"original\":\"2\"}}]}";
    let resp = decode_response::<OrderResponse>(body).unwrap();
    let order = &resp.data[0];
    assert_eq!(order.order_type, "sell");
    assert_eq!(order.amount.original, "2");
    assert_eq!(order.amount.remaining, "");
    assert_eq!(order.id, "");
    assert_eq!(order.execution_price, JsonValue::Null);
}

#[test]
fn parse_i32_reads_integers_in_range() {
    assert_eq!(parse_i32("20"), Some(20));
    assert_eq!(parse_i32("-5"), Some(-5));
    assert_eq!(parse_i32("2147483647"), Some(i32::MAX));
    assert_eq!(parse_i32("-2147483648"), Some(i32::MIN));
    assert_eq!(parse_i32("2147483648"), None);
    assert_eq!(parse_i32("1.5"), None);
    assert_eq!(parse_i32("-"), None);
    assert_eq!(parse_i32(""), None);
}

#[test]
fn params_insert_replaces_in_place() {
    let mut params = Params::new();
    params.insert("b".to_string(), "1".to_string());
    params.insert("a".to_string(), "2".to_string());
    params.insert("b".to_string(), "3".to_string());
    assert_eq!(params.len(), 2);
    assert_eq!(params.entries()[0], ("b".to_string(), "3".to_string()));
    assert_eq!(params.values_in_key_order(), "23");
}

#[test]
fn text_helpers() {
    assert_eq!(to_hex(&vec![0x00, 0x0f, 0xab, 0xff]), "000fabff");
    assert_eq!(signed_decimal_text(-42), "-42");
    assert_eq!(signed_decimal_text(0), "0");
    assert_eq!(signed_decimal_text(i64::MIN), "-9223372036854775808");
    assert!(str_lt("amount", "market"));
    assert!(str_lt("type", "typed"));
    assert!(!str_lt("price", "price"));
}

#[test]
fn order_type_names() {
    assert_eq!(OrderType::Buy.to_string(), "Buy");
    assert_eq!(OrderType::Sell.param_value(), "sell");
}

#[test]
fn client_markets_and_ticker() {
    let transport = FixedReply::new(200, "{\"status\":\"success\",\"data\":[\"ETHARS\",\"ETHCLP\"]}");
    let client = CryptoMktClient::new("k", "s", transport);
    let markets = client.get_markets();
    assert_eq!(markets.len(), 2);
    assert_eq!(markets[1].get_name(), "ETHCLP");
    // the ticker endpoint answers with the same list body here, whose items are not tickers
    assert_eq!(markets[0].get_current_ticker().unwrap_err(), CryptoMktErrorType::MalformedResource);
}

#[test]
fn failed_market_list_is_empty() {
    let client = CryptoMktClient::new("k", "s", FixedReply::new(503, ""));
    assert!(client.get_markets().is_empty());
}

#[test]
fn empty_ticker_list_is_malformed() {
    let client = CryptoMktClient::new("k", "s", FixedReply::new(200, "{\"status\":\"success\",\"data\":[]}"));
    let market = client.create_market("ETHCLP");
    assert_eq!(market.get_current_ticker().unwrap_err(), CryptoMktErrorType::MalformedResource);
}

#[test]
fn payment_order_parameters() {
    let params = cryptomkt::client::payment_order_params(
        "10.5",
        "CLP",
        "me@example.com",
        Some("ext-1".to_string()),
        None,
        None,
        Some("https://ok".to_string()),
        None,
    );
    let names: Vec<String> = params.entries().iter().map(|p| p.0.clone()).collect();
    assert_eq!(names, vec!["to_receive", "to_receive_currency", "payment_receiver", "external_id", "success_url"]);
    let list = cryptomkt::client::payment_list_params("2018-01-01", "2018-02-01", Some(-1), None);
    assert_eq!(list.entries()[2], ("page".to_string(), "-1".to_string()));
    assert_eq!(list.len(), 3);
}

#[test]
fn query_does_not_depend_on_insertion_order() {
    let api = Api::new("k", "s", FixedReply::new(200, ""));
    let mut p1 = Params::new();
    p1.insert("b".to_string(), "2".to_string());
    p1.insert("a".to_string(), "1".to_string());
    let mut p2 = Params::new();
    p2.insert("a".to_string(), "1".to_string());
    p2.insert("b".to_string(), "2".to_string());
    assert_eq!(api.build_url("x", &p1), "https://api.cryptomkt.com/v1/x?a=1&b=2");
    assert_eq!(api.build_url("x", &p1), api.build_url("x", &p2));
}

#[test]
fn prepared_requests() {
    let api = Api::new("FS24FJ7", "SFT23GSD", FixedReply::new(200, ""));
    let get = api.prepare("1525053829", true, "orders/active", Params::new(), false).unwrap();
    assert!(get.is_get);
    assert_eq!(get.url, "https://api.cryptomkt.com/v1/orders/active");
    assert_eq!(get.headers[1].1, "eb2dfb910f14efee5184000c228ba095cd40ff4db24a1dfd9c52977478b9739b4409b6bc85a2fd6cdfd5c2361092c4b1");
    let public = api.prepare("1525053829", true, "book", order_params(), true).unwrap();
    assert!(public.headers.is_empty());
    assert_eq!(public.url, "https://api.cryptomkt.com/v1/book?amount=0.3&market=ethclp&price=10000&type=buy");
    let post = api.prepare("1525055728", false, "orders/create", order_params(), false).unwrap();
    assert!(!post.is_get);
    assert_eq!(post.url, "https://api.cryptomkt.com/v1/orders/create");
    assert_eq!(post.form.len(), 4);
    assert_eq!(post.headers[1].1, "08ec7ce100a196d36970a77f7eee46c2e319e03edb953b0c05e5e9605b5c0d95cc7759f1a074f817f54527f618e90a1e");
    assert_eq!(post.headers[2].1, "1525055728");
}

#[test]
fn build_headers_signs_private_requests_only() {
    let api = Api::new("FS24FJ7", "SFT23GSD", FixedReply::new(200, ""));
    assert!(api.build_headers("market", &Params::new(), true, true).unwrap().is_empty());
    let h = api.build_headers("orders/active", &Params::new(), false, true).unwrap();
    assert_eq!(h.len(), 3);
    assert_eq!(h[0], ("X-MKT-APIKEY".to_string(), "FS24FJ7".to_string()));
    assert_eq!(h[1].0, "X-MKT-SIGNATURE");
    assert_eq!(h[2].0, "X-MKT-TIMESTAMP");
    let message = format!("{}/v1/orders/active", h[2].1);
    assert_eq!(h[1].1, api.sign_msg(&message));
    assert!(h.iter().all(|(_, v)| v != "SFT23GSD"));
}

#[test]
fn market_requests_carry_their_parameters() {
    let transport = FixedReply::new(200, "{\"status\":\"success\",\"data\":[]}");
    let client = CryptoMktClient::new("k", "s", transport.clone());
    let market = client.create_market("ETHCLP");
    assert!(market.get_orders_book(OrderType::Sell, 2, 20).is_ok());
    assert!(market.get_user_orders_by_state(cryptomkt::OrderState::Executed, 0, 10).is_ok());
    let _ = market.create_order(OrderType::Buy, "0.3", "10000");
    let seen = transport.seen.borrow();
    assert_eq!(seen[0].0, "https://api.cryptomkt.com/v1/book?limit=20&market=ETHCLP&page=2&type=sell");
    assert!(seen[0].1.is_empty());
    assert_eq!(seen[1].0, "https://api.cryptomkt.com/v1/orders/executed?limit=10&market=ETHCLP&page=0");
    assert_eq!(seen[1].1.len(), 3);
    assert_eq!(seen[2].0, "https://api.cryptomkt.com/v1/orders/create");
    let names: Vec<&str> = seen[2].2.iter().map(|p| p.0.as_str()).collect();
    assert_eq!(names, vec!["market", "amount", "price", "type"]);
}
