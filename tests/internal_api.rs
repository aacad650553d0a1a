use cryptomkt::response::{
    BalanceResponse, BookResponse, EmptyResponse, MarketResponse, OrderResponse,
    OrdersInstantResponse, SimpleOrderResponse, TickerResponse, TradeResponse,
};
use cryptomkt::{Api, HttpReply, HttpReq, JsonValue, Params};

const API_KEY: &'static str = "FS24FJ7";
const SECRET_KEY: &'static str = "SFT23GSD";

/// A transport that answers every GET and every POST with a fixed body.
#[derive(Clone)]
struct MockRequest {
    resp_for_get: String,
    resp_for_post: String,
}

impl MockRequest {
    fn new(resp_for_get: &str, resp_for_post: &str) -> Self {
        MockRequest {
            resp_for_get: resp_for_get.to_string(),
            resp_for_post: resp_for_post.to_string(),
        }
    }
}

impl HttpReq for MockRequest {
    fn get(&self, _url: &str, _headers: &Vec<(String, String)>) -> Option<HttpReply> {
        Some(HttpReply { status: 200, body: Some(self.resp_for_get.clone()) })
    }

    fn post(&self, _url: &str, _headers: &Vec<(String, String)>, _payload: &Params) -> Option<HttpReply> {
        Some(HttpReply { status: 200, body: Some(self.resp_for_post.clone()) })
    }
}

fn setup_test() -> Api<MockRequest> {
    Api::new("FS24FJ7", "SFT23GSD", MockRequest::new("", ""))
}

fn params_of(pairs: &[(&str, &str)]) -> Params {
    let mut params = Params::new();
    for (k, v) in pairs {
        params.insert(k.to_string(), v.to_string());
    }
    params
}

#[test]
fn get_domain_url() {
    let api = setup_test();
    assert_eq!(api.domain(), "https://api.cryptomkt.com/");
}

#[test]
fn get_api_version() {
    let api = setup_test();
    assert_eq!(api.api_version(), "v1");
}

#[test]
fn build_url() {
    let api = setup_test();
    assert_eq!(api.build_url("market", &Params::new()).as_str(), "https://api.cryptomkt.com/v1/market");
}

#[test]
fn build_api_signature_format() {
    let api = setup_test();
    let resp = api.build_signature_format("orders/active", &Params::new(), true);
    assert_eq!(resp.ends_with("/v1/orders/active"), true);
}

#[test]
fn build_api_signature_format_with_params_as_get_method() {
    let api = setup_test();
    let params = params_of(&[("amount", "0.3"), ("market", "ethclp"), ("price", "10000"), ("type", "buy")]);
    let resp = api.build_signature_format("orders/create", &params, true);
    assert_eq!(resp.ends_with("/v1/orders/create"), true);
}

#[test]
fn build_api_signature_with_params_as_post_method() {
    let api = setup_test();
    let params = params_of(&[("amount", "0.3"), ("market", "ethclp"), ("price", "10000"), ("type", "buy")]);
    let resp = api.build_signature_format("orders/create", &params, false);
    assert_ne!(resp.find("/v1/orders/create0.3ethclp10000buy"), None);
}

#[test]
fn sign_msg() {
    let api = setup_test();
    let resp = api.sign_msg("1525053829/v1/orders/active");
    assert_eq!(resp, "eb2dfb910f14efee5184000c228ba095cd40ff4db24a1dfd9c52977478b9739b4409b6bc85a2fd6cdfd5c2361092c4b1".to_string());
}

#[test]
fn sign_msg_with_payload() {
    let api = setup_test();
    let resp = api.sign_msg("1525055728/v1/orders/create0.3ethclp10000buy");
    assert_eq!(resp, "08ec7ce100a196d36970a77f7eee46c2e319e03edb953b0c05e5e9605b5c0d95cc7759f1a074f817f54527f618e90a1e".to_string());
}

#[test]
fn test_response_for_market_list() {
    let mock_transport = MockRequest::new("{\"status\": \"success\",\"data\": [\"ETHARS\",\"ETHCLP\"]}", "");
    let api = Api::new(API_KEY, SECRET_KEY, mock_transport);

    let expected_data = ["ETHARS", "ETHCLP"];
    let resp = api.get_edge::<MarketResponse>("market", Params::new(), true).unwrap();

    assert_eq!(resp.status, "success");
    for it in 1..resp.data.len() {
        assert_eq!(resp.data[it], expected_data[it]);
    }
}

#[test]
fn test_response_for_ticker() {
    let mock_transport = MockRequest::new(
        "{\"status\":\"success\",\"data\":[{\"high\":\"6888\",\"volume\":\"13.03\",\"low\":\"6303\",\"ask\":\"6887\",\"timestamp\":\"2017-08-2915:44:17.267526\",\"bid\":\"6416\",\"last_price\":\"6610\",\"market\":\"ETHARS\"}]}",
        "",
    );
    let api = Api::new(API_KEY, SECRET_KEY, mock_transport);

    let expected_high = ["6888"];
    let ticker_params = params_of(&[("market", "ETHARS")]);
    let resp = api.get_edge::<TickerResponse>("ticker", ticker_params, true).unwrap();

    assert_eq!(resp.status, "success");
    for it in 1..resp.data.len() {
        assert_eq!(resp.data[it].high, expected_high[it]);
    }
}

#[test]
fn test_response_for_book() {
    let mock_transport = MockRequest::new(
        "{\"status\":\"success\",\"pagination\":{\"previous\":0,\"limit\":20,\"page\":0,\"next\":\"null\"},\"data\":[{\"timestamp\":\"2017-08-31T12:31:58.782060\",\"price\":\"252610\",\"amount\":\"0.6729\"},{\"timestamp\":\"2017-08-31T10:14:58.466285\",\"price\":\"252200\",\"amount\":\"7.6226\"},{\"timestamp\":\"2017-08-30T18:15:54.757558\",\"price\":\"252000\",\"amount\":\"2.9761\"},{\"timestamp\":\"2017-08-31T14:02:32.377008\",\"price\":\"251900\",\"amount\":\"7.9396\"},{\"timestamp\":\"2017-08-30T15:29:12.945642\",\"price\":\"251540\",\"amount\":\"0.7314\"},{\"timestamp\":\"2017-08-31T13:46:34.666282\",\"price\":\"250100\",\"amount\":\"0.0399\"}]}",
        "",
    );
    let api = Api::new(API_KEY, SECRET_KEY, mock_transport);

    let expected_timestamps = [
        "2017-08-31T12:31:58.782060",
        "2017-08-31T10:14:58.466285",
        "2017-08-30T18:15:54.757558",
        "2017-08-31T14:02:32.377008",
        "2017-08-30T15:29:12.945642",
        "2017-08-31T13:46:34.666282",
    ];
    let params = params_of(&[("market", "ETHCLP"), ("type", "buy"), ("page", "0")]);
    let resp = api.get_edge::<BookResponse>("book", params, true).unwrap();

    assert_eq!(resp.status, "success");
    for it in 1..resp.data.len() {
        assert_eq!(resp.data[it].timestamp, expected_timestamps[it]);
    }
    let pagination = resp.pagination;
    assert_eq!(pagination.limit, 20);
}

#[test]
fn test_response_for_trades() {
    let mock_transport = MockRequest::new(
        "{\"status\":\"success\",\"pagination\":{\"previous\":1,\"limit\":20,\"page\":2,\"next\":\"null\"},\"data\":[{\"market_taker\":\"buy\",\"timestamp\":\"2017-05-29T22:14:00.419466\",\"price\":\"155000\",\"amount\":\"0.129\",\"market\":\"ETHCLP\"},{\"market_taker\":\"buy\",\"timestamp\":\"2017-05-29T22:13:52.168265\",\"price\":\"155000\",\"amount\":\"0.6451\",\"market\":\"ETHCLP\"},{\"market_taker\":\"buy\",\"timestamp\":\"2017-05-29T22:01:52.054549\",\"price\":\"155000\",\"amount\":\"2.7441\",\"market\":\"ETHCLP\"},{\"market_taker\":\"buy\",\"timestamp\":\"2017-05-29T22:01:51.700777\",\"price\":\"154000\",\"amount\":\"3\",\"market\":\"ETHCLP\"},{\"market_taker\":\"buy\",\"timestamp\":\"2017-05-29T22:01:51.342244\",\"price\":\"151990\",\"amount\":\"0.0335\",\"market\":\"ETHCLP\"}]}",
        "",
    );
    let api = Api::new(API_KEY, SECRET_KEY, mock_transport);

    let expected_timestamps = [
        "2017-05-29T22:14:00.419466",
        "2017-05-29T22:13:52.168265",
        "2017-05-29T22:01:52.054549",
        "2017-05-29T22:01:51.700777",
        "2017-05-29T22:01:51.342244",
    ];
    let params = params_of(&[("market", "ETHCLP"), ("start", "2017-05-20"), ("end", "2017-05-30"), ("page", "2")]);
    let resp = api.get_edge::<TradeResponse>("trades", params, true).unwrap();

    assert_eq!(resp.status, "success");
    for it in 1..resp.data.len() {
        assert_eq!(resp.data[it].market_taker, "buy");
        assert_eq!(resp.data[it].timestamp, expected_timestamps[it]);
    }
    let pagination = resp.pagination;
    assert_eq!(pagination.limit, 20);
    assert_eq!(pagination.page, 2);
}

#[test]
fn test_response_for_orders_active() {
    let mock_transport = MockRequest::new(
        "{\"status\":\"success\",\"pagination\":{\"previous\":\"null\",\"limit\":20,\"page\":0,\"next\":\"null\"},\"data\":[{\"status\":\"active\",\"created_at\":\"2017-09-01T14:01:56.887272\",\"amount\":{\"original\":\"1.4044\",\"remaining\":\"1.4044\"},\"execution_price\":null,\"price\":\"7120\",\"type\":\"buy\",\"id\":\"M103966\",\"market\":\"ETHCLP\",\"updated_at\":\"2017-09-01T14:01:56.887272\"},{\"status\":\"active\",\"created_at\":\"2017-09-01T14:02:36.386967\",\"amount\":{\"original\":\"1.25\",\"remaining\":\"1.25\"},\"execution_price\":null,\"price\":\"8000\",\"type\":\"buy\",\"id\":\"M103967\",\"market\":\"ETHCLP\",\"updated_at\":\"2017-09-01T14:02:36.386967\"}]}",
        "",
    );
    let api = Api::new(API_KEY, SECRET_KEY, mock_transport);

    let expected_created = ["2017-09-01T14:01:56.887272", "2017-09-01T14:02:36.386967"];
    let params = params_of(&[("market", "ETHCLP"), ("page", "0")]);
    let resp = api.get_edge::<OrderResponse>("orders/active", params, true).unwrap();

    assert_eq!(resp.status, "success");
    for it in 1..resp.data.len() {
        assert_eq!(resp.data[it].created_at, expected_created[it]);
    }
    let pagination = resp.pagination;
    assert_eq!(pagination.limit, 20);
}

#[test]
fn test_response_for_orders_executed() {
    let mock_transport = MockRequest::new(
        "{\"status\":\"success\",\"pagination\":{\"previous\":\"null\",\"limit\":20,\"page\":0,\"next\":\"null\"},\"data\":[{\"status\":\"executed\",\"created_at\":\"2017-08-31T21:37:42.282102\",\"amount\":{\"executed\":\"0.6\",\"original\":\"3.75\"},\"execution_price\":\"8000\",\"executed_at\":\"2017-08-31T22:01:19.481403\",\"price\":\"8000\",\"type\":\"buy\",\"id\":\"M103959\",\"market\":\"ETHCLP\"},{\"status\":\"executed\",\"created_at\":\"2017-08-31T21:37:42.282102\",\"amount\":{\"executed\":\"0.5\",\"original\":\"3.75\"},\"execution_price\":\"8000\",\"executed_at\":\"2017-08-31T22:00:13.805482\",\"price\":\"8000\",\"type\":\"buy\",\"id\":\"M103959\",\"market\":\"ETHCLP\"},{\"status\":\"executed\",\"created_at\":\"2016-11-26T23:27:54.502024\",\"amount\":{\"executed\":\"1.5772\",\"original\":\"1.5772\"},\"execution_price\":\"6340\",\"executed_at\":\"2017-01-02T22:56:03.897534\",\"price\":\"6340\",\"type\":\"buy\",\"id\":\"M103260\",\"market\":\"ETHCLP\"}]}",
        "",
    );
    let api = Api::new(API_KEY, SECRET_KEY, mock_transport);

    let expected_created = ["2017-08-31T21:37:42.282102", "2017-08-31T21:37:42.282102", "2016-11-26T23:27:54.502024"];
    let expected_price = ["8000", "8000", "6340"];
    let params = params_of(&[("market", "ETHCLP"), ("page", "1")]);
    let resp = api.get_edge::<OrderResponse>("orders/executed", params, true).unwrap();

    assert_eq!(resp.status, "success");
    for it in 1..resp.data.len() {
        assert_eq!(resp.data[it].created_at, expected_created[it]);
        assert_eq!(resp.data[it].status, "executed");
        assert_eq!(resp.data[it].execution_price, JsonValue::Str(expected_price[it].to_string()));
    }
    let pagination = resp.pagination;
    assert_eq!(pagination.limit, 20);
}

#[test]
fn test_response_for_orders_create() {
    let mock_transport = MockRequest::new(
        "",
        "{\"status\":\"success\",\"data\":{\"status\":\"executed\",\"created_at\":\"2017-09-01T19:35:26.641136\",\"amount\":{\"executed\":\"0.3\",\"original\":\"0.3\"},\"avg_execution_price\":\"30000\",\"price\":\"10000\",\"type\":\"buy\",\"id\":\"M103975\",\"market\":\"ETHCLP\",\"updated_at\":\"2017-09-01T19:35:26.688106\"}}",
    );
    let api = Api::new(API_KEY, SECRET_KEY, mock_transport);

    let params = params_of(&[("market", "ethclp"), ("amount", "0.3"), ("price", "10000"), ("type", "buy")]);
    let resp = api.post_edge::<SimpleOrderResponse>("orders/create", params).unwrap();

    assert_eq!(resp.status, "success");
    assert_eq!(resp.data.created_at, "2017-09-01T19:35:26.641136");
    assert_eq!(resp.data.status, "executed");
    assert_eq!(resp.data.execution_price, JsonValue::Null);
}

#[test]
fn test_response_for_orders_status() {
    let mock_transport = MockRequest::new(
        "{\"status\":\"success\",\"data\":{\"status\":\"active\",\"created_at\":\"2017-09-01T14:01:56.887272\",\"amount\":{\"executed\":\"0\",\"original\":\"1.4044\"},\"avg_execution_price\":\"0\",\"price\":\"7120\",\"type\":\"buy\",\"id\":\"M103966\",\"market\":\"ETHCLP\",\"updated_at\":\"2017-09-01T14:01:56.887272\"}}",
        "",
    );
    let api = Api::new(API_KEY, SECRET_KEY, mock_transport);

    let params = params_of(&[("id", "M103975")]);
    let resp = api.get_edge::<SimpleOrderResponse>("orders/status", params, true).unwrap();

    assert_eq!(resp.status, "success");
    assert_eq!(resp.data.created_at, "2017-09-01T14:01:56.887272");
    assert_eq!(resp.data.status, "active");
    assert_eq!(resp.data.execution_price, JsonValue::Null);
}

#[test]
fn test_response_for_orders_cancel() {
    let mock_transport = MockRequest::new(
        "",
        "{\"status\":\"success\",\"data\":{\"status\":\"cancelled\",\"created_at\":\"2017-09-01T14:02:36.386967\",\"amount\":{\"executed\":\"0\",\"original\":\"1.25\"},\"avg_execution_price\":\"0\",\"price\":\"8000\",\"type\":\"buy\",\"id\":\"M103967\",\"market\":\"ETHCLP\",\"updated_at\":\"2017-09-01T14:02:36.386967\"}}",
    );
    let api = Api::new(API_KEY, SECRET_KEY, mock_transport);

    let params = params_of(&[("id", "M103975")]);
    let resp = api.post_edge::<SimpleOrderResponse>("orders/cancel", params).unwrap();

    assert_eq!(resp.status, "success");
    assert_eq!(resp.data.created_at, "2017-09-01T14:02:36.386967");
    assert_eq!(resp.data.status, "cancelled");
    assert_eq!(resp.data.execution_price, JsonValue::Null);
}

#[test]
fn test_response_for_orders_instant_get() {
    let mock_transport = MockRequest::new(
        "{\"status\":\"success\",\"data\":{\"obtained\":\"18047138.226\",\"required\":\"159\"}}",
        "",
    );
    let api = Api::new(API_KEY, SECRET_KEY, mock_transport);

    let params = params_of(&[("market", "ETHCLP"), ("type", "sell"), ("amount", "159")]);
    let resp = api.get_edge::<OrdersInstantResponse>("orders/instant/get", params, false).unwrap();

    assert_eq!(resp.status, "success");
    assert_eq!(resp.data.obtained, "18047138.226");
    assert_eq!(resp.data.required, "159");
}

#[test]
fn test_response_for_orders_instant_create() {
    let mock_transport = MockRequest::new("", "{\"status\":\"success\",\"data\":\"\"}");
    let api = Api::new(API_KEY, SECRET_KEY, mock_transport);

    let params = params_of(&[("market", "ETHCLP"), ("type", "buy"), ("amount", "10")]);
    let resp = api.post_edge::<EmptyResponse>("orders/instant/create", params).unwrap();

    assert_eq!(resp.status, "success");
}

#[test]
fn test_response_for_balance() {
    let mock_transport = MockRequest::new(
        "{\"status\":\"success\",\"data\":[{\"available\":\"120347\",\"wallet\":\"CLP\",\"balance\":\"120347\"},{\"available\":\"10.3399\",\"wallet\":\"ETH\",\"balance\":\"11.3399\"}]}",
        "",
    );
    let api = Api::new(API_KEY, SECRET_KEY, mock_transport);

    let expected = [("120347", "CLP", "120347"), ("10.3399", "ETH", "11.3399")];
    let params = Params::new();
    let resp = api.get_edge::<BalanceResponse>("balance", params, false).unwrap();

    for it in 1..resp.data.len() {
        assert_eq!(resp.data[it].available, expected[it].0);
        assert_eq!(resp.data[it].wallet, expected[it].1);
        assert_eq!(resp.data[it].balance, expected[it].2);
    }
}
