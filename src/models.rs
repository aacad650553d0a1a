//! The entities that the exchange reports. Decimal amounts and prices stay
//! the strings that the server sent, so nothing is lost in decoding.

use vstd::prelude::*;
use crate::json::{
    required_model, take_json_or_null, take_required, take_text_or_empty, text_or_empty_model,
    json_or_null, FromJson, JsonValue,
};

verus! {
/// The ticker: a high-level overview of the state of a market: the current bid and
/// ask, the latest price, and the volume and range of the last day.
#[derive(Debug, Clone)]
pub struct Ticker {
    /// Highest price
    pub high: String,
    /// Lowest price
    pub low: String,
    /// Purchase price
    pub ask: String,
    /// Sale price
    pub bid: String,
    /// Last transaction price
    pub last_price: String,
    /// Market volume
    pub volume: String,
    /// Date of consultation
    pub timestamp: String,
    /// Market pair
    pub market: String,
}

/// The content of a [`Ticker`], with each string as its characters.
pub struct TickerView {
    pub high: Seq<char>,
    pub low: Seq<char>,
    pub ask: Seq<char>,
    pub bid: Seq<char>,
    pub last_price: Seq<char>,
    pub volume: Seq<char>,
    pub timestamp: Seq<char>,
    pub market: Seq<char>,
}

impl DeepView for Ticker {
    type V = TickerView;

    open spec fn deep_view(&self) -> TickerView {
        TickerView {
            high: self.high@,
            low: self.low@,
            ask: self.ask@,
            bid: self.bid@,
            last_price: self.last_price@,
            volume: self.volume@,
            timestamp: self.timestamp@,
            market: self.market@,
        }
    }
}

impl FromJson for Ticker {
    /// A JSON object reads as a `Ticker` when each required member is present
    /// with the right shape and each optional one, if present, has it.
    open spec fn json_model(j: JsonValue) -> Option<TickerView> {
        match j {
            JsonValue::Object(members) => {
                let fs = members@;
                if required_model::<String>(fs, "high"@) is Some
                    && required_model::<String>(fs, "low"@) is Some
                    && required_model::<String>(fs, "ask"@) is Some
                    && required_model::<String>(fs, "bid"@) is Some
                    && required_model::<String>(fs, "last_price"@) is Some
                    && required_model::<String>(fs, "volume"@) is Some
                    && required_model::<String>(fs, "timestamp"@) is Some
                    && required_model::<String>(fs, "market"@) is Some {
                    Some(
                        TickerView {
                            high: required_model::<String>(fs, "high"@)->0,
                            low: required_model::<String>(fs, "low"@)->0,
                            ask: required_model::<String>(fs, "ask"@)->0,
                            bid: required_model::<String>(fs, "bid"@)->0,
                            last_price: required_model::<String>(fs, "last_price"@)->0,
                            volume: required_model::<String>(fs, "volume"@)->0,
                            timestamp: required_model::<String>(fs, "timestamp"@)->0,
                            market: required_model::<String>(fs, "market"@)->0,
                        },
                    )
                } else {
                    None
                }
            },
            _ => None,
        }
    }

    fn from_json(j: JsonValue) -> (r: Option<Ticker>) {
        let mut fields = match j {
            JsonValue::Object(members) => members,
            _ => return None,
        };
        proof {
            reveal_strlit("high");
            reveal_strlit("low");
            reveal_strlit("ask");
            reveal_strlit("bid");
            reveal_strlit("last_price");
            reveal_strlit("volume");
            reveal_strlit("timestamp");
            reveal_strlit("market");
            assert("high"@.len() == 4);
            assert("low"@.len() == 3);
            assert("ask"@.len() == 3);
            assert("bid"@.len() == 3);
            assert("last_price"@.len() == 10);
            assert("volume"@.len() == 6);
            assert("timestamp"@.len() == 9);
            assert("market"@.len() == 6);
            assert("low"@[0] != "ask"@[0]);
            assert("low"@[0] != "bid"@[0]);
            assert("ask"@[0] != "bid"@[0]);
            assert("volume"@[0] != "market"@[0]);
        }
        let high = match take_required::<String>(&mut fields, "high") {
            Some(v) => v,
            None => return None,
        };
        let low = match take_required::<String>(&mut fields, "low") {
            Some(v) => v,
            None => return None,
        };
        let ask = match take_required::<String>(&mut fields, "ask") {
            Some(v) => v,
            None => return None,
        };
        let bid = match take_required::<String>(&mut fields, "bid") {
            Some(v) => v,
            None => return None,
        };
        let last_price = match take_required::<String>(&mut fields, "last_price") {
            Some(v) => v,
            None => return None,
        };
        let volume = match take_required::<String>(&mut fields, "volume") {
            Some(v) => v,
            None => return None,
        };
        let timestamp = match take_required::<String>(&mut fields, "timestamp") {
            Some(v) => v,
            None => return None,
        };
        let market = match take_required::<String>(&mut fields, "market") {
            Some(v) => v,
            None => return None,
        };
        Some(Ticker { high, low, ask, bid, last_price, volume, timestamp, market })
    }
}

/// An entry of the order book: a purchase or sale request within the exchange.
#[derive(Debug, Clone)]
pub struct Book {
    /// Order limit price
    pub price: String,
    /// Creation date
    pub timestamp: String,
    /// Order quantity
    pub amount: String,
}

/// The content of a [`Book`], with each string as its characters.
pub struct BookView {
    pub price: Seq<char>,
    pub timestamp: Seq<char>,
    pub amount: Seq<char>,
}

impl DeepView for Book {
    type V = BookView;

    open spec fn deep_view(&self) -> BookView {
        BookView {
            price: self.price@,
            timestamp: self.timestamp@,
            amount: self.amount@,
        }
    }
}

impl FromJson for Book {
    /// A JSON object reads as a `Book` when each required member is present
    /// with the right shape and each optional one, if present, has it.
    open spec fn json_model(j: JsonValue) -> Option<BookView> {
        match j {
            JsonValue::Object(members) => {
                let fs = members@;
                if required_model::<String>(fs, "price"@) is Some
                    && required_model::<String>(fs, "timestamp"@) is Some
                    && required_model::<String>(fs, "amount"@) is Some {
                    Some(
                        BookView {
                            price: required_model::<String>(fs, "price"@)->0,
                            timestamp: required_model::<String>(fs, "timestamp"@)->0,
                            amount: required_model::<String>(fs, "amount"@)->0,
                        },
                    )
                } else {
                    None
                }
            },
            _ => None,
        }
    }

    fn from_json(j: JsonValue) -> (r: Option<Book>) {
        let mut fields = match j {
            JsonValue::Object(members) => members,
            _ => return None,
        };
        proof {
            reveal_strlit("price");
            reveal_strlit("timestamp");
            reveal_strlit("amount");
            assert("price"@.len() == 5);
            assert("timestamp"@.len() == 9);
            assert("amount"@.len() == 6);
        }
        let price = match take_required::<String>(&mut fields, "price") {
            Some(v) => v,
            None => return None,
        };
        let timestamp = match take_required::<String>(&mut fields, "timestamp") {
            Some(v) => v,
            None => return None,
        };
        let amount = match take_required::<String>(&mut fields, "amount") {
            Some(v) => v,
            None => return None,
        };
        Some(Book { price, timestamp, amount })
    }
}

/// A transaction made in the exchange.
#[derive(Debug, Clone)]
pub struct Trade {
    /// Transaction type: buy or sell
    pub market_taker: String,
    /// Price at which the transaction was made
    pub price: String,
    /// Amount of the transaction
    pub amount: String,
    /// ID of the transaction (empty when absent)
    pub tid: String,
    /// Date of the transaction
    pub timestamp: String,
    /// Market pair where the transaction was made
    pub market: String,
}

/// The content of a [`Trade`], with each string as its characters.
pub struct TradeView {
    pub market_taker: Seq<char>,
    pub price: Seq<char>,
    pub amount: Seq<char>,
    pub tid: Seq<char>,
    pub timestamp: Seq<char>,
    pub market: Seq<char>,
}

impl DeepView for Trade {
    type V = TradeView;

    open spec fn deep_view(&self) -> TradeView {
        TradeView {
            market_taker: self.market_taker@,
            price: self.price@,
            amount: self.amount@,
            tid: self.tid@,
            timestamp: self.timestamp@,
            market: self.market@,
        }
    }
}

impl FromJson for Trade {
    /// A JSON object reads as a `Trade` when each required member is present
    /// with the right shape and each optional one, if present, has it.
    open spec fn json_model(j: JsonValue) -> Option<TradeView> {
        match j {
            JsonValue::Object(members) => {
                let fs = members@;
                if required_model::<String>(fs, "market_taker"@) is Some
                    && required_model::<String>(fs, "price"@) is Some
                    && required_model::<String>(fs, "amount"@) is Some
                    && text_or_empty_model(fs, "tid"@) is Some
                    && required_model::<String>(fs, "timestamp"@) is Some
                    && required_model::<String>(fs, "market"@) is Some {
                    Some(
                        TradeView {
                            market_taker: required_model::<String>(fs, "market_taker"@)->0,
                            price: required_model::<String>(fs, "price"@)->0,
                            amount: required_model::<String>(fs, "amount"@)->0,
                            tid: text_or_empty_model(fs, "tid"@)->0,
                            timestamp: required_model::<String>(fs, "timestamp"@)->0,
                            market: required_model::<String>(fs, "market"@)->0,
                        },
                    )
                } else {
                    None
                }
            },
            _ => None,
        }
    }

    fn from_json(j: JsonValue) -> (r: Option<Trade>) {
        let mut fields = match j {
            JsonValue::Object(members) => members,
            _ => return None,
        };
        proof {
            reveal_strlit("market_taker");
            reveal_strlit("price");
            reveal_strlit("amount");
            reveal_strlit("tid");
            reveal_strlit("timestamp");
            reveal_strlit("market");
            assert("market_taker"@.len() == 12);
            assert("price"@.len() == 5);
            assert("amount"@.len() == 6);
            assert("tid"@.len() == 3);
            assert("timestamp"@.len() == 9);
            assert("market"@.len() == 6);
            assert("amount"@[0] != "market"@[0]);
        }
        let market_taker = match take_required::<String>(&mut fields, "market_taker") {
            Some(v) => v,
            None => return None,
        };
        let price = match take_required::<String>(&mut fields, "price") {
            Some(v) => v,
            None => return None,
        };
        let amount = match take_required::<String>(&mut fields, "amount") {
            Some(v) => v,
            None => return None,
        };
        let tid = match take_text_or_empty(&mut fields, "tid") {
            Some(v) => v,
            None => return None,
        };
        let timestamp = match take_required::<String>(&mut fields, "timestamp") {
            Some(v) => v,
            None => return None,
        };
        let market = match take_required::<String>(&mut fields, "market") {
            Some(v) => v,
            None => return None,
        };
        Some(Trade { market_taker, price, amount, tid, timestamp, market })
    }
}

/// The amounts of an order. `original` is there for every order, `remaining` only
/// while it is active, `executed` once it is partly or fully filled; an absent one is empty.
#[derive(Debug, Clone)]
pub struct Amount {
    /// Original quantity of the order
    pub original: String,
    /// Remaining amount of an active order
    pub remaining: String,
    /// Quantity executed of the order
    pub executed: String,
}

/// The content of a [`Amount`], with each string as its characters.
pub struct AmountView {
    pub original: Seq<char>,
    pub remaining: Seq<char>,
    pub executed: Seq<char>,
}

impl DeepView for Amount {
    type V = AmountView;

    open spec fn deep_view(&self) -> AmountView {
        AmountView {
            original: self.original@,
            remaining: self.remaining@,
            executed: self.executed@,
        }
    }
}

impl FromJson for Amount {
    /// A JSON object reads as a `Amount` when each required member is present
    /// with the right shape and each optional one, if present, has it.
    open spec fn json_model(j: JsonValue) -> Option<AmountView> {
        match j {
            JsonValue::Object(members) => {
                let fs = members@;
                if text_or_empty_model(fs, "original"@) is Some
                    && text_or_empty_model(fs, "remaining"@) is Some
                    && text_or_empty_model(fs, "executed"@) is Some {
                    Some(
                        AmountView {
                            original: text_or_empty_model(fs, "original"@)->0,
                            remaining: text_or_empty_model(fs, "remaining"@)->0,
                            executed: text_or_empty_model(fs, "executed"@)->0,
                        },
                    )
                } else {
                    None
                }
            },
            _ => None,
        }
    }

    fn from_json(j: JsonValue) -> (r: Option<Amount>) {
        let mut fields = match j {
            JsonValue::Object(members) => members,
            _ => return None,
        };
        proof {
            reveal_strlit("original");
            reveal_strlit("remaining");
            reveal_strlit("executed");
            assert("original"@.len() == 8);
            assert("remaining"@.len() == 9);
            assert("executed"@.len() == 8);
            assert("original"@[0] != "executed"@[0]);
        }
        let original = match take_text_or_empty(&mut fields, "original") {
            Some(v) => v,
            None => return None,
        };
        let remaining = match take_text_or_empty(&mut fields, "remaining") {
            Some(v) => v,
            None => return None,
        };
        let executed = match take_text_or_empty(&mut fields, "executed") {
            Some(v) => v,
            None => return None,
        };
        Some(Amount { original, remaining, executed })
    }
}

/// An order of the user: a purchase or sale request within the exchange.
#[derive(Debug)]
pub struct Order {
    /// Order ID
    pub id: String,
    /// Order status: active, executed or cancelled
    pub status: String,
    /// Order type: buy or sell
    pub order_type: String,
    /// Order limit price
    pub price: String,
    /// Amounts of the order
    pub amount: Amount,
    /// Execution price: null, or a string
    pub execution_price: JsonValue,
    /// Average weighted execution price; 0 if it is not executed
    pub avg_execution_price: String,
    /// Market pair
    pub market: String,
    /// Creation date
    pub created_at: String,
    /// Update date; only for active orders
    pub updated_at: String,
    /// Date of execution; only for executed orders
    pub executed_at: String,
}

/// The content of a [`Order`], with each string as its characters.
pub struct OrderView {
    pub id: Seq<char>,
    pub status: Seq<char>,
    pub order_type: Seq<char>,
    pub price: Seq<char>,
    pub amount: AmountView,
    pub execution_price: JsonValue,
    pub avg_execution_price: Seq<char>,
    pub market: Seq<char>,
    pub created_at: Seq<char>,
    pub updated_at: Seq<char>,
    pub executed_at: Seq<char>,
}

impl DeepView for Order {
    type V = OrderView;

    open spec fn deep_view(&self) -> OrderView {
        OrderView {
            id: self.id@,
            status: self.status@,
            order_type: self.order_type@,
            price: self.price@,
            amount: self.amount.deep_view(),
            execution_price: self.execution_price,
            avg_execution_price: self.avg_execution_price@,
            market: self.market@,
            created_at: self.created_at@,
            updated_at: self.updated_at@,
            executed_at: self.executed_at@,
        }
    }
}

impl FromJson for Order {
    /// A JSON object reads as a `Order` when each required member is present
    /// with the right shape and each optional one, if present, has it.
    open spec fn json_model(j: JsonValue) -> Option<OrderView> {
        match j {
            JsonValue::Object(members) => {
                let fs = members@;
                if text_or_empty_model(fs, "id"@) is Some
                    && text_or_empty_model(fs, "status"@) is Some
                    && required_model::<String>(fs, "type"@) is Some
                    && text_or_empty_model(fs, "price"@) is Some
                    && required_model::<Amount>(fs, "amount"@) is Some
                    && text_or_empty_model(fs, "avg_execution_price"@) is Some
                    && text_or_empty_model(fs, "market"@) is Some
                    && text_or_empty_model(fs, "created_at"@) is Some
                    && text_or_empty_model(fs, "updated_at"@) is Some
                    && text_or_empty_model(fs, "executed_at"@) is Some {
                    Some(
                        OrderView {
                            id: text_or_empty_model(fs, "id"@)->0,
                            status: text_or_empty_model(fs, "status"@)->0,
                            order_type: required_model::<String>(fs, "type"@)->0,
                            price: text_or_empty_model(fs, "price"@)->0,
                            amount: required_model::<Amount>(fs, "amount"@)->0,
                            execution_price: json_or_null(fs, "execution_price"@),
                            avg_execution_price: text_or_empty_model(fs, "avg_execution_price"@)->0,
                            market: text_or_empty_model(fs, "market"@)->0,
                            created_at: text_or_empty_model(fs, "created_at"@)->0,
                            updated_at: text_or_empty_model(fs, "updated_at"@)->0,
                            executed_at: text_or_empty_model(fs, "executed_at"@)->0,
                        },
                    )
                } else {
                    None
                }
            },
            _ => None,
        }
    }

    fn from_json(j: JsonValue) -> (r: Option<Order>) {
        let mut fields = match j {
            JsonValue::Object(members) => members,
            _ => return None,
        };
        proof {
            reveal_strlit("id");
            reveal_strlit("status");
            reveal_strlit("type");
            reveal_strlit("price");
            reveal_strlit("amount");
            reveal_strlit("execution_price");
            reveal_strlit("avg_execution_price");
            reveal_strlit("market");
            reveal_strlit("created_at");
            reveal_strlit("updated_at");
            reveal_strlit("executed_at");
            assert("id"@.len() == 2);
            assert("status"@.len() == 6);
            assert("type"@.len() == 4);
            assert("price"@.len() == 5);
            assert("amount"@.len() == 6);
            assert("execution_price"@.len() == 15);
            assert("avg_execution_price"@.len() == 19);
            assert("market"@.len() == 6);
            assert("created_at"@.len() == 10);
            assert("updated_at"@.len() == 10);
            assert("executed_at"@.len() == 11);
            assert("status"@[0] != "amount"@[0]);
            assert("status"@[0] != "market"@[0]);
            assert("amount"@[0] != "market"@[0]);
            assert("created_at"@[0] != "updated_at"@[0]);
        }
        let id = match take_text_or_empty(&mut fields, "id") {
            Some(v) => v,
            None => return None,
        };
        let status = match take_text_or_empty(&mut fields, "status") {
            Some(v) => v,
            None => return None,
        };
        let order_type = match take_required::<String>(&mut fields, "type") {
            Some(v) => v,
            None => return None,
        };
        let price = match take_text_or_empty(&mut fields, "price") {
            Some(v) => v,
            None => return None,
        };
        let amount = match take_required::<Amount>(&mut fields, "amount") {
            Some(v) => v,
            None => return None,
        };
        let execution_price = take_json_or_null(&mut fields, "execution_price");
        let avg_execution_price = match take_text_or_empty(&mut fields, "avg_execution_price") {
            Some(v) => v,
            None => return None,
        };
        let market = match take_text_or_empty(&mut fields, "market") {
            Some(v) => v,
            None => return None,
        };
        let created_at = match take_text_or_empty(&mut fields, "created_at") {
            Some(v) => v,
            None => return None,
        };
        let updated_at = match take_text_or_empty(&mut fields, "updated_at") {
            Some(v) => v,
            None => return None,
        };
        let executed_at = match take_text_or_empty(&mut fields, "executed_at") {
            Some(v) => v,
            None => return None,
        };
        Some(Order { id, status, order_type, price, amount, execution_price, avg_execution_price, market, created_at, updated_at, executed_at })
    }
}

/// A quote of the instant exchange: what a purchase or sale would obtain and require.
#[derive(Debug, Clone)]
pub struct OrdersInstant {
    /// Amount to be received if the request were made
    pub obtained: String,
    /// Amount that the request would use
    pub required: String,
}

/// The content of a [`OrdersInstant`], with each string as its characters.
pub struct OrdersInstantView {
    pub obtained: Seq<char>,
    pub required: Seq<char>,
}

impl DeepView for OrdersInstant {
    type V = OrdersInstantView;

    open spec fn deep_view(&self) -> OrdersInstantView {
        OrdersInstantView {
            obtained: self.obtained@,
            required: self.required@,
        }
    }
}

impl FromJson for OrdersInstant {
    /// A JSON object reads as a `OrdersInstant` when each required member is present
    /// with the right shape and each optional one, if present, has it.
    open spec fn json_model(j: JsonValue) -> Option<OrdersInstantView> {
        match j {
            JsonValue::Object(members) => {
                let fs = members@;
                if text_or_empty_model(fs, "obtained"@) is Some
                    && text_or_empty_model(fs, "required"@) is Some {
                    Some(
                        OrdersInstantView {
                            obtained: text_or_empty_model(fs, "obtained"@)->0,
                            required: text_or_empty_model(fs, "required"@)->0,
                        },
                    )
                } else {
                    None
                }
            },
            _ => None,
        }
    }

    fn from_json(j: JsonValue) -> (r: Option<OrdersInstant>) {
        let mut fields = match j {
            JsonValue::Object(members) => members,
            _ => return None,
        };
        proof {
            reveal_strlit("obtained");
            reveal_strlit("required");
            assert("obtained"@.len() == 8);
            assert("required"@.len() == 8);
            assert("obtained"@[0] != "required"@[0]);
        }
        let obtained = match take_text_or_empty(&mut fields, "obtained") {
            Some(v) => v,
            None => return None,
        };
        let required = match take_text_or_empty(&mut fields, "required") {
            Some(v) => v,
            None => return None,
        };
        Some(OrdersInstant { obtained, required })
    }
}

/// The state of one wallet of the user.
#[derive(Debug, Clone)]
pub struct Balance {
    /// Wallet
    pub wallet: String,
    /// Balance available
    pub available: String,
    /// Accounted balance
    pub balance: String,
}

/// The content of a [`Balance`], with each string as its characters.
pub struct BalanceView {
    pub wallet: Seq<char>,
    pub available: Seq<char>,
    pub balance: Seq<char>,
}

impl DeepView for Balance {
    type V = BalanceView;

    open spec fn deep_view(&self) -> BalanceView {
        BalanceView {
            wallet: self.wallet@,
            available: self.available@,
            balance: self.balance@,
        }
    }
}

impl FromJson for Balance {
    /// A JSON object reads as a `Balance` when each required member is present
    /// with the right shape and each optional one, if present, has it.
    open spec fn json_model(j: JsonValue) -> Option<BalanceView> {
        match j {
            JsonValue::Object(members) => {
                let fs = members@;
                if required_model::<String>(fs, "wallet"@) is Some
                    && required_model::<String>(fs, "available"@) is Some
                    && required_model::<String>(fs, "balance"@) is Some {
                    Some(
                        BalanceView {
                            wallet: required_model::<String>(fs, "wallet"@)->0,
                            available: required_model::<String>(fs, "available"@)->0,
                            balance: required_model::<String>(fs, "balance"@)->0,
                        },
                    )
                } else {
                    None
                }
            },
            _ => None,
        }
    }

    fn from_json(j: JsonValue) -> (r: Option<Balance>) {
        let mut fields = match j {
            JsonValue::Object(members) => members,
            _ => return None,
        };
        proof {
            reveal_strlit("wallet");
            reveal_strlit("available");
            reveal_strlit("balance");
            assert("wallet"@.len() == 6);
            assert("available"@.len() == 9);
            assert("balance"@.len() == 7);
        }
        let wallet = match take_required::<String>(&mut fields, "wallet") {
            Some(v) => v,
            None => return None,
        };
        let available = match take_required::<String>(&mut fields, "available") {
            Some(v) => v,
            None => return None,
        };
        let balance = match take_required::<String>(&mut fields, "balance") {
            Some(v) => v,
            None => return None,
        };
        Some(Balance { wallet, available, balance })
    }
}

/// A payment order.
#[derive(Debug, Clone)]
pub struct Payment {
    /// Internal ID of the payment order
    pub id: i32,
    /// External ID
    pub external_id: String,
    /// State of the payment order
    pub status: String,
    /// Amount of the payment order
    pub to_receive: String,
    /// Currency to be received
    pub to_receive_currency: String,
    /// Amount awaited for the order to be accepted
    pub expected_amount: String,
    /// Currency awaited for the order to be accepted
    pub expected_currency: String,
    /// Payment order address
    pub deposit_address: String,
    /// Contact email to coordinate refunds
    pub refund_email: String,
    /// URL of the image of the payment QR
    pub qr: String,
    /// Observations
    pub obs: String,
    /// Notification URL
    pub callback_url: String,
    /// Error URL
    pub error_url: String,
    /// Success URL
    pub success_url: String,
    /// Payment order voucher URL
    pub payment_url: String,
    /// Creation date of the payment order
    pub created_at: String,
    /// Date of update of the payment order
    pub updated_at: String,
}

/// The content of a [`Payment`], with each string as its characters.
pub struct PaymentView {
    pub id: i32,
    pub external_id: Seq<char>,
    pub status: Seq<char>,
    pub to_receive: Seq<char>,
    pub to_receive_currency: Seq<char>,
    pub expected_amount: Seq<char>,
    pub expected_currency: Seq<char>,
    pub deposit_address: Seq<char>,
    pub refund_email: Seq<char>,
    pub qr: Seq<char>,
    pub obs: Seq<char>,
    pub callback_url: Seq<char>,
    pub error_url: Seq<char>,
    pub success_url: Seq<char>,
    pub payment_url: Seq<char>,
    pub created_at: Seq<char>,
    pub updated_at: Seq<char>,
}

impl DeepView for Payment {
    type V = PaymentView;

    open spec fn deep_view(&self) -> PaymentView {
        PaymentView {
            id: self.id,
            external_id: self.external_id@,
            status: self.status@,
            to_receive: self.to_receive@,
            to_receive_currency: self.to_receive_currency@,
            expected_amount: self.expected_amount@,
            expected_currency: self.expected_currency@,
            deposit_address: self.deposit_address@,
            refund_email: self.refund_email@,
            qr: self.qr@,
            obs: self.obs@,
            callback_url: self.callback_url@,
            error_url: self.error_url@,
            success_url: self.success_url@,
            payment_url: self.payment_url@,
            created_at: self.created_at@,
            updated_at: self.updated_at@,
        }
    }
}

impl FromJson for Payment {
    /// A JSON object reads as a `Payment` when each required member is present
    /// with the right shape and each optional one, if present, has it.
    open spec fn json_model(j: JsonValue) -> Option<PaymentView> {
        match j {
            JsonValue::Object(members) => {
                let fs = members@;
                if required_model::<i32>(fs, "id"@) is Some
                    && required_model::<String>(fs, "external_id"@) is Some
                    && required_model::<String>(fs, "status"@) is Some
                    && required_model::<String>(fs, "to_receive"@) is Some
                    && required_model::<String>(fs, "to_receive_currency"@) is Some
                    && required_model::<String>(fs, "expected_amount"@) is Some
                    && required_model::<String>(fs, "expected_currency"@) is Some
                    && required_model::<String>(fs, "deposit_address"@) is Some
                    && required_model::<String>(fs, "refund_email"@) is Some
                    && required_model::<String>(fs, "qr"@) is Some
                    && required_model::<String>(fs, "obs"@) is Some
                    && required_model::<String>(fs, "callback_url"@) is Some
                    && required_model::<String>(fs, "error_url"@) is Some
                    && required_model::<String>(fs, "success_url"@) is Some
                    && required_model::<String>(fs, "payment_url"@) is Some
                    && required_model::<String>(fs, "created_at"@) is Some
                    && required_model::<String>(fs, "updated_at"@) is Some {
                    Some(
                        PaymentView {
                            id: required_model::<i32>(fs, "id"@)->0,
                            external_id: required_model::<String>(fs, "external_id"@)->0,
                            status: required_model::<String>(fs, "status"@)->0,
                            to_receive: required_model::<String>(fs, "to_receive"@)->0,
                            to_receive_currency: required_model::<String>(fs, "to_receive_currency"@)->0,
                            expected_amount: required_model::<String>(fs, "expected_amount"@)->0,
                            expected_currency: required_model::<String>(fs, "expected_currency"@)->0,
                            deposit_address: required_model::<String>(fs, "deposit_address"@)->0,
                            refund_email: required_model::<String>(fs, "refund_email"@)->0,
                            qr: required_model::<String>(fs, "qr"@)->0,
                            obs: required_model::<String>(fs, "obs"@)->0,
                            callback_url: required_model::<String>(fs, "callback_url"@)->0,
                            error_url: required_model::<String>(fs, "error_url"@)->0,
                            success_url: required_model::<String>(fs, "success_url"@)->0,
                            payment_url: required_model::<String>(fs, "payment_url"@)->0,
                            created_at: required_model::<String>(fs, "created_at"@)->0,
                            updated_at: required_model::<String>(fs, "updated_at"@)->0,
                        },
                    )
                } else {
                    None
                }
            },
            _ => None,
        }
    }

    fn from_json(j: JsonValue) -> (r: Option<Payment>) {
        let mut fields = match j {
            JsonValue::Object(members) => members,
            _ => return None,
        };
        proof {
            reveal_strlit("id");
            reveal_strlit("external_id");
            reveal_strlit("status");
            reveal_strlit("to_receive");
            reveal_strlit("to_receive_currency");
            reveal_strlit("expected_amount");
            reveal_strlit("expected_currency");
            reveal_strlit("deposit_address");
            reveal_strlit("refund_email");
            reveal_strlit("qr");
            reveal_strlit("obs");
            reveal_strlit("callback_url");
            reveal_strlit("error_url");
            reveal_strlit("success_url");
            reveal_strlit("payment_url");
            reveal_strlit("created_at");
            reveal_strlit("updated_at");
            assert("id"@.len() == 2);
            assert("external_id"@.len() == 11);
            assert("status"@.len() == 6);
            assert("to_receive"@.len() == 10);
            assert("to_receive_currency"@.len() == 19);
            assert("expected_amount"@.len() == 15);
            assert("expected_currency"@.len() == 17);
            assert("deposit_address"@.len() == 15);
            assert("refund_email"@.len() == 12);
            assert("qr"@.len() == 2);
            assert("obs"@.len() == 3);
            assert("callback_url"@.len() == 12);
            assert("error_url"@.len() == 9);
            assert("success_url"@.len() == 11);
            assert("payment_url"@.len() == 11);
            assert("created_at"@.len() == 10);
            assert("updated_at"@.len() == 10);
            assert("id"@[0] != "qr"@[0]);
            assert("external_id"@[0] != "success_url"@[0]);
            assert("external_id"@[0] != "payment_url"@[0]);
            assert("to_receive"@[0] != "created_at"@[0]);
            assert("to_receive"@[0] != "updated_at"@[0]);
            assert("expected_amount"@[0] != "deposit_address"@[0]);
            assert("refund_email"@[0] != "callback_url"@[0]);
            assert("success_url"@[0] != "payment_url"@[0]);
            assert("created_at"@[0] != "updated_at"@[0]);
        }
        let id = match take_required::<i32>(&mut fields, "id") {
            Some(v) => v,
            None => return None,
        };
        let external_id = match take_required::<String>(&mut fields, "external_id") {
            Some(v) => v,
            None => return None,
        };
        let status = match take_required::<String>(&mut fields, "status") {
            Some(v) => v,
            None => return None,
        };
        let to_receive = match take_required::<String>(&mut fields, "to_receive") {
            Some(v) => v,
            None => return None,
        };
        let to_receive_currency = match take_required::<String>(&mut fields, "to_receive_currency") {
            Some(v) => v,
            None => return None,
        };
        let expected_amount = match take_required::<String>(&mut fields, "expected_amount") {
            Some(v) => v,
            None => return None,
        };
        let expected_currency = match take_required::<String>(&mut fields, "expected_currency") {
            Some(v) => v,
            None => return None,
        };
        let deposit_address = match take_required::<String>(&mut fields, "deposit_address") {
            Some(v) => v,
            None => return None,
        };
        let refund_email = match take_required::<String>(&mut fields, "refund_email") {
            Some(v) => v,
            None => return None,
        };
        let qr = match take_required::<String>(&mut fields, "qr") {
            Some(v) => v,
            None => return None,
        };
        let obs = match take_required::<String>(&mut fields, "obs") {
            Some(v) => v,
            None => return None,
        };
        let callback_url = match take_required::<String>(&mut fields, "callback_url") {
            Some(v) => v,
            None => return None,
        };
        let error_url = match take_required::<String>(&mut fields, "error_url") {
            Some(v) => v,
            None => return None,
        };
        let success_url = match take_required::<String>(&mut fields, "success_url") {
            Some(v) => v,
            None => return None,
        };
        let payment_url = match take_required::<String>(&mut fields, "payment_url") {
            Some(v) => v,
            None => return None,
        };
        let created_at = match take_required::<String>(&mut fields, "created_at") {
            Some(v) => v,
            None => return None,
        };
        let updated_at = match take_required::<String>(&mut fields, "updated_at") {
            Some(v) => v,
            None => return None,
        };
        Some(Payment { id, external_id, status, to_receive, to_receive_currency, expected_amount, expected_currency, deposit_address, refund_email, qr, obs, callback_url, error_url, success_url, payment_url, created_at, updated_at })
    }
}

} // verus!
