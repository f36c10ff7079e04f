use vstd::prelude::*;

verus! {

/// The operations of the API, one per endpoint.
#[derive(Clone, Copy, PartialEq, Eq, Structural, Debug)]
pub enum Operation {
    GetInstrumentCandles,
    GetInstrumentOrderBook,
    GetInstrumentPositionBook,
    ListPositions,
    ListOpenPositions,
    GetPosition,
    ClosePosition,
    ListTrades,
    ListOpenTrades,
    GetTrade,
    CloseTrade,
    SetTradeClientExtensions,
    SetTradeDependentOrders,
    ListAccounts,
    GetAccount,
    GetAccountSummary,
    GetAccountInstruments,
    ConfigureAccount,
    GetAccountChanges,
    ListTransactions,
    GetTransaction,
    GetTransactionRange,
    GetTransactionsSinceId,
    StreamTransactions,
    GetLatestCandles,
    GetPrices,
    StreamPricing,
    GetAccountInstrumentCandles,
    ListOrders,
    CreateOrder,
    ListPendingOrders,
    GetOrder,
    ReplaceOrder,
    CancelOrder,
    SetOrderClientExtensions,
}

/// The HTTP method of a request.
#[derive(Clone, Copy, PartialEq, Eq, Structural, Debug)]
pub enum HttpMethod {
    Get,
    Post,
    Put,
    Patch,
}

/// The type that a parameter's value is converted to when it is set.
#[derive(Clone, Copy, PartialEq, Eq, Structural, Debug)]
pub enum ParamKind {
    Text,
    Integer,
    Flag,
    TextList,
}

/// Where a parameter's value travels in the request.
#[derive(Clone, Copy, PartialEq, Eq, Structural, Debug)]
pub enum Placement {
    Path,
    Query,
    Header,
}

/// One declared parameter of an operation: the name of its setter, the key
/// under which it is sent, its type, where it goes and whether the request
/// needs it.
#[derive(Clone, Copy, Debug)]
pub struct Param {
    pub name: &'static str,
    pub wire: &'static str,
    pub kind: ParamKind,
    pub place: Placement,
    pub required: bool,
}

/// One piece of a path template: fixed text, or the value of the parameter
/// with the given index, encoded as a path segment.
#[derive(Clone, Copy, Debug)]
pub enum Piece {
    Lit(&'static str),
    Segment(usize),
}

/// The parameters of an operation, in declaration order.
pub open spec fn params_of(op: Operation) -> Seq<Param> {
    match op {
        Operation::GetInstrumentCandles => seq![
            Param { name: "instrument", wire: "instrument", kind: ParamKind::Text, place: Placement::Path, required: true },
            Param { name: "alignment_timezone", wire: "alignmentTimezone", kind: ParamKind::Text, place: Placement::Query, required: false },
            Param { name: "count", wire: "count", kind: ParamKind::Integer, place: Placement::Query, required: false },
            Param { name: "daily_alignment", wire: "dailyAlignment", kind: ParamKind::Integer, place: Placement::Query, required: false },
            Param { name: "from", wire: "from", kind: ParamKind::Text, place: Placement::Query, required: false },
            Param { name: "granularity", wire: "granularity", kind: ParamKind::Text, place: Placement::Query, required: false },
            Param { name: "include_first", wire: "includeFirst", kind: ParamKind::Flag, place: Placement::Query, required: false },
            Param { name: "price", wire: "price", kind: ParamKind::Text, place: Placement::Query, required: false },
            Param { name: "smooth", wire: "smooth", kind: ParamKind::Flag, place: Placement::Query, required: false },
            Param { name: "to", wire: "to", kind: ParamKind::Text, place: Placement::Query, required: false },
            Param { name: "weekly_alignment", wire: "weeklyAlignment", kind: ParamKind::Text, place: Placement::Query, required: false },
        ],
        Operation::GetInstrumentOrderBook => seq![
            Param { name: "instrument", wire: "instrument", kind: ParamKind::Text, place: Placement::Path, required: true },
            Param { name: "time", wire: "time", kind: ParamKind::Text, place: Placement::Query, required: false },
        ],
        Operation::GetInstrumentPositionBook => seq![
            Param { name: "instrument", wire: "instrument", kind: ParamKind::Text, place: Placement::Path, required: true },
            Param { name: "time", wire: "time", kind: ParamKind::Text, place: Placement::Query, required: false },
        ],
        Operation::ListPositions => seq![
            Param { name: "account_id", wire: "account_id", kind: ParamKind::Text, place: Placement::Path, required: true },
        ],
        Operation::ListOpenPositions => seq![
            Param { name: "account_id", wire: "account_id", kind: ParamKind::Text, place: Placement::Path, required: true },
        ],
        Operation::GetPosition => seq![
            Param { name: "account_id", wire: "account_id", kind: ParamKind::Text, place: Placement::Path, required: true },
            Param { name: "instrument", wire: "instrument", kind: ParamKind::Text, place: Placement::Path, required: true },
        ],
        Operation::ClosePosition => seq![
            Param { name: "account_id", wire: "account_id", kind: ParamKind::Text, place: Placement::Path, required: true },
            Param { name: "instrument", wire: "instrument", kind: ParamKind::Text, place: Placement::Path, required: true },
        ],
        Operation::ListTrades => seq![
            Param { name: "account_id", wire: "account_id", kind: ParamKind::Text, place: Placement::Path, required: true },
            Param { name: "before_id", wire: "beforeID", kind: ParamKind::Text, place: Placement::Query, required: false },
            Param { name: "count", wire: "count", kind: ParamKind::Integer, place: Placement::Query, required: false },
            Param { name: "ids", wire: "ids", kind: ParamKind::TextList, place: Placement::Query, required: false },
            Param { name: "instrument", wire: "instrument", kind: ParamKind::Text, place: Placement::Query, required: false },
            Param { name: "state", wire: "state", kind: ParamKind::Text, place: Placement::Query, required: false },
        ],
        Operation::ListOpenTrades => seq![
            Param { name: "account_id", wire: "account_id", kind: ParamKind::Text, place: Placement::Path, required: true },
        ],
        Operation::GetTrade => seq![
            Param { name: "account_id", wire: "account_id", kind: ParamKind::Text, place: Placement::Path, required: true },
            Param { name: "trade_specifier", wire: "trade_specifier", kind: ParamKind::Text, place: Placement::Path, required: true },
        ],
        Operation::CloseTrade => seq![
            Param { name: "account_id", wire: "account_id", kind: ParamKind::Text, place: Placement::Path, required: true },
            Param { name: "trade_specifier", wire: "trade_specifier", kind: ParamKind::Text, place: Placement::Path, required: true },
        ],
        Operation::SetTradeClientExtensions => seq![
            Param { name: "account_id", wire: "account_id", kind: ParamKind::Text, place: Placement::Path, required: true },
            Param { name: "trade_specifier", wire: "trade_specifier", kind: ParamKind::Text, place: Placement::Path, required: true },
        ],
        Operation::SetTradeDependentOrders => seq![
            Param { name: "account_id", wire: "account_id", kind: ParamKind::Text, place: Placement::Path, required: true },
            Param { name: "trade_specifier", wire: "trade_specifier", kind: ParamKind::Text, place: Placement::Path, required: true },
        ],
        Operation::ListAccounts => seq![],
        Operation::GetAccount => seq![
            Param { name: "account_id", wire: "account_id", kind: ParamKind::Text, place: Placement::Path, required: true },
        ],
        Operation::GetAccountSummary => seq![
            Param { name: "account_id", wire: "account_id", kind: ParamKind::Text, place: Placement::Path, required: true },
        ],
        Operation::GetAccountInstruments => seq![
            Param { name: "account_id", wire: "account_id", kind: ParamKind::Text, place: Placement::Path, required: true },
            Param { name: "instruments", wire: "instruments", kind: ParamKind::TextList, place: Placement::Query, required: false },
        ],
        Operation::ConfigureAccount => seq![
            Param { name: "account_id", wire: "account_id", kind: ParamKind::Text, place: Placement::Path, required: true },
        ],
        Operation::GetAccountChanges => seq![
            Param { name: "account_id", wire: "account_id", kind: ParamKind::Text, place: Placement::Path, required: true },
            Param { name: "since_transaction_id", wire: "sinceTransactionID", kind: ParamKind::Text, place: Placement::Query, required: false },
        ],
        Operation::ListTransactions => seq![
            Param { name: "account_id", wire: "account_id", kind: ParamKind::Text, place: Placement::Path, required: true },
            Param { name: "from", wire: "from", kind: ParamKind::Text, place: Placement::Query, required: false },
            Param { name: "page_size", wire: "pageSize", kind: ParamKind::Integer, place: Placement::Query, required: false },
            Param { name: "to", wire: "to", kind: ParamKind::Text, place: Placement::Query, required: false },
            Param { name: "type_", wire: "type", kind: ParamKind::TextList, place: Placement::Query, required: false },
        ],
        Operation::GetTransaction => seq![
            Param { name: "account_id", wire: "account_id", kind: ParamKind::Text, place: Placement::Path, required: true },
            Param { name: "transaction_id", wire: "transaction_id", kind: ParamKind::Text, place: Placement::Path, required: true },
        ],
        Operation::GetTransactionRange => seq![
            Param { name: "account_id", wire: "account_id", kind: ParamKind::Text, place: Placement::Path, required: true },
            Param { name: "from", wire: "from", kind: ParamKind::Text, place: Placement::Query, required: true },
            Param { name: "to", wire: "to", kind: ParamKind::Text, place: Placement::Query, required: true },
            Param { name: "type_", wire: "type", kind: ParamKind::TextList, place: Placement::Query, required: false },
        ],
        Operation::GetTransactionsSinceId => seq![
            Param { name: "account_id", wire: "account_id", kind: ParamKind::Text, place: Placement::Path, required: true },
            Param { name: "id", wire: "id", kind: ParamKind::Text, place: Placement::Query, required: true },
        ],
        Operation::StreamTransactions => seq![
            Param { name: "account_id", wire: "account_id", kind: ParamKind::Text, place: Placement::Path, required: true },
        ],
        Operation::GetLatestCandles => seq![
            Param { name: "account_id", wire: "account_id", kind: ParamKind::Text, place: Placement::Path, required: true },
            Param { name: "alignment_timezone", wire: "alignmentTimezone", kind: ParamKind::Text, place: Placement::Query, required: false },
            Param { name: "candle_specifications", wire: "candleSpecifications", kind: ParamKind::TextList, place: Placement::Query, required: true },
            Param { name: "daily_alignment", wire: "dailyAlignment", kind: ParamKind::Integer, place: Placement::Query, required: false },
            Param { name: "smooth", wire: "smooth", kind: ParamKind::Flag, place: Placement::Query, required: false },
            Param { name: "units", wire: "units", kind: ParamKind::Text, place: Placement::Query, required: false },
            Param { name: "weekly_alignment", wire: "weeklyAlignment", kind: ParamKind::Text, place: Placement::Query, required: false },
        ],
        Operation::GetPrices => seq![
            Param { name: "account_id", wire: "account_id", kind: ParamKind::Text, place: Placement::Path, required: true },
            Param { name: "include_home_conversions", wire: "includeHomeConversions", kind: ParamKind::Flag, place: Placement::Query, required: false },
            Param { name: "include_units_available", wire: "includeUnitsAvailable", kind: ParamKind::Flag, place: Placement::Query, required: false },
            Param { name: "instruments", wire: "instruments", kind: ParamKind::TextList, place: Placement::Query, required: true },
            Param { name: "since", wire: "since", kind: ParamKind::Text, place: Placement::Query, required: false },
        ],
        Operation::StreamPricing => seq![
            Param { name: "account_id", wire: "account_id", kind: ParamKind::Text, place: Placement::Path, required: true },
            Param { name: "instruments", wire: "instruments", kind: ParamKind::TextList, place: Placement::Query, required: true },
            Param { name: "snapshot", wire: "snapshot", kind: ParamKind::Flag, place: Placement::Query, required: false },
        ],
        Operation::GetAccountInstrumentCandles => seq![
            Param { name: "account_id", wire: "account_id", kind: ParamKind::Text, place: Placement::Path, required: true },
            Param { name: "instrument", wire: "instrument", kind: ParamKind::Text, place: Placement::Path, required: true },
            Param { name: "alignment_timezone", wire: "alignmentTimezone", kind: ParamKind::Text, place: Placement::Query, required: false },
            Param { name: "count", wire: "count", kind: ParamKind::Integer, place: Placement::Query, required: false },
            Param { name: "daily_alignment", wire: "dailyAlignment", kind: ParamKind::Integer, place: Placement::Query, required: false },
            Param { name: "from", wire: "from", kind: ParamKind::Text, place: Placement::Query, required: false },
            Param { name: "granularity", wire: "granularity", kind: ParamKind::Text, place: Placement::Query, required: false },
            Param { name: "include_first", wire: "includeFirst", kind: ParamKind::Flag, place: Placement::Query, required: false },
            Param { name: "price", wire: "price", kind: ParamKind::Text, place: Placement::Query, required: false },
            Param { name: "smooth", wire: "smooth", kind: ParamKind::Flag, place: Placement::Query, required: false },
            Param { name: "to", wire: "to", kind: ParamKind::Text, place: Placement::Query, required: false },
            Param { name: "units", wire: "units", kind: ParamKind::Text, place: Placement::Query, required: false },
            Param { name: "weekly_alignment", wire: "weeklyAlignment", kind: ParamKind::Text, place: Placement::Query, required: false },
        ],
        Operation::ListOrders => seq![
            Param { name: "account_id", wire: "account_id", kind: ParamKind::Text, place: Placement::Path, required: true },
            Param { name: "before_id", wire: "beforeID", kind: ParamKind::Text, place: Placement::Query, required: false },
            Param { name: "count", wire: "count", kind: ParamKind::Integer, place: Placement::Query, required: false },
            Param { name: "ids", wire: "ids", kind: ParamKind::TextList, place: Placement::Query, required: false },
            Param { name: "instrument", wire: "instrument", kind: ParamKind::Text, place: Placement::Query, required: false },
            Param { name: "state", wire: "state", kind: ParamKind::Text, place: Placement::Query, required: false },
        ],
        Operation::CreateOrder => seq![
            Param { name: "account_id", wire: "account_id", kind: ParamKind::Text, place: Placement::Path, required: true },
        ],
        Operation::ListPendingOrders => seq![
            Param { name: "account_id", wire: "account_id", kind: ParamKind::Text, place: Placement::Path, required: true },
        ],
        Operation::GetOrder => seq![
            Param { name: "account_id", wire: "account_id", kind: ParamKind::Text, place: Placement::Path, required: true },
            Param { name: "order_specifier", wire: "order_specifier", kind: ParamKind::Text, place: Placement::Path, required: true },
        ],
        Operation::ReplaceOrder => seq![
            Param { name: "account_id", wire: "account_id", kind: ParamKind::Text, place: Placement::Path, required: true },
            Param { name: "order_specifier", wire: "order_specifier", kind: ParamKind::Text, place: Placement::Path, required: true },
            Param { name: "client_request_id", wire: "ClientRequestID", kind: ParamKind::Text, place: Placement::Header, required: false },
        ],
        Operation::CancelOrder => seq![
            Param { name: "account_id", wire: "account_id", kind: ParamKind::Text, place: Placement::Path, required: true },
            Param { name: "order_specifier", wire: "order_specifier", kind: ParamKind::Text, place: Placement::Path, required: true },
            Param { name: "client_request_id", wire: "ClientRequestID", kind: ParamKind::Text, place: Placement::Header, required: false },
        ],
        Operation::SetOrderClientExtensions => seq![
            Param { name: "account_id", wire: "account_id", kind: ParamKind::Text, place: Placement::Path, required: true },
            Param { name: "order_specifier", wire: "order_specifier", kind: ParamKind::Text, place: Placement::Path, required: true },
        ],
    }
}

/// The path template of an operation, below the base URL.
pub open spec fn template_of(op: Operation) -> Seq<Piece> {
    match op {
        Operation::GetInstrumentCandles => seq![
            Piece::Lit("/instruments/"),
            Piece::Segment(0),
            Piece::Lit("/candles"),
        ],
        Operation::GetInstrumentOrderBook => seq![
            Piece::Lit("/instruments/"),
            Piece::Segment(0),
            Piece::Lit("/orderBook"),
        ],
        Operation::GetInstrumentPositionBook => seq![
            Piece::Lit("/instruments/"),
            Piece::Segment(0),
            Piece::Lit("/positionBook"),
        ],
        Operation::ListPositions => seq![
            Piece::Lit("/accounts/"),
            Piece::Segment(0),
            Piece::Lit("/positions"),
        ],
        Operation::ListOpenPositions => seq![
            Piece::Lit("/accounts/"),
            Piece::Segment(0),
            Piece::Lit("/openPositions"),
        ],
        Operation::GetPosition => seq![
            Piece::Lit("/accounts/"),
            Piece::Segment(0),
            Piece::Lit("/positions/"),
            Piece::Segment(1),
        ],
        Operation::ClosePosition => seq![
            Piece::Lit("/accounts/"),
            Piece::Segment(0),
            Piece::Lit("/positions/"),
            Piece::Segment(1),
            Piece::Lit("/close"),
        ],
        Operation::ListTrades => seq![
            Piece::Lit("/accounts/"),
            Piece::Segment(0),
            Piece::Lit("/trades"),
        ],
        Operation::ListOpenTrades => seq![
            Piece::Lit("/accounts/"),
            Piece::Segment(0),
            Piece::Lit("/openTrades"),
        ],
        Operation::GetTrade => seq![
            Piece::Lit("/accounts/"),
            Piece::Segment(0),
            Piece::Lit("/trades/"),
            Piece::Segment(1),
        ],
        Operation::CloseTrade => seq![
            Piece::Lit("/accounts/"),
            Piece::Segment(0),
            Piece::Lit("/trades/"),
            Piece::Segment(1),
            Piece::Lit("/close"),
        ],
        Operation::SetTradeClientExtensions => seq![
            Piece::Lit("/accounts/"),
            Piece::Segment(0),
            Piece::Lit("/trades/"),
            Piece::Segment(1),
            Piece::Lit("/clientExtensions"),
        ],
        Operation::SetTradeDependentOrders => seq![
            Piece::Lit("/accounts/"),
            Piece::Segment(0),
            Piece::Lit("/trades/"),
            Piece::Segment(1),
            Piece::Lit("/orders"),
        ],
        Operation::ListAccounts => seq![
            Piece::Lit("/accounts"),
        ],
        Operation::GetAccount => seq![
            Piece::Lit("/accounts/"),
            Piece::Segment(0),
        ],
        Operation::GetAccountSummary => seq![
            Piece::Lit("/accounts/"),
            Piece::Segment(0),
            Piece::Lit("/summary"),
        ],
        Operation::GetAccountInstruments => seq![
            Piece::Lit("/accounts/"),
            Piece::Segment(0),
            Piece::Lit("/instruments"),
        ],
        Operation::ConfigureAccount => seq![
            Piece::Lit("/accounts/"),
            Piece::Segment(0),
            Piece::Lit("/configuration"),
        ],
        Operation::GetAccountChanges => seq![
            Piece::Lit("/accounts/"),
            Piece::Segment(0),
            Piece::Lit("/changes"),
        ],
        Operation::ListTransactions => seq![
            Piece::Lit("/accounts/"),
            Piece::Segment(0),
            Piece::Lit("/transactions"),
        ],
        Operation::GetTransaction => seq![
            Piece::Lit("/accounts/"),
            Piece::Segment(0),
            Piece::Lit("/transactions/"),
            Piece::Segment(1),
        ],
        Operation::GetTransactionRange => seq![
            Piece::Lit("/accounts/"),
            Piece::Segment(0),
            Piece::Lit("/transactions/idrange"),
        ],
        Operation::GetTransactionsSinceId => seq![
            Piece::Lit("/accounts/"),
            Piece::Segment(0),
            Piece::Lit("/transactions/sinceid"),
        ],
        Operation::StreamTransactions => seq![
            Piece::Lit("/accounts/"),
            Piece::Segment(0),
            Piece::Lit("/transactions/stream"),
        ],
        Operation::GetLatestCandles => seq![
            Piece::Lit("/accounts/"),
            Piece::Segment(0),
            Piece::Lit("/candles/latest"),
        ],
        Operation::GetPrices => seq![
            Piece::Lit("/accounts/"),
            Piece::Segment(0),
            Piece::Lit("/pricing"),
        ],
        Operation::StreamPricing => seq![
            Piece::Lit("/accounts/"),
            Piece::Segment(0),
            Piece::Lit("/pricing/stream"),
        ],
        Operation::GetAccountInstrumentCandles => seq![
            Piece::Lit("/accounts/"),
            Piece::Segment(0),
            Piece::Lit("/instruments/"),
            Piece::Segment(1),
            Piece::Lit("/candles"),
        ],
        Operation::ListOrders => seq![
            Piece::Lit("/accounts/"),
            Piece::Segment(0),
            Piece::Lit("/orders"),
        ],
        Operation::CreateOrder => seq![
            Piece::Lit("/accounts/"),
            Piece::Segment(0),
            Piece::Lit("/orders"),
        ],
        Operation::ListPendingOrders => seq![
            Piece::Lit("/accounts/"),
            Piece::Segment(0),
            Piece::Lit("/pendingOrders"),
        ],
        Operation::GetOrder => seq![
            Piece::Lit("/accounts/"),
            Piece::Segment(0),
            Piece::Lit("/orders/"),
            Piece::Segment(1),
        ],
        Operation::ReplaceOrder => seq![
            Piece::Lit("/accounts/"),
            Piece::Segment(0),
            Piece::Lit("/orders/"),
            Piece::Segment(1),
        ],
        Operation::CancelOrder => seq![
            Piece::Lit("/accounts/"),
            Piece::Segment(0),
            Piece::Lit("/orders/"),
            Piece::Segment(1),
            Piece::Lit("/cancel"),
        ],
        Operation::SetOrderClientExtensions => seq![
            Piece::Lit("/accounts/"),
            Piece::Segment(0),
            Piece::Lit("/orders/"),
            Piece::Segment(1),
            Piece::Lit("/clientExtensions"),
        ],
    }
}

pub open spec fn method_of(op: Operation) -> HttpMethod {
    match op {
        Operation::GetInstrumentCandles => HttpMethod::Get,
        Operation::GetInstrumentOrderBook => HttpMethod::Get,
        Operation::GetInstrumentPositionBook => HttpMethod::Get,
        Operation::ListPositions => HttpMethod::Get,
        Operation::ListOpenPositions => HttpMethod::Get,
        Operation::GetPosition => HttpMethod::Get,
        Operation::ClosePosition => HttpMethod::Put,
        Operation::ListTrades => HttpMethod::Get,
        Operation::ListOpenTrades => HttpMethod::Get,
        Operation::GetTrade => HttpMethod::Get,
        Operation::CloseTrade => HttpMethod::Put,
        Operation::SetTradeClientExtensions => HttpMethod::Put,
        Operation::SetTradeDependentOrders => HttpMethod::Put,
        Operation::ListAccounts => HttpMethod::Get,
        Operation::GetAccount => HttpMethod::Get,
        Operation::GetAccountSummary => HttpMethod::Get,
        Operation::GetAccountInstruments => HttpMethod::Get,
        Operation::ConfigureAccount => HttpMethod::Patch,
        Operation::GetAccountChanges => HttpMethod::Get,
        Operation::ListTransactions => HttpMethod::Get,
        Operation::GetTransaction => HttpMethod::Get,
        Operation::GetTransactionRange => HttpMethod::Get,
        Operation::GetTransactionsSinceId => HttpMethod::Get,
        Operation::StreamTransactions => HttpMethod::Get,
        Operation::GetLatestCandles => HttpMethod::Get,
        Operation::GetPrices => HttpMethod::Get,
        Operation::StreamPricing => HttpMethod::Get,
        Operation::GetAccountInstrumentCandles => HttpMethod::Get,
        Operation::ListOrders => HttpMethod::Get,
        Operation::CreateOrder => HttpMethod::Post,
        Operation::ListPendingOrders => HttpMethod::Get,
        Operation::GetOrder => HttpMethod::Get,
        Operation::ReplaceOrder => HttpMethod::Put,
        Operation::CancelOrder => HttpMethod::Put,
        Operation::SetOrderClientExtensions => HttpMethod::Put,
    }
}

/// The name of the body type that an operation sends, if it sends one.
pub open spec fn body_type_of(op: Operation) -> Option<&'static str> {
    match op {
        Operation::GetInstrumentCandles => None,
        Operation::GetInstrumentOrderBook => None,
        Operation::GetInstrumentPositionBook => None,
        Operation::ListPositions => None,
        Operation::ListOpenPositions => None,
        Operation::GetPosition => None,
        Operation::ClosePosition => Some("ClosePositionBody"),
        Operation::ListTrades => None,
        Operation::ListOpenTrades => None,
        Operation::GetTrade => None,
        Operation::CloseTrade => Some("CloseTradeBody"),
        Operation::SetTradeClientExtensions => Some("SetTradeClientExtensionsBody"),
        Operation::SetTradeDependentOrders => Some("SetTradeDependentOrdersBody"),
        Operation::ListAccounts => None,
        Operation::GetAccount => None,
        Operation::GetAccountSummary => None,
        Operation::GetAccountInstruments => None,
        Operation::ConfigureAccount => Some("ConfigureAccountBody"),
        Operation::GetAccountChanges => None,
        Operation::ListTransactions => None,
        Operation::GetTransaction => None,
        Operation::GetTransactionRange => None,
        Operation::GetTransactionsSinceId => None,
        Operation::StreamTransactions => None,
        Operation::GetLatestCandles => None,
        Operation::GetPrices => None,
        Operation::StreamPricing => None,
        Operation::GetAccountInstrumentCandles => None,
        Operation::ListOrders => None,
        Operation::CreateOrder => Some("CreateOrderBody"),
        Operation::ListPendingOrders => None,
        Operation::GetOrder => None,
        Operation::ReplaceOrder => Some("ReplaceOrderBody"),
        Operation::CancelOrder => None,
        Operation::SetOrderClientExtensions => Some("SetOrderClientExtensionsBody"),
    }
}

/// The status code whose response carries the operation's result.
pub open spec fn success_status_of(op: Operation) -> u16 {
    match op {
        Operation::GetInstrumentCandles => 200,
        Operation::GetInstrumentOrderBook => 200,
        Operation::GetInstrumentPositionBook => 200,
        Operation::ListPositions => 200,
        Operation::ListOpenPositions => 200,
        Operation::GetPosition => 200,
        Operation::ClosePosition => 200,
        Operation::ListTrades => 200,
        Operation::ListOpenTrades => 200,
        Operation::GetTrade => 200,
        Operation::CloseTrade => 200,
        Operation::SetTradeClientExtensions => 200,
        Operation::SetTradeDependentOrders => 200,
        Operation::ListAccounts => 200,
        Operation::GetAccount => 200,
        Operation::GetAccountSummary => 200,
        Operation::GetAccountInstruments => 200,
        Operation::ConfigureAccount => 200,
        Operation::GetAccountChanges => 200,
        Operation::ListTransactions => 200,
        Operation::GetTransaction => 200,
        Operation::GetTransactionRange => 200,
        Operation::GetTransactionsSinceId => 200,
        Operation::StreamTransactions => 200,
        Operation::GetLatestCandles => 200,
        Operation::GetPrices => 200,
        Operation::StreamPricing => 200,
        Operation::GetAccountInstrumentCandles => 200,
        Operation::ListOrders => 200,
        Operation::CreateOrder => 201,
        Operation::ListPendingOrders => 200,
        Operation::GetOrder => 200,
        Operation::ReplaceOrder => 201,
        Operation::CancelOrder => 200,
        Operation::SetOrderClientExtensions => 200,
    }
}

/// The status codes whose response carries the API's description of an
/// anticipated failure.
pub open spec fn error_statuses_of(op: Operation) -> Seq<u16> {
    match op {
        Operation::GetInstrumentCandles => seq![400u16, 401, 404, 405],
        Operation::GetInstrumentOrderBook => seq![400u16, 401, 404, 405],
        Operation::GetInstrumentPositionBook => seq![400u16, 401, 404, 405],
        Operation::ListPositions => seq![401u16, 404, 405],
        Operation::ListOpenPositions => seq![401u16, 404, 405],
        Operation::GetPosition => seq![401u16, 404, 405],
        Operation::ClosePosition => seq![400u16, 401, 404, 405],
        Operation::ListTrades => seq![401u16, 404, 405],
        Operation::ListOpenTrades => seq![401u16, 404, 405],
        Operation::GetTrade => seq![401u16, 404, 405],
        Operation::CloseTrade => seq![400u16, 401, 404, 405],
        Operation::SetTradeClientExtensions => seq![400u16, 401, 404, 405],
        Operation::SetTradeDependentOrders => seq![400u16, 401, 404, 405],
        Operation::ListAccounts => seq![401u16, 405],
        Operation::GetAccount => seq![400u16, 401, 405],
        Operation::GetAccountSummary => seq![400u16, 401, 405],
        Operation::GetAccountInstruments => seq![400u16, 401, 405],
        Operation::ConfigureAccount => seq![400u16, 401, 403, 404, 405],
        Operation::GetAccountChanges => seq![401u16, 404, 405, 416],
        Operation::ListTransactions => seq![400u16, 401, 403, 404, 405, 416],
        Operation::GetTransaction => seq![401u16, 404, 405],
        Operation::GetTransactionRange => seq![400u16, 401, 404, 405, 416],
        Operation::GetTransactionsSinceId => seq![400u16, 401, 404, 405, 416],
        Operation::StreamTransactions => seq![400u16, 401, 404, 405],
        Operation::GetLatestCandles => seq![400u16, 401, 404, 405],
        Operation::GetPrices => seq![400u16, 401, 404, 405],
        Operation::StreamPricing => seq![400u16, 401, 404, 405],
        Operation::GetAccountInstrumentCandles => seq![400u16, 401, 404, 405],
        Operation::ListOrders => seq![400u16, 404, 405],
        Operation::CreateOrder => seq![400u16, 401, 403, 404, 405],
        Operation::ListPendingOrders => seq![401u16, 404, 405],
        Operation::GetOrder => seq![401u16, 404, 405],
        Operation::ReplaceOrder => seq![400u16, 401, 404, 405],
        Operation::CancelOrder => seq![401u16, 404, 405],
        Operation::SetOrderClientExtensions => seq![400u16, 401, 404, 405],
    }
}

/// The parameters of an operation, in declaration order.
pub fn params(op: Operation) -> (r: Vec<Param>)
    ensures
        r@ == params_of(op),
{
    match op {
        Operation::GetInstrumentCandles => vec![
            Param { name: "instrument", wire: "instrument", kind: ParamKind::Text, place: Placement::Path, required: true },
            Param { name: "alignment_timezone", wire: "alignmentTimezone", kind: ParamKind::Text, place: Placement::Query, required: false },
            Param { name: "count", wire: "count", kind: ParamKind::Integer, place: Placement::Query, required: false },
            Param { name: "daily_alignment", wire: "dailyAlignment", kind: ParamKind::Integer, place: Placement::Query, required: false },
            Param { name: "from", wire: "from", kind: ParamKind::Text, place: Placement::Query, required: false },
            Param { name: "granularity", wire: "granularity", kind: ParamKind::Text, place: Placement::Query, required: false },
            Param { name: "include_first", wire: "includeFirst", kind: ParamKind::Flag, place: Placement::Query, required: false },
            Param { name: "price", wire: "price", kind: ParamKind::Text, place: Placement::Query, required: false },
            Param { name: "smooth", wire: "smooth", kind: ParamKind::Flag, place: Placement::Query, required: false },
            Param { name: "to", wire: "to", kind: ParamKind::Text, place: Placement::Query, required: false },
            Param { name: "weekly_alignment", wire: "weeklyAlignment", kind: ParamKind::Text, place: Placement::Query, required: false },
        ],
        Operation::GetInstrumentOrderBook => vec![
            Param { name: "instrument", wire: "instrument", kind: ParamKind::Text, place: Placement::Path, required: true },
            Param { name: "time", wire: "time", kind: ParamKind::Text, place: Placement::Query, required: false },
        ],
        Operation::GetInstrumentPositionBook => vec![
            Param { name: "instrument", wire: "instrument", kind: ParamKind::Text, place: Placement::Path, required: true },
            Param { name: "time", wire: "time", kind: ParamKind::Text, place: Placement::Query, required: false },
        ],
        Operation::ListPositions => vec![
            Param { name: "account_id", wire: "account_id", kind: ParamKind::Text, place: Placement::Path, required: true },
        ],
        Operation::ListOpenPositions => vec![
            Param { name: "account_id", wire: "account_id", kind: ParamKind::Text, place: Placement::Path, required: true },
        ],
        Operation::GetPosition => vec![
            Param { name: "account_id", wire: "account_id", kind: ParamKind::Text, place: Placement::Path, required: true },
            Param { name: "instrument", wire: "instrument", kind: ParamKind::Text, place: Placement::Path, required: true },
        ],
        Operation::ClosePosition => vec![
            Param { name: "account_id", wire: "account_id", kind: ParamKind::Text, place: Placement::Path, required: true },
            Param { name: "instrument", wire: "instrument", kind: ParamKind::Text, place: Placement::Path, required: true },
        ],
        Operation::ListTrades => vec![
            Param { name: "account_id", wire: "account_id", kind: ParamKind::Text, place: Placement::Path, required: true },
            Param { name: "before_id", wire: "beforeID", kind: ParamKind::Text, place: Placement::Query, required: false },
            Param { name: "count", wire: "count", kind: ParamKind::Integer, place: Placement::Query, required: false },
            Param { name: "ids", wire: "ids", kind: ParamKind::TextList, place: Placement::Query, required: false },
            Param { name: "instrument", wire: "instrument", kind: ParamKind::Text, place: Placement::Query, required: false },
            Param { name: "state", wire: "state", kind: ParamKind::Text, place: Placement::Query, required: false },
        ],
        Operation::ListOpenTrades => vec![
            Param { name: "account_id", wire: "account_id", kind: ParamKind::Text, place: Placement::Path, required: true },
        ],
        Operation::GetTrade => vec![
            Param { name: "account_id", wire: "account_id", kind: ParamKind::Text, place: Placement::Path, required: true },
            Param { name: "trade_specifier", wire: "trade_specifier", kind: ParamKind::Text, place: Placement::Path, required: true },
        ],
        Operation::CloseTrade => vec![
            Param { name: "account_id", wire: "account_id", kind: ParamKind::Text, place: Placement::Path, required: true },
            Param { name: "trade_specifier", wire: "trade_specifier", kind: ParamKind::Text, place: Placement::Path, required: true },
        ],
        Operation::SetTradeClientExtensions => vec![
            Param { name: "account_id", wire: "account_id", kind: ParamKind::Text, place: Placement::Path, required: true },
            Param { name: "trade_specifier", wire: "trade_specifier", kind: ParamKind::Text, place: Placement::Path, required: true },
        ],
        Operation::SetTradeDependentOrders => vec![
            Param { name: "account_id", wire: "account_id", kind: ParamKind::Text, place: Placement::Path, required: true },
            Param { name: "trade_specifier", wire: "trade_specifier", kind: ParamKind::Text, place: Placement::Path, required: true },
        ],
        Operation::ListAccounts => Vec::new(),
        Operation::GetAccount => vec![
            Param { name: "account_id", wire: "account_id", kind: ParamKind::Text, place: Placement::Path, required: true },
        ],
        Operation::GetAccountSummary => vec![
            Param { name: "account_id", wire: "account_id", kind: ParamKind::Text, place: Placement::Path, required: true },
        ],
        Operation::GetAccountInstruments => vec![
            Param { name: "account_id", wire: "account_id", kind: ParamKind::Text, place: Placement::Path, required: true },
            Param { name: "instruments", wire: "instruments", kind: ParamKind::TextList, place: Placement::Query, required: false },
        ],
        Operation::ConfigureAccount => vec![
            Param { name: "account_id", wire: "account_id", kind: ParamKind::Text, place: Placement::Path, required: true },
        ],
        Operation::GetAccountChanges => vec![
            Param { name: "account_id", wire: "account_id", kind: ParamKind::Text, place: Placement::Path, required: true },
            Param { name: "since_transaction_id", wire: "sinceTransactionID", kind: ParamKind::Text, place: Placement::Query, required: false },
        ],
        Operation::ListTransactions => vec![
            Param { name: "account_id", wire: "account_id", kind: ParamKind::Text, place: Placement::Path, required: true },
            Param { name: "from", wire: "from", kind: ParamKind::Text, place: Placement::Query, required: false },
            Param { name: "page_size", wire: "pageSize", kind: ParamKind::Integer, place: Placement::Query, required: false },
            Param { name: "to", wire: "to", kind: ParamKind::Text, place: Placement::Query, required: false },
            Param { name: "type_", wire: "type", kind: ParamKind::TextList, place: Placement::Query, required: false },
        ],
        Operation::GetTransaction => vec![
            Param { name: "account_id", wire: "account_id", kind: ParamKind::Text, place: Placement::Path, required: true },
            Param { name: "transaction_id", wire: "transaction_id", kind: ParamKind::Text, place: Placement::Path, required: true },
        ],
        Operation::GetTransactionRange => vec![
            Param { name: "account_id", wire: "account_id", kind: ParamKind::Text, place: Placement::Path, required: true },
            Param { name: "from", wire: "from", kind: ParamKind::Text, place: Placement::Query, required: true },
            Param { name: "to", wire: "to", kind: ParamKind::Text, place: Placement::Query, required: true },
            Param { name: "type_", wire: "type", kind: ParamKind::TextList, place: Placement::Query, required: false },
        ],
        Operation::GetTransactionsSinceId => vec![
            Param { name: "account_id", wire: "account_id", kind: ParamKind::Text, place: Placement::Path, required: true },
            Param { name: "id", wire: "id", kind: ParamKind::Text, place: Placement::Query, required: true },
        ],
        Operation::StreamTransactions => vec![
            Param { name: "account_id", wire: "account_id", kind: ParamKind::Text, place: Placement::Path, required: true },
        ],
        Operation::GetLatestCandles => vec![
            Param { name: "account_id", wire: "account_id", kind: ParamKind::Text, place: Placement::Path, required: true },
            Param { name: "alignment_timezone", wire: "alignmentTimezone", kind: ParamKind::Text, place: Placement::Query, required: false },
            Param { name: "candle_specifications", wire: "candleSpecifications", kind: ParamKind::TextList, place: Placement::Query, required: true },
            Param { name: "daily_alignment", wire: "dailyAlignment", kind: ParamKind::Integer, place: Placement::Query, required: false },
            Param { name: "smooth", wire: "smooth", kind: ParamKind::Flag, place: Placement::Query, required: false },
            Param { name: "units", wire: "units", kind: ParamKind::Text, place: Placement::Query, required: false },
            Param { name: "weekly_alignment", wire: "weeklyAlignment", kind: ParamKind::Text, place: Placement::Query, required: false },
        ],
        Operation::GetPrices => vec![
            Param { name: "account_id", wire: "account_id", kind: ParamKind::Text, place: Placement::Path, required: true },
            Param { name: "include_home_conversions", wire: "includeHomeConversions", kind: ParamKind::Flag, place: Placement::Query, required: false },
            Param { name: "include_units_available", wire: "includeUnitsAvailable", kind: ParamKind::Flag, place: Placement::Query, required: false },
            Param { name: "instruments", wire: "instruments", kind: ParamKind::TextList, place: Placement::Query, required: true },
            Param { name: "since", wire: "since", kind: ParamKind::Text, place: Placement::Query, required: false },
        ],
        Operation::StreamPricing => vec![
            Param { name: "account_id", wire: "account_id", kind: ParamKind::Text, place: Placement::Path, required: true },
            Param { name: "instruments", wire: "instruments", kind: ParamKind::TextList, place: Placement::Query, required: true },
            Param { name: "snapshot", wire: "snapshot", kind: ParamKind::Flag, place: Placement::Query, required: false },
        ],
        Operation::GetAccountInstrumentCandles => vec![
            Param { name: "account_id", wire: "account_id", kind: ParamKind::Text, place: Placement::Path, required: true },
            Param { name: "instrument", wire: "instrument", kind: ParamKind::Text, place: Placement::Path, required: true },
            Param { name: "alignment_timezone", wire: "alignmentTimezone", kind: ParamKind::Text, place: Placement::Query, required: false },
            Param { name: "count", wire: "count", kind: ParamKind::Integer, place: Placement::Query, required: false },
            Param { name: "daily_alignment", wire: "dailyAlignment", kind: ParamKind::Integer, place: Placement::Query, required: false },
            Param { name: "from", wire: "from", kind: ParamKind::Text, place: Placement::Query, required: false },
            Param { name: "granularity", wire: "granularity", kind: ParamKind::Text, place: Placement::Query, required: false },
            Param { name: "include_first", wire: "includeFirst", kind: ParamKind::Flag, place: Placement::Query, required: false },
            Param { name: "price", wire: "price", kind: ParamKind::Text, place: Placement::Query, required: false },
            Param { name: "smooth", wire: "smooth", kind: ParamKind::Flag, place: Placement::Query, required: false },
            Param { name: "to", wire: "to", kind: ParamKind::Text, place: Placement::Query, required: false },
            Param { name: "units", wire: "units", kind: ParamKind::Text, place: Placement::Query, required: false },
            Param { name: "weekly_alignment", wire: "weeklyAlignment", kind: ParamKind::Text, place: Placement::Query, required: false },
        ],
        Operation::ListOrders => vec![
            Param { name: "account_id", wire: "account_id", kind: ParamKind::Text, place: Placement::Path, required: true },
            Param { name: "before_id", wire: "beforeID", kind: ParamKind::Text, place: Placement::Query, required: false },
            Param { name: "count", wire: "count", kind: ParamKind::Integer, place: Placement::Query, required: false },
            Param { name: "ids", wire: "ids", kind: ParamKind::TextList, place: Placement::Query, required: false },
            Param { name: "instrument", wire: "instrument", kind: ParamKind::Text, place: Placement::Query, required: false },
            Param { name: "state", wire: "state", kind: ParamKind::Text, place: Placement::Query, required: false },
        ],
        Operation::CreateOrder => vec![
            Param { name: "account_id", wire: "account_id", kind: ParamKind::Text, place: Placement::Path, required: true },
        ],
        Operation::ListPendingOrders => vec![
            Param { name: "account_id", wire: "account_id", kind: ParamKind::Text, place: Placement::Path, required: true },
        ],
        Operation::GetOrder => vec![
            Param { name: "account_id", wire: "account_id", kind: ParamKind::Text, place: Placement::Path, required: true },
            Param { name: "order_specifier", wire: "order_specifier", kind: ParamKind::Text, place: Placement::Path, required: true },
        ],
        Operation::ReplaceOrder => vec![
            Param { name: "account_id", wire: "account_id", kind: ParamKind::Text, place: Placement::Path, required: true },
            Param { name: "order_specifier", wire: "order_specifier", kind: ParamKind::Text, place: Placement::Path, required: true },
            Param { name: "client_request_id", wire: "ClientRequestID", kind: ParamKind::Text, place: Placement::Header, required: false },
        ],
        Operation::CancelOrder => vec![
            Param { name: "account_id", wire: "account_id", kind: ParamKind::Text, place: Placement::Path, required: true },
            Param { name: "order_specifier", wire: "order_specifier", kind: ParamKind::Text, place: Placement::Path, required: true },
            Param { name: "client_request_id", wire: "ClientRequestID", kind: ParamKind::Text, place: Placement::Header, required: false },
        ],
        Operation::SetOrderClientExtensions => vec![
            Param { name: "account_id", wire: "account_id", kind: ParamKind::Text, place: Placement::Path, required: true },
            Param { name: "order_specifier", wire: "order_specifier", kind: ParamKind::Text, place: Placement::Path, required: true },
        ],
    }
}

/// The path template of an operation.
pub fn template(op: Operation) -> (r: Vec<Piece>)
    ensures
        r@ == template_of(op),
{
    match op {
        Operation::GetInstrumentCandles => vec![
            Piece::Lit("/instruments/"),
            Piece::Segment(0),
            Piece::Lit("/candles"),
        ],
        Operation::GetInstrumentOrderBook => vec![
            Piece::Lit("/instruments/"),
            Piece::Segment(0),
            Piece::Lit("/orderBook"),
        ],
        Operation::GetInstrumentPositionBook => vec![
            Piece::Lit("/instruments/"),
            Piece::Segment(0),
            Piece::Lit("/positionBook"),
        ],
        Operation::ListPositions => vec![
            Piece::Lit("/accounts/"),
            Piece::Segment(0),
            Piece::Lit("/positions"),
        ],
        Operation::ListOpenPositions => vec![
            Piece::Lit("/accounts/"),
            Piece::Segment(0),
            Piece::Lit("/openPositions"),
        ],
        Operation::GetPosition => vec![
            Piece::Lit("/accounts/"),
            Piece::Segment(0),
            Piece::Lit("/positions/"),
            Piece::Segment(1),
        ],
        Operation::ClosePosition => vec![
            Piece::Lit("/accounts/"),
            Piece::Segment(0),
            Piece::Lit("/positions/"),
            Piece::Segment(1),
            Piece::Lit("/close"),
        ],
        Operation::ListTrades => vec![
            Piece::Lit("/accounts/"),
            Piece::Segment(0),
            Piece::Lit("/trades"),
        ],
        Operation::ListOpenTrades => vec![
            Piece::Lit("/accounts/"),
            Piece::Segment(0),
            Piece::Lit("/openTrades"),
        ],
        Operation::GetTrade => vec![
            Piece::Lit("/accounts/"),
            Piece::Segment(0),
            Piece::Lit("/trades/"),
            Piece::Segment(1),
        ],
        Operation::CloseTrade => vec![
            Piece::Lit("/accounts/"),
            Piece::Segment(0),
            Piece::Lit("/trades/"),
            Piece::Segment(1),
            Piece::Lit("/close"),
        ],
        Operation::SetTradeClientExtensions => vec![
            Piece::Lit("/accounts/"),
            Piece::Segment(0),
            Piece::Lit("/trades/"),
            Piece::Segment(1),
            Piece::Lit("/clientExtensions"),
        ],
        Operation::SetTradeDependentOrders => vec![
            Piece::Lit("/accounts/"),
            Piece::Segment(0),
            Piece::Lit("/trades/"),
            Piece::Segment(1),
            Piece::Lit("/orders"),
        ],
        Operation::ListAccounts => vec![
            Piece::Lit("/accounts"),
        ],
        Operation::GetAccount => vec![
            Piece::Lit("/accounts/"),
            Piece::Segment(0),
        ],
        Operation::GetAccountSummary => vec![
            Piece::Lit("/accounts/"),
            Piece::Segment(0),
            Piece::Lit("/summary"),
        ],
        Operation::GetAccountInstruments => vec![
            Piece::Lit("/accounts/"),
            Piece::Segment(0),
            Piece::Lit("/instruments"),
        ],
        Operation::ConfigureAccount => vec![
            Piece::Lit("/accounts/"),
            Piece::Segment(0),
            Piece::Lit("/configuration"),
        ],
        Operation::GetAccountChanges => vec![
            Piece::Lit("/accounts/"),
            Piece::Segment(0),
            Piece::Lit("/changes"),
        ],
        Operation::ListTransactions => vec![
            Piece::Lit("/accounts/"),
            Piece::Segment(0),
            Piece::Lit("/transactions"),
        ],
        Operation::GetTransaction => vec![
            Piece::Lit("/accounts/"),
            Piece::Segment(0),
            Piece::Lit("/transactions/"),
            Piece::Segment(1),
        ],
        Operation::GetTransactionRange => vec![
            Piece::Lit("/accounts/"),
            Piece::Segment(0),
            Piece::Lit("/transactions/idrange"),
        ],
        Operation::GetTransactionsSinceId => vec![
            Piece::Lit("/accounts/"),
            Piece::Segment(0),
            Piece::Lit("/transactions/sinceid"),
        ],
        Operation::StreamTransactions => vec![
            Piece::Lit("/accounts/"),
            Piece::Segment(0),
            Piece::Lit("/transactions/stream"),
        ],
        Operation::GetLatestCandles => vec![
            Piece::Lit("/accounts/"),
            Piece::Segment(0),
            Piece::Lit("/candles/latest"),
        ],
        Operation::GetPrices => vec![
            Piece::Lit("/accounts/"),
            Piece::Segment(0),
            Piece::Lit("/pricing"),
        ],
        Operation::StreamPricing => vec![
            Piece::Lit("/accounts/"),
            Piece::Segment(0),
            Piece::Lit("/pricing/stream"),
        ],
        Operation::GetAccountInstrumentCandles => vec![
            Piece::Lit("/accounts/"),
            Piece::Segment(0),
            Piece::Lit("/instruments/"),
            Piece::Segment(1),
            Piece::Lit("/candles"),
        ],
        Operation::ListOrders => vec![
            Piece::Lit("/accounts/"),
            Piece::Segment(0),
            Piece::Lit("/orders"),
        ],
        Operation::CreateOrder => vec![
            Piece::Lit("/accounts/"),
            Piece::Segment(0),
            Piece::Lit("/orders"),
        ],
        Operation::ListPendingOrders => vec![
            Piece::Lit("/accounts/"),
            Piece::Segment(0),
            Piece::Lit("/pendingOrders"),
        ],
        Operation::GetOrder => vec![
            Piece::Lit("/accounts/"),
            Piece::Segment(0),
            Piece::Lit("/orders/"),
            Piece::Segment(1),
        ],
        Operation::ReplaceOrder => vec![
            Piece::Lit("/accounts/"),
            Piece::Segment(0),
            Piece::Lit("/orders/"),
            Piece::Segment(1),
        ],
        Operation::CancelOrder => vec![
            Piece::Lit("/accounts/"),
            Piece::Segment(0),
            Piece::Lit("/orders/"),
            Piece::Segment(1),
            Piece::Lit("/cancel"),
        ],
        Operation::SetOrderClientExtensions => vec![
            Piece::Lit("/accounts/"),
            Piece::Segment(0),
            Piece::Lit("/orders/"),
            Piece::Segment(1),
            Piece::Lit("/clientExtensions"),
        ],
    }
}

pub fn method(op: Operation) -> (r: HttpMethod)
    ensures
        r == method_of(op),
{
    match op {
        Operation::GetInstrumentCandles => HttpMethod::Get,
        Operation::GetInstrumentOrderBook => HttpMethod::Get,
        Operation::GetInstrumentPositionBook => HttpMethod::Get,
        Operation::ListPositions => HttpMethod::Get,
        Operation::ListOpenPositions => HttpMethod::Get,
        Operation::GetPosition => HttpMethod::Get,
        Operation::ClosePosition => HttpMethod::Put,
        Operation::ListTrades => HttpMethod::Get,
        Operation::ListOpenTrades => HttpMethod::Get,
        Operation::GetTrade => HttpMethod::Get,
        Operation::CloseTrade => HttpMethod::Put,
        Operation::SetTradeClientExtensions => HttpMethod::Put,
        Operation::SetTradeDependentOrders => HttpMethod::Put,
        Operation::ListAccounts => HttpMethod::Get,
        Operation::GetAccount => HttpMethod::Get,
        Operation::GetAccountSummary => HttpMethod::Get,
        Operation::GetAccountInstruments => HttpMethod::Get,
        Operation::ConfigureAccount => HttpMethod::Patch,
        Operation::GetAccountChanges => HttpMethod::Get,
        Operation::ListTransactions => HttpMethod::Get,
        Operation::GetTransaction => HttpMethod::Get,
        Operation::GetTransactionRange => HttpMethod::Get,
        Operation::GetTransactionsSinceId => HttpMethod::Get,
        Operation::StreamTransactions => HttpMethod::Get,
        Operation::GetLatestCandles => HttpMethod::Get,
        Operation::GetPrices => HttpMethod::Get,
        Operation::StreamPricing => HttpMethod::Get,
        Operation::GetAccountInstrumentCandles => HttpMethod::Get,
        Operation::ListOrders => HttpMethod::Get,
        Operation::CreateOrder => HttpMethod::Post,
        Operation::ListPendingOrders => HttpMethod::Get,
        Operation::GetOrder => HttpMethod::Get,
        Operation::ReplaceOrder => HttpMethod::Put,
        Operation::CancelOrder => HttpMethod::Put,
        Operation::SetOrderClientExtensions => HttpMethod::Put,
    }
}

pub fn body_type(op: Operation) -> (r: Option<&'static str>)
    ensures
        r == body_type_of(op),
{
    match op {
        Operation::GetInstrumentCandles => None,
        Operation::GetInstrumentOrderBook => None,
        Operation::GetInstrumentPositionBook => None,
        Operation::ListPositions => None,
        Operation::ListOpenPositions => None,
        Operation::GetPosition => None,
        Operation::ClosePosition => Some("ClosePositionBody"),
        Operation::ListTrades => None,
        Operation::ListOpenTrades => None,
        Operation::GetTrade => None,
        Operation::CloseTrade => Some("CloseTradeBody"),
        Operation::SetTradeClientExtensions => Some("SetTradeClientExtensionsBody"),
        Operation::SetTradeDependentOrders => Some("SetTradeDependentOrdersBody"),
        Operation::ListAccounts => None,
        Operation::GetAccount => None,
        Operation::GetAccountSummary => None,
        Operation::GetAccountInstruments => None,
        Operation::ConfigureAccount => Some("ConfigureAccountBody"),
        Operation::GetAccountChanges => None,
        Operation::ListTransactions => None,
        Operation::GetTransaction => None,
        Operation::GetTransactionRange => None,
        Operation::GetTransactionsSinceId => None,
        Operation::StreamTransactions => None,
        Operation::GetLatestCandles => None,
        Operation::GetPrices => None,
        Operation::StreamPricing => None,
        Operation::GetAccountInstrumentCandles => None,
        Operation::ListOrders => None,
        Operation::CreateOrder => Some("CreateOrderBody"),
        Operation::ListPendingOrders => None,
        Operation::GetOrder => None,
        Operation::ReplaceOrder => Some("ReplaceOrderBody"),
        Operation::CancelOrder => None,
        Operation::SetOrderClientExtensions => Some("SetOrderClientExtensionsBody"),
    }
}

pub fn success_status(op: Operation) -> (r: u16)
    ensures
        r == success_status_of(op),
{
    match op {
        Operation::GetInstrumentCandles => 200,
        Operation::GetInstrumentOrderBook => 200,
        Operation::GetInstrumentPositionBook => 200,
        Operation::ListPositions => 200,
        Operation::ListOpenPositions => 200,
        Operation::GetPosition => 200,
        Operation::ClosePosition => 200,
        Operation::ListTrades => 200,
        Operation::ListOpenTrades => 200,
        Operation::GetTrade => 200,
        Operation::CloseTrade => 200,
        Operation::SetTradeClientExtensions => 200,
        Operation::SetTradeDependentOrders => 200,
        Operation::ListAccounts => 200,
        Operation::GetAccount => 200,
        Operation::GetAccountSummary => 200,
        Operation::GetAccountInstruments => 200,
        Operation::ConfigureAccount => 200,
        Operation::GetAccountChanges => 200,
        Operation::ListTransactions => 200,
        Operation::GetTransaction => 200,
        Operation::GetTransactionRange => 200,
        Operation::GetTransactionsSinceId => 200,
        Operation::StreamTransactions => 200,
        Operation::GetLatestCandles => 200,
        Operation::GetPrices => 200,
        Operation::StreamPricing => 200,
        Operation::GetAccountInstrumentCandles => 200,
        Operation::ListOrders => 200,
        Operation::CreateOrder => 201,
        Operation::ListPendingOrders => 200,
        Operation::GetOrder => 200,
        Operation::ReplaceOrder => 201,
        Operation::CancelOrder => 200,
        Operation::SetOrderClientExtensions => 200,
    }
}

pub fn error_statuses(op: Operation) -> (r: Vec<u16>)
    ensures
        r@ == error_statuses_of(op),
{
    match op {
        Operation::GetInstrumentCandles => vec![400u16, 401, 404, 405],
        Operation::GetInstrumentOrderBook => vec![400u16, 401, 404, 405],
        Operation::GetInstrumentPositionBook => vec![400u16, 401, 404, 405],
        Operation::ListPositions => vec![401u16, 404, 405],
        Operation::ListOpenPositions => vec![401u16, 404, 405],
        Operation::GetPosition => vec![401u16, 404, 405],
        Operation::ClosePosition => vec![400u16, 401, 404, 405],
        Operation::ListTrades => vec![401u16, 404, 405],
        Operation::ListOpenTrades => vec![401u16, 404, 405],
        Operation::GetTrade => vec![401u16, 404, 405],
        Operation::CloseTrade => vec![400u16, 401, 404, 405],
        Operation::SetTradeClientExtensions => vec![400u16, 401, 404, 405],
        Operation::SetTradeDependentOrders => vec![400u16, 401, 404, 405],
        Operation::ListAccounts => vec![401u16, 405],
        Operation::GetAccount => vec![400u16, 401, 405],
        Operation::GetAccountSummary => vec![400u16, 401, 405],
        Operation::GetAccountInstruments => vec![400u16, 401, 405],
        Operation::ConfigureAccount => vec![400u16, 401, 403, 404, 405],
        Operation::GetAccountChanges => vec![401u16, 404, 405, 416],
        Operation::ListTransactions => vec![400u16, 401, 403, 404, 405, 416],
        Operation::GetTransaction => vec![401u16, 404, 405],
        Operation::GetTransactionRange => vec![400u16, 401, 404, 405, 416],
        Operation::GetTransactionsSinceId => vec![400u16, 401, 404, 405, 416],
        Operation::StreamTransactions => vec![400u16, 401, 404, 405],
        Operation::GetLatestCandles => vec![400u16, 401, 404, 405],
        Operation::GetPrices => vec![400u16, 401, 404, 405],
        Operation::StreamPricing => vec![400u16, 401, 404, 405],
        Operation::GetAccountInstrumentCandles => vec![400u16, 401, 404, 405],
        Operation::ListOrders => vec![400u16, 404, 405],
        Operation::CreateOrder => vec![400u16, 401, 403, 404, 405],
        Operation::ListPendingOrders => vec![401u16, 404, 405],
        Operation::GetOrder => vec![401u16, 404, 405],
        Operation::ReplaceOrder => vec![400u16, 401, 404, 405],
        Operation::CancelOrder => vec![401u16, 404, 405],
        Operation::SetOrderClientExtensions => vec![400u16, 401, 404, 405],
    }
}

} // verus!
