use vstd::prelude::*;

use crate::client::Client;
use crate::operation::Operation;
use crate::request::{
    body_mapped, body_set, finalized_as, flag_set, initial_model, integer_set, text_list_set,
    text_set, BuilderModel, Request, RequestBuilder,
};

verus! {

/// Builder for [`Client::get_instrument_candles`]: a `GET` request to `/instruments/{instrument}/candles`.
pub struct GetInstrumentCandles<'a> {
    inner: RequestBuilder<'a>,
}

impl<'a> View for GetInstrumentCandles<'a> {
    type V = BuilderModel;

    closed spec fn view(&self) -> BuilderModel {
        self.inner@
    }
}

impl<'a> GetInstrumentCandles<'a> {
    #[verifier::type_invariant]
    spec fn inv(&self) -> bool {
        &&& self.inner.inv()
        &&& self.inner@.op == Operation::GetInstrumentCandles
    }

    pub fn new(client: &'a Client) -> (r: Self)
        ensures
            r@ == initial_model(*client, Operation::GetInstrumentCandles),
    {
        GetInstrumentCandles { inner: RequestBuilder::new(client, Operation::GetInstrumentCandles) }
    }

    /// Sets `instrument`, sent as a segment of the path.
    pub fn instrument<V: TryInto<String>>(self, value: V) -> (r: Self)
        ensures
            text_set(self@, 0, value, r@),
    {
        proof {
            use_type_invariant(&self);
        }
        GetInstrumentCandles { inner: self.inner.set_text(0, value) }
    }

    /// Sets `alignment_timezone`, sent as the `alignmentTimezone` query parameter.
    pub fn alignment_timezone<V: TryInto<String>>(self, value: V) -> (r: Self)
        ensures
            text_set(self@, 1, value, r@),
    {
        proof {
            use_type_invariant(&self);
        }
        GetInstrumentCandles { inner: self.inner.set_text(1, value) }
    }

    /// Sets `count`, sent as the `count` query parameter.
    pub fn count<V: TryInto<i64>>(self, value: V) -> (r: Self)
        ensures
            integer_set(self@, 2, value, r@),
    {
        proof {
            use_type_invariant(&self);
        }
        GetInstrumentCandles { inner: self.inner.set_integer(2, value) }
    }

    /// Sets `daily_alignment`, sent as the `dailyAlignment` query parameter.
    pub fn daily_alignment<V: TryInto<i64>>(self, value: V) -> (r: Self)
        ensures
            integer_set(self@, 3, value, r@),
    {
        proof {
            use_type_invariant(&self);
        }
        GetInstrumentCandles { inner: self.inner.set_integer(3, value) }
    }

    /// Sets `from`, sent as the `from` query parameter.
    pub fn from<V: TryInto<String>>(self, value: V) -> (r: Self)
        ensures
            text_set(self@, 4, value, r@),
    {
        proof {
            use_type_invariant(&self);
        }
        GetInstrumentCandles { inner: self.inner.set_text(4, value) }
    }

    /// Sets `granularity`, sent as the `granularity` query parameter.
    pub fn granularity<V: TryInto<String>>(self, value: V) -> (r: Self)
        ensures
            text_set(self@, 5, value, r@),
    {
        proof {
            use_type_invariant(&self);
        }
        GetInstrumentCandles { inner: self.inner.set_text(5, value) }
    }

    /// Sets `include_first`, sent as the `includeFirst` query parameter.
    pub fn include_first<V: TryInto<bool>>(self, value: V) -> (r: Self)
        ensures
            flag_set(self@, 6, value, r@),
    {
        proof {
            use_type_invariant(&self);
        }
        GetInstrumentCandles { inner: self.inner.set_flag(6, value) }
    }

    /// Sets `price`, sent as the `price` query parameter.
    pub fn price<V: TryInto<String>>(self, value: V) -> (r: Self)
        ensures
            text_set(self@, 7, value, r@),
    {
        proof {
            use_type_invariant(&self);
        }
        GetInstrumentCandles { inner: self.inner.set_text(7, value) }
    }

    /// Sets `smooth`, sent as the `smooth` query parameter.
    pub fn smooth<V: TryInto<bool>>(self, value: V) -> (r: Self)
        ensures
            flag_set(self@, 8, value, r@),
    {
        proof {
            use_type_invariant(&self);
        }
        GetInstrumentCandles { inner: self.inner.set_flag(8, value) }
    }

    /// Sets `to`, sent as the `to` query parameter.
    pub fn to<V: TryInto<String>>(self, value: V) -> (r: Self)
        ensures
            text_set(self@, 9, value, r@),
    {
        proof {
            use_type_invariant(&self);
        }
        GetInstrumentCandles { inner: self.inner.set_text(9, value) }
    }

    /// Sets `weekly_alignment`, sent as the `weeklyAlignment` query parameter.
    pub fn weekly_alignment<V: TryInto<String>>(self, value: V) -> (r: Self)
        ensures
            text_set(self@, 10, value, r@),
    {
        proof {
            use_type_invariant(&self);
        }
        GetInstrumentCandles { inner: self.inner.set_text(10, value) }
    }

    /// Checks the parameters and body in declaration order and yields the
    /// request, or the message of the first that is not valid.
    pub fn build(self) -> (r: Result<Request, String>)
        ensures
            finalized_as(r, self@.finalized()),
    {
        proof {
            use_type_invariant(&self);
        }
        self.inner.finalize()
    }
}

/// Builder for [`Client::get_instrument_order_book`]: a `GET` request to `/instruments/{instrument}/orderBook`.
pub struct GetInstrumentOrderBook<'a> {
    inner: RequestBuilder<'a>,
}

impl<'a> View for GetInstrumentOrderBook<'a> {
    type V = BuilderModel;

    closed spec fn view(&self) -> BuilderModel {
        self.inner@
    }
}

impl<'a> GetInstrumentOrderBook<'a> {
    #[verifier::type_invariant]
    spec fn inv(&self) -> bool {
        &&& self.inner.inv()
        &&& self.inner@.op == Operation::GetInstrumentOrderBook
    }

    pub fn new(client: &'a Client) -> (r: Self)
        ensures
            r@ == initial_model(*client, Operation::GetInstrumentOrderBook),
    {
        GetInstrumentOrderBook { inner: RequestBuilder::new(client, Operation::GetInstrumentOrderBook) }
    }

    /// Sets `instrument`, sent as a segment of the path.
    pub fn instrument<V: TryInto<String>>(self, value: V) -> (r: Self)
        ensures
            text_set(self@, 0, value, r@),
    {
        proof {
            use_type_invariant(&self);
        }
        GetInstrumentOrderBook { inner: self.inner.set_text(0, value) }
    }

    /// Sets `time`, sent as the `time` query parameter.
    pub fn time<V: TryInto<String>>(self, value: V) -> (r: Self)
        ensures
            text_set(self@, 1, value, r@),
    {
        proof {
            use_type_invariant(&self);
        }
        GetInstrumentOrderBook { inner: self.inner.set_text(1, value) }
    }

    /// Checks the parameters and body in declaration order and yields the
    /// request, or the message of the first that is not valid.
    pub fn build(self) -> (r: Result<Request, String>)
        ensures
            finalized_as(r, self@.finalized()),
    {
        proof {
            use_type_invariant(&self);
        }
        self.inner.finalize()
    }
}

/// Builder for [`Client::get_instrument_position_book`]: a `GET` request to `/instruments/{instrument}/positionBook`.
pub struct GetInstrumentPositionBook<'a> {
    inner: RequestBuilder<'a>,
}

impl<'a> View for GetInstrumentPositionBook<'a> {
    type V = BuilderModel;

    closed spec fn view(&self) -> BuilderModel {
        self.inner@
    }
}

impl<'a> GetInstrumentPositionBook<'a> {
    #[verifier::type_invariant]
    spec fn inv(&self) -> bool {
        &&& self.inner.inv()
        &&& self.inner@.op == Operation::GetInstrumentPositionBook
    }

    pub fn new(client: &'a Client) -> (r: Self)
        ensures
            r@ == initial_model(*client, Operation::GetInstrumentPositionBook),
    {
        GetInstrumentPositionBook { inner: RequestBuilder::new(client, Operation::GetInstrumentPositionBook) }
    }

    /// Sets `instrument`, sent as a segment of the path.
    pub fn instrument<V: TryInto<String>>(self, value: V) -> (r: Self)
        ensures
            text_set(self@, 0, value, r@),
    {
        proof {
            use_type_invariant(&self);
        }
        GetInstrumentPositionBook { inner: self.inner.set_text(0, value) }
    }

    /// Sets `time`, sent as the `time` query parameter.
    pub fn time<V: TryInto<String>>(self, value: V) -> (r: Self)
        ensures
            text_set(self@, 1, value, r@),
    {
        proof {
            use_type_invariant(&self);
        }
        GetInstrumentPositionBook { inner: self.inner.set_text(1, value) }
    }

    /// Checks the parameters and body in declaration order and yields the
    /// request, or the message of the first that is not valid.
    pub fn build(self) -> (r: Result<Request, String>)
        ensures
            finalized_as(r, self@.finalized()),
    {
        proof {
            use_type_invariant(&self);
        }
        self.inner.finalize()
    }
}

/// Builder for [`Client::list_positions`]: a `GET` request to `/accounts/{accountID}/positions`.
pub struct ListPositions<'a> {
    inner: RequestBuilder<'a>,
}

impl<'a> View for ListPositions<'a> {
    type V = BuilderModel;

    closed spec fn view(&self) -> BuilderModel {
        self.inner@
    }
}

impl<'a> ListPositions<'a> {
    #[verifier::type_invariant]
    spec fn inv(&self) -> bool {
        &&& self.inner.inv()
        &&& self.inner@.op == Operation::ListPositions
    }

    pub fn new(client: &'a Client) -> (r: Self)
        ensures
            r@ == initial_model(*client, Operation::ListPositions),
    {
        ListPositions { inner: RequestBuilder::new(client, Operation::ListPositions) }
    }

    /// Sets `account_id`, sent as a segment of the path.
    pub fn account_id<V: TryInto<String>>(self, value: V) -> (r: Self)
        ensures
            text_set(self@, 0, value, r@),
    {
        proof {
            use_type_invariant(&self);
        }
        ListPositions { inner: self.inner.set_text(0, value) }
    }

    /// Checks the parameters and body in declaration order and yields the
    /// request, or the message of the first that is not valid.
    pub fn build(self) -> (r: Result<Request, String>)
        ensures
            finalized_as(r, self@.finalized()),
    {
        proof {
            use_type_invariant(&self);
        }
        self.inner.finalize()
    }
}

/// Builder for [`Client::list_open_positions`]: a `GET` request to `/accounts/{accountID}/openPositions`.
pub struct ListOpenPositions<'a> {
    inner: RequestBuilder<'a>,
}

impl<'a> View for ListOpenPositions<'a> {
    type V = BuilderModel;

    closed spec fn view(&self) -> BuilderModel {
        self.inner@
    }
}

impl<'a> ListOpenPositions<'a> {
    #[verifier::type_invariant]
    spec fn inv(&self) -> bool {
        &&& self.inner.inv()
        &&& self.inner@.op == Operation::ListOpenPositions
    }

    pub fn new(client: &'a Client) -> (r: Self)
        ensures
            r@ == initial_model(*client, Operation::ListOpenPositions),
    {
        ListOpenPositions { inner: RequestBuilder::new(client, Operation::ListOpenPositions) }
    }

    /// Sets `account_id`, sent as a segment of the path.
    pub fn account_id<V: TryInto<String>>(self, value: V) -> (r: Self)
        ensures
            text_set(self@, 0, value, r@),
    {
        proof {
            use_type_invariant(&self);
        }
        ListOpenPositions { inner: self.inner.set_text(0, value) }
    }

    /// Checks the parameters and body in declaration order and yields the
    /// request, or the message of the first that is not valid.
    pub fn build(self) -> (r: Result<Request, String>)
        ensures
            finalized_as(r, self@.finalized()),
    {
        proof {
            use_type_invariant(&self);
        }
        self.inner.finalize()
    }
}

/// Builder for [`Client::get_position`]: a `GET` request to `/accounts/{accountID}/positions/{instrument}`.
pub struct GetPosition<'a> {
    inner: RequestBuilder<'a>,
}

impl<'a> View for GetPosition<'a> {
    type V = BuilderModel;

    closed spec fn view(&self) -> BuilderModel {
        self.inner@
    }
}

impl<'a> GetPosition<'a> {
    #[verifier::type_invariant]
    spec fn inv(&self) -> bool {
        &&& self.inner.inv()
        &&& self.inner@.op == Operation::GetPosition
    }

    pub fn new(client: &'a Client) -> (r: Self)
        ensures
            r@ == initial_model(*client, Operation::GetPosition),
    {
        GetPosition { inner: RequestBuilder::new(client, Operation::GetPosition) }
    }

    /// Sets `account_id`, sent as a segment of the path.
    pub fn account_id<V: TryInto<String>>(self, value: V) -> (r: Self)
        ensures
            text_set(self@, 0, value, r@),
    {
        proof {
            use_type_invariant(&self);
        }
        GetPosition { inner: self.inner.set_text(0, value) }
    }

    /// Sets `instrument`, sent as a segment of the path.
    pub fn instrument<V: TryInto<String>>(self, value: V) -> (r: Self)
        ensures
            text_set(self@, 1, value, r@),
    {
        proof {
            use_type_invariant(&self);
        }
        GetPosition { inner: self.inner.set_text(1, value) }
    }

    /// Checks the parameters and body in declaration order and yields the
    /// request, or the message of the first that is not valid.
    pub fn build(self) -> (r: Result<Request, String>)
        ensures
            finalized_as(r, self@.finalized()),
    {
        proof {
            use_type_invariant(&self);
        }
        self.inner.finalize()
    }
}

/// Builder for [`Client::close_position`]: a `PUT` request to `/accounts/{accountID}/positions/{instrument}/close`.
pub struct ClosePosition<'a> {
    inner: RequestBuilder<'a>,
}

impl<'a> View for ClosePosition<'a> {
    type V = BuilderModel;

    closed spec fn view(&self) -> BuilderModel {
        self.inner@
    }
}

impl<'a> ClosePosition<'a> {
    #[verifier::type_invariant]
    spec fn inv(&self) -> bool {
        &&& self.inner.inv()
        &&& self.inner@.op == Operation::ClosePosition
    }

    pub fn new(client: &'a Client) -> (r: Self)
        ensures
            r@ == initial_model(*client, Operation::ClosePosition),
    {
        ClosePosition { inner: RequestBuilder::new(client, Operation::ClosePosition) }
    }

    /// Sets `account_id`, sent as a segment of the path.
    pub fn account_id<V: TryInto<String>>(self, value: V) -> (r: Self)
        ensures
            text_set(self@, 0, value, r@),
    {
        proof {
            use_type_invariant(&self);
        }
        ClosePosition { inner: self.inner.set_text(0, value) }
    }

    /// Sets `instrument`, sent as a segment of the path.
    pub fn instrument<V: TryInto<String>>(self, value: V) -> (r: Self)
        ensures
            text_set(self@, 1, value, r@),
    {
        proof {
            use_type_invariant(&self);
        }
        ClosePosition { inner: self.inner.set_text(1, value) }
    }

    /// Sets the JSON body.
    pub fn body<V: TryInto<String>>(self, value: V) -> (r: Self) where
        <V as TryInto<String>>::Error: std::fmt::Display,

        ensures
            body_set(self@, value, r@),
    {
        proof {
            use_type_invariant(&self);
        }
        ClosePosition { inner: self.inner.set_body(value) }
    }

    /// Rewrites the JSON body with `f`, unless it already failed conversion.
    pub fn body_map<F: FnOnce(String) -> String>(self, f: F) -> (r: Self)
        requires
            forall|s: String| f.requires((s,)),
        ensures
            body_mapped(self@, f, r@),
    {
        proof {
            use_type_invariant(&self);
        }
        ClosePosition { inner: self.inner.map_body(f) }
    }

    /// Checks the parameters and body in declaration order and yields the
    /// request, or the message of the first that is not valid.
    pub fn build(self) -> (r: Result<Request, String>)
        ensures
            finalized_as(r, self@.finalized()),
    {
        proof {
            use_type_invariant(&self);
        }
        self.inner.finalize()
    }
}

/// Builder for [`Client::list_trades`]: a `GET` request to `/accounts/{accountID}/trades`.
pub struct ListTrades<'a> {
    inner: RequestBuilder<'a>,
}

impl<'a> View for ListTrades<'a> {
    type V = BuilderModel;

    closed spec fn view(&self) -> BuilderModel {
        self.inner@
    }
}

impl<'a> ListTrades<'a> {
    #[verifier::type_invariant]
    spec fn inv(&self) -> bool {
        &&& self.inner.inv()
        &&& self.inner@.op == Operation::ListTrades
    }

    pub fn new(client: &'a Client) -> (r: Self)
        ensures
            r@ == initial_model(*client, Operation::ListTrades),
    {
        ListTrades { inner: RequestBuilder::new(client, Operation::ListTrades) }
    }

    /// Sets `account_id`, sent as a segment of the path.
    pub fn account_id<V: TryInto<String>>(self, value: V) -> (r: Self)
        ensures
            text_set(self@, 0, value, r@),
    {
        proof {
            use_type_invariant(&self);
        }
        ListTrades { inner: self.inner.set_text(0, value) }
    }

    /// Sets `before_id`, sent as the `beforeID` query parameter.
    pub fn before_id<V: TryInto<String>>(self, value: V) -> (r: Self)
        ensures
            text_set(self@, 1, value, r@),
    {
        proof {
            use_type_invariant(&self);
        }
        ListTrades { inner: self.inner.set_text(1, value) }
    }

    /// Sets `count`, sent as the `count` query parameter.
    pub fn count<V: TryInto<i64>>(self, value: V) -> (r: Self)
        ensures
            integer_set(self@, 2, value, r@),
    {
        proof {
            use_type_invariant(&self);
        }
        ListTrades { inner: self.inner.set_integer(2, value) }
    }

    /// Sets `ids`, sent as the `ids` query parameter;
    /// only the first element of the list is sent, and an empty list sends an
    /// empty value.
    pub fn ids<V: TryInto<Vec<String>>>(self, value: V) -> (r: Self)
        ensures
            text_list_set(self@, 3, value, r@),
    {
        proof {
            use_type_invariant(&self);
        }
        ListTrades { inner: self.inner.set_text_list(3, value) }
    }

    /// Sets `instrument`, sent as the `instrument` query parameter.
    pub fn instrument<V: TryInto<String>>(self, value: V) -> (r: Self)
        ensures
            text_set(self@, 4, value, r@),
    {
        proof {
            use_type_invariant(&self);
        }
        ListTrades { inner: self.inner.set_text(4, value) }
    }

    /// Sets `state`, sent as the `state` query parameter.
    pub fn state<V: TryInto<String>>(self, value: V) -> (r: Self)
        ensures
            text_set(self@, 5, value, r@),
    {
        proof {
            use_type_invariant(&self);
        }
        ListTrades { inner: self.inner.set_text(5, value) }
    }

    /// Checks the parameters and body in declaration order and yields the
    /// request, or the message of the first that is not valid.
    pub fn build(self) -> (r: Result<Request, String>)
        ensures
            finalized_as(r, self@.finalized()),
    {
        proof {
            use_type_invariant(&self);
        }
        self.inner.finalize()
    }
}

/// Builder for [`Client::list_open_trades`]: a `GET` request to `/accounts/{accountID}/openTrades`.
pub struct ListOpenTrades<'a> {
    inner: RequestBuilder<'a>,
}

impl<'a> View for ListOpenTrades<'a> {
    type V = BuilderModel;

    closed spec fn view(&self) -> BuilderModel {
        self.inner@
    }
}

impl<'a> ListOpenTrades<'a> {
    #[verifier::type_invariant]
    spec fn inv(&self) -> bool {
        &&& self.inner.inv()
        &&& self.inner@.op == Operation::ListOpenTrades
    }

    pub fn new(client: &'a Client) -> (r: Self)
        ensures
            r@ == initial_model(*client, Operation::ListOpenTrades),
    {
        ListOpenTrades { inner: RequestBuilder::new(client, Operation::ListOpenTrades) }
    }

    /// Sets `account_id`, sent as a segment of the path.
    pub fn account_id<V: TryInto<String>>(self, value: V) -> (r: Self)
        ensures
            text_set(self@, 0, value, r@),
    {
        proof {
            use_type_invariant(&self);
        }
        ListOpenTrades { inner: self.inner.set_text(0, value) }
    }

    /// Checks the parameters and body in declaration order and yields the
    /// request, or the message of the first that is not valid.
    pub fn build(self) -> (r: Result<Request, String>)
        ensures
            finalized_as(r, self@.finalized()),
    {
        proof {
            use_type_invariant(&self);
        }
        self.inner.finalize()
    }
}

/// Builder for [`Client::get_trade`]: a `GET` request to `/accounts/{accountID}/trades/{tradeSpecifier}`.
pub struct GetTrade<'a> {
    inner: RequestBuilder<'a>,
}

impl<'a> View for GetTrade<'a> {
    type V = BuilderModel;

    closed spec fn view(&self) -> BuilderModel {
        self.inner@
    }
}

impl<'a> GetTrade<'a> {
    #[verifier::type_invariant]
    spec fn inv(&self) -> bool {
        &&& self.inner.inv()
        &&& self.inner@.op == Operation::GetTrade
    }

    pub fn new(client: &'a Client) -> (r: Self)
        ensures
            r@ == initial_model(*client, Operation::GetTrade),
    {
        GetTrade { inner: RequestBuilder::new(client, Operation::GetTrade) }
    }

    /// Sets `account_id`, sent as a segment of the path.
    pub fn account_id<V: TryInto<String>>(self, value: V) -> (r: Self)
        ensures
            text_set(self@, 0, value, r@),
    {
        proof {
            use_type_invariant(&self);
        }
        GetTrade { inner: self.inner.set_text(0, value) }
    }

    /// Sets `trade_specifier`, sent as a segment of the path.
    pub fn trade_specifier<V: TryInto<String>>(self, value: V) -> (r: Self)
        ensures
            text_set(self@, 1, value, r@),
    {
        proof {
            use_type_invariant(&self);
        }
        GetTrade { inner: self.inner.set_text(1, value) }
    }

    /// Checks the parameters and body in declaration order and yields the
    /// request, or the message of the first that is not valid.
    pub fn build(self) -> (r: Result<Request, String>)
        ensures
            finalized_as(r, self@.finalized()),
    {
        proof {
            use_type_invariant(&self);
        }
        self.inner.finalize()
    }
}

/// Builder for [`Client::close_trade`]: a `PUT` request to `/accounts/{accountID}/trades/{tradeSpecifier}/close`.
pub struct CloseTrade<'a> {
    inner: RequestBuilder<'a>,
}

impl<'a> View for CloseTrade<'a> {
    type V = BuilderModel;

    closed spec fn view(&self) -> BuilderModel {
        self.inner@
    }
}

impl<'a> CloseTrade<'a> {
    #[verifier::type_invariant]
    spec fn inv(&self) -> bool {
        &&& self.inner.inv()
        &&& self.inner@.op == Operation::CloseTrade
    }

    pub fn new(client: &'a Client) -> (r: Self)
        ensures
            r@ == initial_model(*client, Operation::CloseTrade),
    {
        CloseTrade { inner: RequestBuilder::new(client, Operation::CloseTrade) }
    }

    /// Sets `account_id`, sent as a segment of the path.
    pub fn account_id<V: TryInto<String>>(self, value: V) -> (r: Self)
        ensures
            text_set(self@, 0, value, r@),
    {
        proof {
            use_type_invariant(&self);
        }
        CloseTrade { inner: self.inner.set_text(0, value) }
    }

    /// Sets `trade_specifier`, sent as a segment of the path.
    pub fn trade_specifier<V: TryInto<String>>(self, value: V) -> (r: Self)
        ensures
            text_set(self@, 1, value, r@),
    {
        proof {
            use_type_invariant(&self);
        }
        CloseTrade { inner: self.inner.set_text(1, value) }
    }

    /// Sets the JSON body.
    pub fn body<V: TryInto<String>>(self, value: V) -> (r: Self) where
        <V as TryInto<String>>::Error: std::fmt::Display,

        ensures
            body_set(self@, value, r@),
    {
        proof {
            use_type_invariant(&self);
        }
        CloseTrade { inner: self.inner.set_body(value) }
    }

    /// Rewrites the JSON body with `f`, unless it already failed conversion.
    pub fn body_map<F: FnOnce(String) -> String>(self, f: F) -> (r: Self)
        requires
            forall|s: String| f.requires((s,)),
        ensures
            body_mapped(self@, f, r@),
    {
        proof {
            use_type_invariant(&self);
        }
        CloseTrade { inner: self.inner.map_body(f) }
    }

    /// Checks the parameters and body in declaration order and yields the
    /// request, or the message of the first that is not valid.
    pub fn build(self) -> (r: Result<Request, String>)
        ensures
            finalized_as(r, self@.finalized()),
    {
        proof {
            use_type_invariant(&self);
        }
        self.inner.finalize()
    }
}

/// Builder for [`Client::set_trade_client_extensions`]: a `PUT` request to `/accounts/{accountID}/trades/{tradeSpecifier}/clientExtensions`.
pub struct SetTradeClientExtensions<'a> {
    inner: RequestBuilder<'a>,
}

impl<'a> View for SetTradeClientExtensions<'a> {
    type V = BuilderModel;

    closed spec fn view(&self) -> BuilderModel {
        self.inner@
    }
}

impl<'a> SetTradeClientExtensions<'a> {
    #[verifier::type_invariant]
    spec fn inv(&self) -> bool {
        &&& self.inner.inv()
        &&& self.inner@.op == Operation::SetTradeClientExtensions
    }

    pub fn new(client: &'a Client) -> (r: Self)
        ensures
            r@ == initial_model(*client, Operation::SetTradeClientExtensions),
    {
        SetTradeClientExtensions { inner: RequestBuilder::new(client, Operation::SetTradeClientExtensions) }
    }

    /// Sets `account_id`, sent as a segment of the path.
    pub fn account_id<V: TryInto<String>>(self, value: V) -> (r: Self)
        ensures
            text_set(self@, 0, value, r@),
    {
        proof {
            use_type_invariant(&self);
        }
        SetTradeClientExtensions { inner: self.inner.set_text(0, value) }
    }

    /// Sets `trade_specifier`, sent as a segment of the path.
    pub fn trade_specifier<V: TryInto<String>>(self, value: V) -> (r: Self)
        ensures
            text_set(self@, 1, value, r@),
    {
        proof {
            use_type_invariant(&self);
        }
        SetTradeClientExtensions { inner: self.inner.set_text(1, value) }
    }

    /// Sets the JSON body.
    pub fn body<V: TryInto<String>>(self, value: V) -> (r: Self) where
        <V as TryInto<String>>::Error: std::fmt::Display,

        ensures
            body_set(self@, value, r@),
    {
        proof {
            use_type_invariant(&self);
        }
        SetTradeClientExtensions { inner: self.inner.set_body(value) }
    }

    /// Rewrites the JSON body with `f`, unless it already failed conversion.
    pub fn body_map<F: FnOnce(String) -> String>(self, f: F) -> (r: Self)
        requires
            forall|s: String| f.requires((s,)),
        ensures
            body_mapped(self@, f, r@),
    {
        proof {
            use_type_invariant(&self);
        }
        SetTradeClientExtensions { inner: self.inner.map_body(f) }
    }

    /// Checks the parameters and body in declaration order and yields the
    /// request, or the message of the first that is not valid.
    pub fn build(self) -> (r: Result<Request, String>)
        ensures
            finalized_as(r, self@.finalized()),
    {
        proof {
            use_type_invariant(&self);
        }
        self.inner.finalize()
    }
}

/// Builder for [`Client::set_trade_dependent_orders`]: a `PUT` request to `/accounts/{accountID}/trades/{tradeSpecifier}/orders`.
pub struct SetTradeDependentOrders<'a> {
    inner: RequestBuilder<'a>,
}

impl<'a> View for SetTradeDependentOrders<'a> {
    type V = BuilderModel;

    closed spec fn view(&self) -> BuilderModel {
        self.inner@
    }
}

impl<'a> SetTradeDependentOrders<'a> {
    #[verifier::type_invariant]
    spec fn inv(&self) -> bool {
        &&& self.inner.inv()
        &&& self.inner@.op == Operation::SetTradeDependentOrders
    }

    pub fn new(client: &'a Client) -> (r: Self)
        ensures
            r@ == initial_model(*client, Operation::SetTradeDependentOrders),
    {
        SetTradeDependentOrders { inner: RequestBuilder::new(client, Operation::SetTradeDependentOrders) }
    }

    /// Sets `account_id`, sent as a segment of the path.
    pub fn account_id<V: TryInto<String>>(self, value: V) -> (r: Self)
        ensures
            text_set(self@, 0, value, r@),
    {
        proof {
            use_type_invariant(&self);
        }
        SetTradeDependentOrders { inner: self.inner.set_text(0, value) }
    }

    /// Sets `trade_specifier`, sent as a segment of the path.
    pub fn trade_specifier<V: TryInto<String>>(self, value: V) -> (r: Self)
        ensures
            text_set(self@, 1, value, r@),
    {
        proof {
            use_type_invariant(&self);
        }
        SetTradeDependentOrders { inner: self.inner.set_text(1, value) }
    }

    /// Sets the JSON body.
    pub fn body<V: TryInto<String>>(self, value: V) -> (r: Self) where
        <V as TryInto<String>>::Error: std::fmt::Display,

        ensures
            body_set(self@, value, r@),
    {
        proof {
            use_type_invariant(&self);
        }
        SetTradeDependentOrders { inner: self.inner.set_body(value) }
    }

    /// Rewrites the JSON body with `f`, unless it already failed conversion.
    pub fn body_map<F: FnOnce(String) -> String>(self, f: F) -> (r: Self)
        requires
            forall|s: String| f.requires((s,)),
        ensures
            body_mapped(self@, f, r@),
    {
        proof {
            use_type_invariant(&self);
        }
        SetTradeDependentOrders { inner: self.inner.map_body(f) }
    }

    /// Checks the parameters and body in declaration order and yields the
    /// request, or the message of the first that is not valid.
    pub fn build(self) -> (r: Result<Request, String>)
        ensures
            finalized_as(r, self@.finalized()),
    {
        proof {
            use_type_invariant(&self);
        }
        self.inner.finalize()
    }
}

/// Builder for [`Client::list_accounts`]: a `GET` request to `/accounts`.
pub struct ListAccounts<'a> {
    inner: RequestBuilder<'a>,
}

impl<'a> View for ListAccounts<'a> {
    type V = BuilderModel;

    closed spec fn view(&self) -> BuilderModel {
        self.inner@
    }
}

impl<'a> ListAccounts<'a> {
    #[verifier::type_invariant]
    spec fn inv(&self) -> bool {
        &&& self.inner.inv()
        &&& self.inner@.op == Operation::ListAccounts
    }

    pub fn new(client: &'a Client) -> (r: Self)
        ensures
            r@ == initial_model(*client, Operation::ListAccounts),
    {
        ListAccounts { inner: RequestBuilder::new(client, Operation::ListAccounts) }
    }

    /// Checks the parameters and body in declaration order and yields the
    /// request, or the message of the first that is not valid.
    pub fn build(self) -> (r: Result<Request, String>)
        ensures
            finalized_as(r, self@.finalized()),
    {
        proof {
            use_type_invariant(&self);
        }
        self.inner.finalize()
    }
}

/// Builder for [`Client::get_account`]: a `GET` request to `/accounts/{accountID}`.
pub struct GetAccount<'a> {
    inner: RequestBuilder<'a>,
}

impl<'a> View for GetAccount<'a> {
    type V = BuilderModel;

    closed spec fn view(&self) -> BuilderModel {
        self.inner@
    }
}

impl<'a> GetAccount<'a> {
    #[verifier::type_invariant]
    spec fn inv(&self) -> bool {
        &&& self.inner.inv()
        &&& self.inner@.op == Operation::GetAccount
    }

    pub fn new(client: &'a Client) -> (r: Self)
        ensures
            r@ == initial_model(*client, Operation::GetAccount),
    {
        GetAccount { inner: RequestBuilder::new(client, Operation::GetAccount) }
    }

    /// Sets `account_id`, sent as a segment of the path.
    pub fn account_id<V: TryInto<String>>(self, value: V) -> (r: Self)
        ensures
            text_set(self@, 0, value, r@),
    {
        proof {
            use_type_invariant(&self);
        }
        GetAccount { inner: self.inner.set_text(0, value) }
    }

    /// Checks the parameters and body in declaration order and yields the
    /// request, or the message of the first that is not valid.
    pub fn build(self) -> (r: Result<Request, String>)
        ensures
            finalized_as(r, self@.finalized()),
    {
        proof {
            use_type_invariant(&self);
        }
        self.inner.finalize()
    }
}

/// Builder for [`Client::get_account_summary`]: a `GET` request to `/accounts/{accountID}/summary`.
pub struct GetAccountSummary<'a> {
    inner: RequestBuilder<'a>,
}

impl<'a> View for GetAccountSummary<'a> {
    type V = BuilderModel;

    closed spec fn view(&self) -> BuilderModel {
        self.inner@
    }
}

impl<'a> GetAccountSummary<'a> {
    #[verifier::type_invariant]
    spec fn inv(&self) -> bool {
        &&& self.inner.inv()
        &&& self.inner@.op == Operation::GetAccountSummary
    }

    pub fn new(client: &'a Client) -> (r: Self)
        ensures
            r@ == initial_model(*client, Operation::GetAccountSummary),
    {
        GetAccountSummary { inner: RequestBuilder::new(client, Operation::GetAccountSummary) }
    }

    /// Sets `account_id`, sent as a segment of the path.
    pub fn account_id<V: TryInto<String>>(self, value: V) -> (r: Self)
        ensures
            text_set(self@, 0, value, r@),
    {
        proof {
            use_type_invariant(&self);
        }
        GetAccountSummary { inner: self.inner.set_text(0, value) }
    }

    /// Checks the parameters and body in declaration order and yields the
    /// request, or the message of the first that is not valid.
    pub fn build(self) -> (r: Result<Request, String>)
        ensures
            finalized_as(r, self@.finalized()),
    {
        proof {
            use_type_invariant(&self);
        }
        self.inner.finalize()
    }
}

/// Builder for [`Client::get_account_instruments`]: a `GET` request to `/accounts/{accountID}/instruments`.
pub struct GetAccountInstruments<'a> {
    inner: RequestBuilder<'a>,
}

impl<'a> View for GetAccountInstruments<'a> {
    type V = BuilderModel;

    closed spec fn view(&self) -> BuilderModel {
        self.inner@
    }
}

impl<'a> GetAccountInstruments<'a> {
    #[verifier::type_invariant]
    spec fn inv(&self) -> bool {
        &&& self.inner.inv()
        &&& self.inner@.op == Operation::GetAccountInstruments
    }

    pub fn new(client: &'a Client) -> (r: Self)
        ensures
            r@ == initial_model(*client, Operation::GetAccountInstruments),
    {
        GetAccountInstruments { inner: RequestBuilder::new(client, Operation::GetAccountInstruments) }
    }

    /// Sets `account_id`, sent as a segment of the path.
    pub fn account_id<V: TryInto<String>>(self, value: V) -> (r: Self)
        ensures
            text_set(self@, 0, value, r@),
    {
        proof {
            use_type_invariant(&self);
        }
        GetAccountInstruments { inner: self.inner.set_text(0, value) }
    }

    /// Sets `instruments`, sent as the `instruments` query parameter;
    /// only the first element of the list is sent, and an empty list sends an
    /// empty value.
    pub fn instruments<V: TryInto<Vec<String>>>(self, value: V) -> (r: Self)
        ensures
            text_list_set(self@, 1, value, r@),
    {
        proof {
            use_type_invariant(&self);
        }
        GetAccountInstruments { inner: self.inner.set_text_list(1, value) }
    }

    /// Checks the parameters and body in declaration order and yields the
    /// request, or the message of the first that is not valid.
    pub fn build(self) -> (r: Result<Request, String>)
        ensures
            finalized_as(r, self@.finalized()),
    {
        proof {
            use_type_invariant(&self);
        }
        self.inner.finalize()
    }
}

/// Builder for [`Client::configure_account`]: a `PATCH` request to `/accounts/{accountID}/configuration`.
pub struct ConfigureAccount<'a> {
    inner: RequestBuilder<'a>,
}

impl<'a> View for ConfigureAccount<'a> {
    type V = BuilderModel;

    closed spec fn view(&self) -> BuilderModel {
        self.inner@
    }
}

impl<'a> ConfigureAccount<'a> {
    #[verifier::type_invariant]
    spec fn inv(&self) -> bool {
        &&& self.inner.inv()
        &&& self.inner@.op == Operation::ConfigureAccount
    }

    pub fn new(client: &'a Client) -> (r: Self)
        ensures
            r@ == initial_model(*client, Operation::ConfigureAccount),
    {
        ConfigureAccount { inner: RequestBuilder::new(client, Operation::ConfigureAccount) }
    }

    /// Sets `account_id`, sent as a segment of the path.
    pub fn account_id<V: TryInto<String>>(self, value: V) -> (r: Self)
        ensures
            text_set(self@, 0, value, r@),
    {
        proof {
            use_type_invariant(&self);
        }
        ConfigureAccount { inner: self.inner.set_text(0, value) }
    }

    /// Sets the JSON body.
    pub fn body<V: TryInto<String>>(self, value: V) -> (r: Self) where
        <V as TryInto<String>>::Error: std::fmt::Display,

        ensures
            body_set(self@, value, r@),
    {
        proof {
            use_type_invariant(&self);
        }
        ConfigureAccount { inner: self.inner.set_body(value) }
    }

    /// Rewrites the JSON body with `f`, unless it already failed conversion.
    pub fn body_map<F: FnOnce(String) -> String>(self, f: F) -> (r: Self)
        requires
            forall|s: String| f.requires((s,)),
        ensures
            body_mapped(self@, f, r@),
    {
        proof {
            use_type_invariant(&self);
        }
        ConfigureAccount { inner: self.inner.map_body(f) }
    }

    /// Checks the parameters and body in declaration order and yields the
    /// request, or the message of the first that is not valid.
    pub fn build(self) -> (r: Result<Request, String>)
        ensures
            finalized_as(r, self@.finalized()),
    {
        proof {
            use_type_invariant(&self);
        }
        self.inner.finalize()
    }
}

/// Builder for [`Client::get_account_changes`]: a `GET` request to `/accounts/{accountID}/changes`.
pub struct GetAccountChanges<'a> {
    inner: RequestBuilder<'a>,
}

impl<'a> View for GetAccountChanges<'a> {
    type V = BuilderModel;

    closed spec fn view(&self) -> BuilderModel {
        self.inner@
    }
}

impl<'a> GetAccountChanges<'a> {
    #[verifier::type_invariant]
    spec fn inv(&self) -> bool {
        &&& self.inner.inv()
        &&& self.inner@.op == Operation::GetAccountChanges
    }

    pub fn new(client: &'a Client) -> (r: Self)
        ensures
            r@ == initial_model(*client, Operation::GetAccountChanges),
    {
        GetAccountChanges { inner: RequestBuilder::new(client, Operation::GetAccountChanges) }
    }

    /// Sets `account_id`, sent as a segment of the path.
    pub fn account_id<V: TryInto<String>>(self, value: V) -> (r: Self)
        ensures
            text_set(self@, 0, value, r@),
    {
        proof {
            use_type_invariant(&self);
        }
        GetAccountChanges { inner: self.inner.set_text(0, value) }
    }

    /// Sets `since_transaction_id`, sent as the `sinceTransactionID` query parameter.
    pub fn since_transaction_id<V: TryInto<String>>(self, value: V) -> (r: Self)
        ensures
            text_set(self@, 1, value, r@),
    {
        proof {
            use_type_invariant(&self);
        }
        GetAccountChanges { inner: self.inner.set_text(1, value) }
    }

    /// Checks the parameters and body in declaration order and yields the
    /// request, or the message of the first that is not valid.
    pub fn build(self) -> (r: Result<Request, String>)
        ensures
            finalized_as(r, self@.finalized()),
    {
        proof {
            use_type_invariant(&self);
        }
        self.inner.finalize()
    }
}

/// Builder for [`Client::list_transactions`]: a `GET` request to `/accounts/{accountID}/transactions`.
pub struct ListTransactions<'a> {
    inner: RequestBuilder<'a>,
}

impl<'a> View for ListTransactions<'a> {
    type V = BuilderModel;

    closed spec fn view(&self) -> BuilderModel {
        self.inner@
    }
}

impl<'a> ListTransactions<'a> {
    #[verifier::type_invariant]
    spec fn inv(&self) -> bool {
        &&& self.inner.inv()
        &&& self.inner@.op == Operation::ListTransactions
    }

    pub fn new(client: &'a Client) -> (r: Self)
        ensures
            r@ == initial_model(*client, Operation::ListTransactions),
    {
        ListTransactions { inner: RequestBuilder::new(client, Operation::ListTransactions) }
    }

    /// Sets `account_id`, sent as a segment of the path.
    pub fn account_id<V: TryInto<String>>(self, value: V) -> (r: Self)
        ensures
            text_set(self@, 0, value, r@),
    {
        proof {
            use_type_invariant(&self);
        }
        ListTransactions { inner: self.inner.set_text(0, value) }
    }

    /// Sets `from`, sent as the `from` query parameter.
    pub fn from<V: TryInto<String>>(self, value: V) -> (r: Self)
        ensures
            text_set(self@, 1, value, r@),
    {
        proof {
            use_type_invariant(&self);
        }
        ListTransactions { inner: self.inner.set_text(1, value) }
    }

    /// Sets `page_size`, sent as the `pageSize` query parameter.
    pub fn page_size<V: TryInto<i64>>(self, value: V) -> (r: Self)
        ensures
            integer_set(self@, 2, value, r@),
    {
        proof {
            use_type_invariant(&self);
        }
        ListTransactions { inner: self.inner.set_integer(2, value) }
    }

    /// Sets `to`, sent as the `to` query parameter.
    pub fn to<V: TryInto<String>>(self, value: V) -> (r: Self)
        ensures
            text_set(self@, 3, value, r@),
    {
        proof {
            use_type_invariant(&self);
        }
        ListTransactions { inner: self.inner.set_text(3, value) }
    }

    /// Sets `type_`, sent as the `type` query parameter;
    /// only the first element of the list is sent, and an empty list sends an
    /// empty value.
    pub fn type_<V: TryInto<Vec<String>>>(self, value: V) -> (r: Self)
        ensures
            text_list_set(self@, 4, value, r@),
    {
        proof {
            use_type_invariant(&self);
        }
        ListTransactions { inner: self.inner.set_text_list(4, value) }
    }

    /// Checks the parameters and body in declaration order and yields the
    /// request, or the message of the first that is not valid.
    pub fn build(self) -> (r: Result<Request, String>)
        ensures
            finalized_as(r, self@.finalized()),
    {
        proof {
            use_type_invariant(&self);
        }
        self.inner.finalize()
    }
}

/// Builder for [`Client::get_transaction`]: a `GET` request to `/accounts/{accountID}/transactions/{transactionID}`.
pub struct GetTransaction<'a> {
    inner: RequestBuilder<'a>,
}

impl<'a> View for GetTransaction<'a> {
    type V = BuilderModel;

    closed spec fn view(&self) -> BuilderModel {
        self.inner@
    }
}

impl<'a> GetTransaction<'a> {
    #[verifier::type_invariant]
    spec fn inv(&self) -> bool {
        &&& self.inner.inv()
        &&& self.inner@.op == Operation::GetTransaction
    }

    pub fn new(client: &'a Client) -> (r: Self)
        ensures
            r@ == initial_model(*client, Operation::GetTransaction),
    {
        GetTransaction { inner: RequestBuilder::new(client, Operation::GetTransaction) }
    }

    /// Sets `account_id`, sent as a segment of the path.
    pub fn account_id<V: TryInto<String>>(self, value: V) -> (r: Self)
        ensures
            text_set(self@, 0, value, r@),
    {
        proof {
            use_type_invariant(&self);
        }
        GetTransaction { inner: self.inner.set_text(0, value) }
    }

    /// Sets `transaction_id`, sent as a segment of the path.
    pub fn transaction_id<V: TryInto<String>>(self, value: V) -> (r: Self)
        ensures
            text_set(self@, 1, value, r@),
    {
        proof {
            use_type_invariant(&self);
        }
        GetTransaction { inner: self.inner.set_text(1, value) }
    }

    /// Checks the parameters and body in declaration order and yields the
    /// request, or the message of the first that is not valid.
    pub fn build(self) -> (r: Result<Request, String>)
        ensures
            finalized_as(r, self@.finalized()),
    {
        proof {
            use_type_invariant(&self);
        }
        self.inner.finalize()
    }
}

/// Builder for [`Client::get_transaction_range`]: a `GET` request to `/accounts/{accountID}/transactions/idrange`.
pub struct GetTransactionRange<'a> {
    inner: RequestBuilder<'a>,
}

impl<'a> View for GetTransactionRange<'a> {
    type V = BuilderModel;

    closed spec fn view(&self) -> BuilderModel {
        self.inner@
    }
}

impl<'a> GetTransactionRange<'a> {
    #[verifier::type_invariant]
    spec fn inv(&self) -> bool {
        &&& self.inner.inv()
        &&& self.inner@.op == Operation::GetTransactionRange
    }

    pub fn new(client: &'a Client) -> (r: Self)
        ensures
            r@ == initial_model(*client, Operation::GetTransactionRange),
    {
        GetTransactionRange { inner: RequestBuilder::new(client, Operation::GetTransactionRange) }
    }

    /// Sets `account_id`, sent as a segment of the path.
    pub fn account_id<V: TryInto<String>>(self, value: V) -> (r: Self)
        ensures
            text_set(self@, 0, value, r@),
    {
        proof {
            use_type_invariant(&self);
        }
        GetTransactionRange { inner: self.inner.set_text(0, value) }
    }

    /// Sets `from`, sent as the `from` query parameter.
    pub fn from<V: TryInto<String>>(self, value: V) -> (r: Self)
        ensures
            text_set(self@, 1, value, r@),
    {
        proof {
            use_type_invariant(&self);
        }
        GetTransactionRange { inner: self.inner.set_text(1, value) }
    }

    /// Sets `to`, sent as the `to` query parameter.
    pub fn to<V: TryInto<String>>(self, value: V) -> (r: Self)
        ensures
            text_set(self@, 2, value, r@),
    {
        proof {
            use_type_invariant(&self);
        }
        GetTransactionRange { inner: self.inner.set_text(2, value) }
    }

    /// Sets `type_`, sent as the `type` query parameter;
    /// only the first element of the list is sent, and an empty list sends an
    /// empty value.
    pub fn type_<V: TryInto<Vec<String>>>(self, value: V) -> (r: Self)
        ensures
            text_list_set(self@, 3, value, r@),
    {
        proof {
            use_type_invariant(&self);
        }
        GetTransactionRange { inner: self.inner.set_text_list(3, value) }
    }

    /// Checks the parameters and body in declaration order and yields the
    /// request, or the message of the first that is not valid.
    pub fn build(self) -> (r: Result<Request, String>)
        ensures
            finalized_as(r, self@.finalized()),
    {
        proof {
            use_type_invariant(&self);
        }
        self.inner.finalize()
    }
}

/// Builder for [`Client::get_transactions_since_id`]: a `GET` request to `/accounts/{accountID}/transactions/sinceid`.
pub struct GetTransactionsSinceId<'a> {
    inner: RequestBuilder<'a>,
}

impl<'a> View for GetTransactionsSinceId<'a> {
    type V = BuilderModel;

    closed spec fn view(&self) -> BuilderModel {
        self.inner@
    }
}

impl<'a> GetTransactionsSinceId<'a> {
    #[verifier::type_invariant]
    spec fn inv(&self) -> bool {
        &&& self.inner.inv()
        &&& self.inner@.op == Operation::GetTransactionsSinceId
    }

    pub fn new(client: &'a Client) -> (r: Self)
        ensures
            r@ == initial_model(*client, Operation::GetTransactionsSinceId),
    {
        GetTransactionsSinceId { inner: RequestBuilder::new(client, Operation::GetTransactionsSinceId) }
    }

    /// Sets `account_id`, sent as a segment of the path.
    pub fn account_id<V: TryInto<String>>(self, value: V) -> (r: Self)
        ensures
            text_set(self@, 0, value, r@),
    {
        proof {
            use_type_invariant(&self);
        }
        GetTransactionsSinceId { inner: self.inner.set_text(0, value) }
    }

    /// Sets `id`, sent as the `id` query parameter.
    pub fn id<V: TryInto<String>>(self, value: V) -> (r: Self)
        ensures
            text_set(self@, 1, value, r@),
    {
        proof {
            use_type_invariant(&self);
        }
        GetTransactionsSinceId { inner: self.inner.set_text(1, value) }
    }

    /// Checks the parameters and body in declaration order and yields the
    /// request, or the message of the first that is not valid.
    pub fn build(self) -> (r: Result<Request, String>)
        ensures
            finalized_as(r, self@.finalized()),
    {
        proof {
            use_type_invariant(&self);
        }
        self.inner.finalize()
    }
}

/// Builder for [`Client::stream_transactions`]: a `GET` request to `/accounts/{accountID}/transactions/stream`.
pub struct StreamTransactions<'a> {
    inner: RequestBuilder<'a>,
}

impl<'a> View for StreamTransactions<'a> {
    type V = BuilderModel;

    closed spec fn view(&self) -> BuilderModel {
        self.inner@
    }
}

impl<'a> StreamTransactions<'a> {
    #[verifier::type_invariant]
    spec fn inv(&self) -> bool {
        &&& self.inner.inv()
        &&& self.inner@.op == Operation::StreamTransactions
    }

    pub fn new(client: &'a Client) -> (r: Self)
        ensures
            r@ == initial_model(*client, Operation::StreamTransactions),
    {
        StreamTransactions { inner: RequestBuilder::new(client, Operation::StreamTransactions) }
    }

    /// Sets `account_id`, sent as a segment of the path.
    pub fn account_id<V: TryInto<String>>(self, value: V) -> (r: Self)
        ensures
            text_set(self@, 0, value, r@),
    {
        proof {
            use_type_invariant(&self);
        }
        StreamTransactions { inner: self.inner.set_text(0, value) }
    }

    /// Checks the parameters and body in declaration order and yields the
    /// request, or the message of the first that is not valid.
    pub fn build(self) -> (r: Result<Request, String>)
        ensures
            finalized_as(r, self@.finalized()),
    {
        proof {
            use_type_invariant(&self);
        }
        self.inner.finalize()
    }
}

/// Builder for [`Client::get_latest_candles`]: a `GET` request to `/accounts/{accountID}/candles/latest`.
pub struct GetLatestCandles<'a> {
    inner: RequestBuilder<'a>,
}

impl<'a> View for GetLatestCandles<'a> {
    type V = BuilderModel;

    closed spec fn view(&self) -> BuilderModel {
        self.inner@
    }
}

impl<'a> GetLatestCandles<'a> {
    #[verifier::type_invariant]
    spec fn inv(&self) -> bool {
        &&& self.inner.inv()
        &&& self.inner@.op == Operation::GetLatestCandles
    }

    pub fn new(client: &'a Client) -> (r: Self)
        ensures
            r@ == initial_model(*client, Operation::GetLatestCandles),
    {
        GetLatestCandles { inner: RequestBuilder::new(client, Operation::GetLatestCandles) }
    }

    /// Sets `account_id`, sent as a segment of the path.
    pub fn account_id<V: TryInto<String>>(self, value: V) -> (r: Self)
        ensures
            text_set(self@, 0, value, r@),
    {
        proof {
            use_type_invariant(&self);
        }
        GetLatestCandles { inner: self.inner.set_text(0, value) }
    }

    /// Sets `alignment_timezone`, sent as the `alignmentTimezone` query parameter.
    pub fn alignment_timezone<V: TryInto<String>>(self, value: V) -> (r: Self)
        ensures
            text_set(self@, 1, value, r@),
    {
        proof {
            use_type_invariant(&self);
        }
        GetLatestCandles { inner: self.inner.set_text(1, value) }
    }

    /// Sets `candle_specifications`, sent as the `candleSpecifications` query parameter;
    /// only the first element of the list is sent, and an empty list sends an
    /// empty value.
    pub fn candle_specifications<V: TryInto<Vec<String>>>(self, value: V) -> (r: Self)
        ensures
            text_list_set(self@, 2, value, r@),
    {
        proof {
            use_type_invariant(&self);
        }
        GetLatestCandles { inner: self.inner.set_text_list(2, value) }
    }

    /// Sets `daily_alignment`, sent as the `dailyAlignment` query parameter.
    pub fn daily_alignment<V: TryInto<i64>>(self, value: V) -> (r: Self)
        ensures
            integer_set(self@, 3, value, r@),
    {
        proof {
            use_type_invariant(&self);
        }
        GetLatestCandles { inner: self.inner.set_integer(3, value) }
    }

    /// Sets `smooth`, sent as the `smooth` query parameter.
    pub fn smooth<V: TryInto<bool>>(self, value: V) -> (r: Self)
        ensures
            flag_set(self@, 4, value, r@),
    {
        proof {
            use_type_invariant(&self);
        }
        GetLatestCandles { inner: self.inner.set_flag(4, value) }
    }

    /// Sets `units`, sent as the `units` query parameter.
    pub fn units<V: TryInto<String>>(self, value: V) -> (r: Self)
        ensures
            text_set(self@, 5, value, r@),
    {
        proof {
            use_type_invariant(&self);
        }
        GetLatestCandles { inner: self.inner.set_text(5, value) }
    }

    /// Sets `weekly_alignment`, sent as the `weeklyAlignment` query parameter.
    pub fn weekly_alignment<V: TryInto<String>>(self, value: V) -> (r: Self)
        ensures
            text_set(self@, 6, value, r@),
    {
        proof {
            use_type_invariant(&self);
        }
        GetLatestCandles { inner: self.inner.set_text(6, value) }
    }

    /// Checks the parameters and body in declaration order and yields the
    /// request, or the message of the first that is not valid.
    pub fn build(self) -> (r: Result<Request, String>)
        ensures
            finalized_as(r, self@.finalized()),
    {
        proof {
            use_type_invariant(&self);
        }
        self.inner.finalize()
    }
}

/// Builder for [`Client::get_prices`]: a `GET` request to `/accounts/{accountID}/pricing`.
pub struct GetPrices<'a> {
    inner: RequestBuilder<'a>,
}

impl<'a> View for GetPrices<'a> {
    type V = BuilderModel;

    closed spec fn view(&self) -> BuilderModel {
        self.inner@
    }
}

impl<'a> GetPrices<'a> {
    #[verifier::type_invariant]
    spec fn inv(&self) -> bool {
        &&& self.inner.inv()
        &&& self.inner@.op == Operation::GetPrices
    }

    pub fn new(client: &'a Client) -> (r: Self)
        ensures
            r@ == initial_model(*client, Operation::GetPrices),
    {
        GetPrices { inner: RequestBuilder::new(client, Operation::GetPrices) }
    }

    /// Sets `account_id`, sent as a segment of the path.
    pub fn account_id<V: TryInto<String>>(self, value: V) -> (r: Self)
        ensures
            text_set(self@, 0, value, r@),
    {
        proof {
            use_type_invariant(&self);
        }
        GetPrices { inner: self.inner.set_text(0, value) }
    }

    /// Sets `include_home_conversions`, sent as the `includeHomeConversions` query parameter.
    pub fn include_home_conversions<V: TryInto<bool>>(self, value: V) -> (r: Self)
        ensures
            flag_set(self@, 1, value, r@),
    {
        proof {
            use_type_invariant(&self);
        }
        GetPrices { inner: self.inner.set_flag(1, value) }
    }

    /// Sets `include_units_available`, sent as the `includeUnitsAvailable` query parameter.
    pub fn include_units_available<V: TryInto<bool>>(self, value: V) -> (r: Self)
        ensures
            flag_set(self@, 2, value, r@),
    {
        proof {
            use_type_invariant(&self);
        }
        GetPrices { inner: self.inner.set_flag(2, value) }
    }

    /// Sets `instruments`, sent as the `instruments` query parameter;
    /// only the first element of the list is sent, and an empty list sends an
    /// empty value.
    pub fn instruments<V: TryInto<Vec<String>>>(self, value: V) -> (r: Self)
        ensures
            text_list_set(self@, 3, value, r@),
    {
        proof {
            use_type_invariant(&self);
        }
        GetPrices { inner: self.inner.set_text_list(3, value) }
    }

    /// Sets `since`, sent as the `since` query parameter.
    pub fn since<V: TryInto<String>>(self, value: V) -> (r: Self)
        ensures
            text_set(self@, 4, value, r@),
    {
        proof {
            use_type_invariant(&self);
        }
        GetPrices { inner: self.inner.set_text(4, value) }
    }

    /// Checks the parameters and body in declaration order and yields the
    /// request, or the message of the first that is not valid.
    pub fn build(self) -> (r: Result<Request, String>)
        ensures
            finalized_as(r, self@.finalized()),
    {
        proof {
            use_type_invariant(&self);
        }
        self.inner.finalize()
    }
}

/// Builder for [`Client::stream_pricing`]: a `GET` request to `/accounts/{accountID}/pricing/stream`.
pub struct StreamPricing<'a> {
    inner: RequestBuilder<'a>,
}

impl<'a> View for StreamPricing<'a> {
    type V = BuilderModel;

    closed spec fn view(&self) -> BuilderModel {
        self.inner@
    }
}

impl<'a> StreamPricing<'a> {
    #[verifier::type_invariant]
    spec fn inv(&self) -> bool {
        &&& self.inner.inv()
        &&& self.inner@.op == Operation::StreamPricing
    }

    pub fn new(client: &'a Client) -> (r: Self)
        ensures
            r@ == initial_model(*client, Operation::StreamPricing),
    {
        StreamPricing { inner: RequestBuilder::new(client, Operation::StreamPricing) }
    }

    /// Sets `account_id`, sent as a segment of the path.
    pub fn account_id<V: TryInto<String>>(self, value: V) -> (r: Self)
        ensures
            text_set(self@, 0, value, r@),
    {
        proof {
            use_type_invariant(&self);
        }
        StreamPricing { inner: self.inner.set_text(0, value) }
    }

    /// Sets `instruments`, sent as the `instruments` query parameter;
    /// only the first element of the list is sent, and an empty list sends an
    /// empty value.
    pub fn instruments<V: TryInto<Vec<String>>>(self, value: V) -> (r: Self)
        ensures
            text_list_set(self@, 1, value, r@),
    {
        proof {
            use_type_invariant(&self);
        }
        StreamPricing { inner: self.inner.set_text_list(1, value) }
    }

    /// Sets `snapshot`, sent as the `snapshot` query parameter.
    pub fn snapshot<V: TryInto<bool>>(self, value: V) -> (r: Self)
        ensures
            flag_set(self@, 2, value, r@),
    {
        proof {
            use_type_invariant(&self);
        }
        StreamPricing { inner: self.inner.set_flag(2, value) }
    }

    /// Checks the parameters and body in declaration order and yields the
    /// request, or the message of the first that is not valid.
    pub fn build(self) -> (r: Result<Request, String>)
        ensures
            finalized_as(r, self@.finalized()),
    {
        proof {
            use_type_invariant(&self);
        }
        self.inner.finalize()
    }
}

/// Builder for [`Client::get_account_instrument_candles`]: a `GET` request to `/accounts/{accountID}/instruments/{instrument}/candles`.
pub struct GetAccountInstrumentCandles<'a> {
    inner: RequestBuilder<'a>,
}

impl<'a> View for GetAccountInstrumentCandles<'a> {
    type V = BuilderModel;

    closed spec fn view(&self) -> BuilderModel {
        self.inner@
    }
}

impl<'a> GetAccountInstrumentCandles<'a> {
    #[verifier::type_invariant]
    spec fn inv(&self) -> bool {
        &&& self.inner.inv()
        &&& self.inner@.op == Operation::GetAccountInstrumentCandles
    }

    pub fn new(client: &'a Client) -> (r: Self)
        ensures
            r@ == initial_model(*client, Operation::GetAccountInstrumentCandles),
    {
        GetAccountInstrumentCandles { inner: RequestBuilder::new(client, Operation::GetAccountInstrumentCandles) }
    }

    /// Sets `account_id`, sent as a segment of the path.
    pub fn account_id<V: TryInto<String>>(self, value: V) -> (r: Self)
        ensures
            text_set(self@, 0, value, r@),
    {
        proof {
            use_type_invariant(&self);
        }
        GetAccountInstrumentCandles { inner: self.inner.set_text(0, value) }
    }

    /// Sets `instrument`, sent as a segment of the path.
    pub fn instrument<V: TryInto<String>>(self, value: V) -> (r: Self)
        ensures
            text_set(self@, 1, value, r@),
    {
        proof {
            use_type_invariant(&self);
        }
        GetAccountInstrumentCandles { inner: self.inner.set_text(1, value) }
    }

    /// Sets `alignment_timezone`, sent as the `alignmentTimezone` query parameter.
    pub fn alignment_timezone<V: TryInto<String>>(self, value: V) -> (r: Self)
        ensures
            text_set(self@, 2, value, r@),
    {
        proof {
            use_type_invariant(&self);
        }
        GetAccountInstrumentCandles { inner: self.inner.set_text(2, value) }
    }

    /// Sets `count`, sent as the `count` query parameter.
    pub fn count<V: TryInto<i64>>(self, value: V) -> (r: Self)
        ensures
            integer_set(self@, 3, value, r@),
    {
        proof {
            use_type_invariant(&self);
        }
        GetAccountInstrumentCandles { inner: self.inner.set_integer(3, value) }
    }

    /// Sets `daily_alignment`, sent as the `dailyAlignment` query parameter.
    pub fn daily_alignment<V: TryInto<i64>>(self, value: V) -> (r: Self)
        ensures
            integer_set(self@, 4, value, r@),
    {
        proof {
            use_type_invariant(&self);
        }
        GetAccountInstrumentCandles { inner: self.inner.set_integer(4, value) }
    }

    /// Sets `from`, sent as the `from` query parameter.
    pub fn from<V: TryInto<String>>(self, value: V) -> (r: Self)
        ensures
            text_set(self@, 5, value, r@),
    {
        proof {
            use_type_invariant(&self);
        }
        GetAccountInstrumentCandles { inner: self.inner.set_text(5, value) }
    }

    /// Sets `granularity`, sent as the `granularity` query parameter.
    pub fn granularity<V: TryInto<String>>(self, value: V) -> (r: Self)
        ensures
            text_set(self@, 6, value, r@),
    {
        proof {
            use_type_invariant(&self);
        }
        GetAccountInstrumentCandles { inner: self.inner.set_text(6, value) }
    }

    /// Sets `include_first`, sent as the `includeFirst` query parameter.
    pub fn include_first<V: TryInto<bool>>(self, value: V) -> (r: Self)
        ensures
            flag_set(self@, 7, value, r@),
    {
        proof {
            use_type_invariant(&self);
        }
        GetAccountInstrumentCandles { inner: self.inner.set_flag(7, value) }
    }

    /// Sets `price`, sent as the `price` query parameter.
    pub fn price<V: TryInto<String>>(self, value: V) -> (r: Self)
        ensures
            text_set(self@, 8, value, r@),
    {
        proof {
            use_type_invariant(&self);
        }
        GetAccountInstrumentCandles { inner: self.inner.set_text(8, value) }
    }

    /// Sets `smooth`, sent as the `smooth` query parameter.
    pub fn smooth<V: TryInto<bool>>(self, value: V) -> (r: Self)
        ensures
            flag_set(self@, 9, value, r@),
    {
        proof {
            use_type_invariant(&self);
        }
        GetAccountInstrumentCandles { inner: self.inner.set_flag(9, value) }
    }

    /// Sets `to`, sent as the `to` query parameter.
    pub fn to<V: TryInto<String>>(self, value: V) -> (r: Self)
        ensures
            text_set(self@, 10, value, r@),
    {
        proof {
            use_type_invariant(&self);
        }
        GetAccountInstrumentCandles { inner: self.inner.set_text(10, value) }
    }

    /// Sets `units`, sent as the `units` query parameter.
    pub fn units<V: TryInto<String>>(self, value: V) -> (r: Self)
        ensures
            text_set(self@, 11, value, r@),
    {
        proof {
            use_type_invariant(&self);
        }
        GetAccountInstrumentCandles { inner: self.inner.set_text(11, value) }
    }

    /// Sets `weekly_alignment`, sent as the `weeklyAlignment` query parameter.
    pub fn weekly_alignment<V: TryInto<String>>(self, value: V) -> (r: Self)
        ensures
            text_set(self@, 12, value, r@),
    {
        proof {
            use_type_invariant(&self);
        }
        GetAccountInstrumentCandles { inner: self.inner.set_text(12, value) }
    }

    /// Checks the parameters and body in declaration order and yields the
    /// request, or the message of the first that is not valid.
    pub fn build(self) -> (r: Result<Request, String>)
        ensures
            finalized_as(r, self@.finalized()),
    {
        proof {
            use_type_invariant(&self);
        }
        self.inner.finalize()
    }
}

/// Builder for [`Client::list_orders`]: a `GET` request to `/accounts/{accountID}/orders`.
pub struct ListOrders<'a> {
    inner: RequestBuilder<'a>,
}

impl<'a> View for ListOrders<'a> {
    type V = BuilderModel;

    closed spec fn view(&self) -> BuilderModel {
        self.inner@
    }
}

impl<'a> ListOrders<'a> {
    #[verifier::type_invariant]
    spec fn inv(&self) -> bool {
        &&& self.inner.inv()
        &&& self.inner@.op == Operation::ListOrders
    }

    pub fn new(client: &'a Client) -> (r: Self)
        ensures
            r@ == initial_model(*client, Operation::ListOrders),
    {
        ListOrders { inner: RequestBuilder::new(client, Operation::ListOrders) }
    }

    /// Sets `account_id`, sent as a segment of the path.
    pub fn account_id<V: TryInto<String>>(self, value: V) -> (r: Self)
        ensures
            text_set(self@, 0, value, r@),
    {
        proof {
            use_type_invariant(&self);
        }
        ListOrders { inner: self.inner.set_text(0, value) }
    }

    /// Sets `before_id`, sent as the `beforeID` query parameter.
    pub fn before_id<V: TryInto<String>>(self, value: V) -> (r: Self)
        ensures
            text_set(self@, 1, value, r@),
    {
        proof {
            use_type_invariant(&self);
        }
        ListOrders { inner: self.inner.set_text(1, value) }
    }

    /// Sets `count`, sent as the `count` query parameter.
    pub fn count<V: TryInto<i64>>(self, value: V) -> (r: Self)
        ensures
            integer_set(self@, 2, value, r@),
    {
        proof {
            use_type_invariant(&self);
        }
        ListOrders { inner: self.inner.set_integer(2, value) }
    }

    /// Sets `ids`, sent as the `ids` query parameter;
    /// only the first element of the list is sent, and an empty list sends an
    /// empty value.
    pub fn ids<V: TryInto<Vec<String>>>(self, value: V) -> (r: Self)
        ensures
            text_list_set(self@, 3, value, r@),
    {
        proof {
            use_type_invariant(&self);
        }
        ListOrders { inner: self.inner.set_text_list(3, value) }
    }

    /// Sets `instrument`, sent as the `instrument` query parameter.
    pub fn instrument<V: TryInto<String>>(self, value: V) -> (r: Self)
        ensures
            text_set(self@, 4, value, r@),
    {
        proof {
            use_type_invariant(&self);
        }
        ListOrders { inner: self.inner.set_text(4, value) }
    }

    /// Sets `state`, sent as the `state` query parameter.
    pub fn state<V: TryInto<String>>(self, value: V) -> (r: Self)
        ensures
            text_set(self@, 5, value, r@),
    {
        proof {
            use_type_invariant(&self);
        }
        ListOrders { inner: self.inner.set_text(5, value) }
    }

    /// Checks the parameters and body in declaration order and yields the
    /// request, or the message of the first that is not valid.
    pub fn build(self) -> (r: Result<Request, String>)
        ensures
            finalized_as(r, self@.finalized()),
    {
        proof {
            use_type_invariant(&self);
        }
        self.inner.finalize()
    }
}

/// Builder for [`Client::create_order`]: a `POST` request to `/accounts/{accountID}/orders`.
pub struct CreateOrder<'a> {
    inner: RequestBuilder<'a>,
}

impl<'a> View for CreateOrder<'a> {
    type V = BuilderModel;

    closed spec fn view(&self) -> BuilderModel {
        self.inner@
    }
}

impl<'a> CreateOrder<'a> {
    #[verifier::type_invariant]
    spec fn inv(&self) -> bool {
        &&& self.inner.inv()
        &&& self.inner@.op == Operation::CreateOrder
    }

    pub fn new(client: &'a Client) -> (r: Self)
        ensures
            r@ == initial_model(*client, Operation::CreateOrder),
    {
        CreateOrder { inner: RequestBuilder::new(client, Operation::CreateOrder) }
    }

    /// Sets `account_id`, sent as a segment of the path.
    pub fn account_id<V: TryInto<String>>(self, value: V) -> (r: Self)
        ensures
            text_set(self@, 0, value, r@),
    {
        proof {
            use_type_invariant(&self);
        }
        CreateOrder { inner: self.inner.set_text(0, value) }
    }

    /// Sets the JSON body.
    pub fn body<V: TryInto<String>>(self, value: V) -> (r: Self) where
        <V as TryInto<String>>::Error: std::fmt::Display,

        ensures
            body_set(self@, value, r@),
    {
        proof {
            use_type_invariant(&self);
        }
        CreateOrder { inner: self.inner.set_body(value) }
    }

    /// Rewrites the JSON body with `f`, unless it already failed conversion.
    pub fn body_map<F: FnOnce(String) -> String>(self, f: F) -> (r: Self)
        requires
            forall|s: String| f.requires((s,)),
        ensures
            body_mapped(self@, f, r@),
    {
        proof {
            use_type_invariant(&self);
        }
        CreateOrder { inner: self.inner.map_body(f) }
    }

    /// Checks the parameters and body in declaration order and yields the
    /// request, or the message of the first that is not valid.
    pub fn build(self) -> (r: Result<Request, String>)
        ensures
            finalized_as(r, self@.finalized()),
    {
        proof {
            use_type_invariant(&self);
        }
        self.inner.finalize()
    }
}

/// Builder for [`Client::list_pending_orders`]: a `GET` request to `/accounts/{accountID}/pendingOrders`.
pub struct ListPendingOrders<'a> {
    inner: RequestBuilder<'a>,
}

impl<'a> View for ListPendingOrders<'a> {
    type V = BuilderModel;

    closed spec fn view(&self) -> BuilderModel {
        self.inner@
    }
}

impl<'a> ListPendingOrders<'a> {
    #[verifier::type_invariant]
    spec fn inv(&self) -> bool {
        &&& self.inner.inv()
        &&& self.inner@.op == Operation::ListPendingOrders
    }

    pub fn new(client: &'a Client) -> (r: Self)
        ensures
            r@ == initial_model(*client, Operation::ListPendingOrders),
    {
        ListPendingOrders { inner: RequestBuilder::new(client, Operation::ListPendingOrders) }
    }

    /// Sets `account_id`, sent as a segment of the path.
    pub fn account_id<V: TryInto<String>>(self, value: V) -> (r: Self)
        ensures
            text_set(self@, 0, value, r@),
    {
        proof {
            use_type_invariant(&self);
        }
        ListPendingOrders { inner: self.inner.set_text(0, value) }
    }

    /// Checks the parameters and body in declaration order and yields the
    /// request, or the message of the first that is not valid.
    pub fn build(self) -> (r: Result<Request, String>)
        ensures
            finalized_as(r, self@.finalized()),
    {
        proof {
            use_type_invariant(&self);
        }
        self.inner.finalize()
    }
}

/// Builder for [`Client::get_order`]: a `GET` request to `/accounts/{accountID}/orders/{orderSpecifier}`.
pub struct GetOrder<'a> {
    inner: RequestBuilder<'a>,
}

impl<'a> View for GetOrder<'a> {
    type V = BuilderModel;

    closed spec fn view(&self) -> BuilderModel {
        self.inner@
    }
}

impl<'a> GetOrder<'a> {
    #[verifier::type_invariant]
    spec fn inv(&self) -> bool {
        &&& self.inner.inv()
        &&& self.inner@.op == Operation::GetOrder
    }

    pub fn new(client: &'a Client) -> (r: Self)
        ensures
            r@ == initial_model(*client, Operation::GetOrder),
    {
        GetOrder { inner: RequestBuilder::new(client, Operation::GetOrder) }
    }

    /// Sets `account_id`, sent as a segment of the path.
    pub fn account_id<V: TryInto<String>>(self, value: V) -> (r: Self)
        ensures
            text_set(self@, 0, value, r@),
    {
        proof {
            use_type_invariant(&self);
        }
        GetOrder { inner: self.inner.set_text(0, value) }
    }

    /// Sets `order_specifier`, sent as a segment of the path.
    pub fn order_specifier<V: TryInto<String>>(self, value: V) -> (r: Self)
        ensures
            text_set(self@, 1, value, r@),
    {
        proof {
            use_type_invariant(&self);
        }
        GetOrder { inner: self.inner.set_text(1, value) }
    }

    /// Checks the parameters and body in declaration order and yields the
    /// request, or the message of the first that is not valid.
    pub fn build(self) -> (r: Result<Request, String>)
        ensures
            finalized_as(r, self@.finalized()),
    {
        proof {
            use_type_invariant(&self);
        }
        self.inner.finalize()
    }
}

/// Builder for [`Client::replace_order`]: a `PUT` request to `/accounts/{accountID}/orders/{orderSpecifier}`.
pub struct ReplaceOrder<'a> {
    inner: RequestBuilder<'a>,
}

impl<'a> View for ReplaceOrder<'a> {
    type V = BuilderModel;

    closed spec fn view(&self) -> BuilderModel {
        self.inner@
    }
}

impl<'a> ReplaceOrder<'a> {
    #[verifier::type_invariant]
    spec fn inv(&self) -> bool {
        &&& self.inner.inv()
        &&& self.inner@.op == Operation::ReplaceOrder
    }

    pub fn new(client: &'a Client) -> (r: Self)
        ensures
            r@ == initial_model(*client, Operation::ReplaceOrder),
    {
        ReplaceOrder { inner: RequestBuilder::new(client, Operation::ReplaceOrder) }
    }

    /// Sets `account_id`, sent as a segment of the path.
    pub fn account_id<V: TryInto<String>>(self, value: V) -> (r: Self)
        ensures
            text_set(self@, 0, value, r@),
    {
        proof {
            use_type_invariant(&self);
        }
        ReplaceOrder { inner: self.inner.set_text(0, value) }
    }

    /// Sets `order_specifier`, sent as a segment of the path.
    pub fn order_specifier<V: TryInto<String>>(self, value: V) -> (r: Self)
        ensures
            text_set(self@, 1, value, r@),
    {
        proof {
            use_type_invariant(&self);
        }
        ReplaceOrder { inner: self.inner.set_text(1, value) }
    }

    /// Sets `client_request_id`, sent as the `ClientRequestID` header.
    pub fn client_request_id<V: TryInto<String>>(self, value: V) -> (r: Self)
        ensures
            text_set(self@, 2, value, r@),
    {
        proof {
            use_type_invariant(&self);
        }
        ReplaceOrder { inner: self.inner.set_text(2, value) }
    }

    /// Sets the JSON body.
    pub fn body<V: TryInto<String>>(self, value: V) -> (r: Self) where
        <V as TryInto<String>>::Error: std::fmt::Display,

        ensures
            body_set(self@, value, r@),
    {
        proof {
            use_type_invariant(&self);
        }
        ReplaceOrder { inner: self.inner.set_body(value) }
    }

    /// Rewrites the JSON body with `f`, unless it already failed conversion.
    pub fn body_map<F: FnOnce(String) -> String>(self, f: F) -> (r: Self)
        requires
            forall|s: String| f.requires((s,)),
        ensures
            body_mapped(self@, f, r@),
    {
        proof {
            use_type_invariant(&self);
        }
        ReplaceOrder { inner: self.inner.map_body(f) }
    }

    /// Checks the parameters and body in declaration order and yields the
    /// request, or the message of the first that is not valid.
    pub fn build(self) -> (r: Result<Request, String>)
        ensures
            finalized_as(r, self@.finalized()),
    {
        proof {
            use_type_invariant(&self);
        }
        self.inner.finalize()
    }
}

/// Builder for [`Client::cancel_order`]: a `PUT` request to `/accounts/{accountID}/orders/{orderSpecifier}/cancel`.
pub struct CancelOrder<'a> {
    inner: RequestBuilder<'a>,
}

impl<'a> View for CancelOrder<'a> {
    type V = BuilderModel;

    closed spec fn view(&self) -> BuilderModel {
        self.inner@
    }
}

impl<'a> CancelOrder<'a> {
    #[verifier::type_invariant]
    spec fn inv(&self) -> bool {
        &&& self.inner.inv()
        &&& self.inner@.op == Operation::CancelOrder
    }

    pub fn new(client: &'a Client) -> (r: Self)
        ensures
            r@ == initial_model(*client, Operation::CancelOrder),
    {
        CancelOrder { inner: RequestBuilder::new(client, Operation::CancelOrder) }
    }

    /// Sets `account_id`, sent as a segment of the path.
    pub fn account_id<V: TryInto<String>>(self, value: V) -> (r: Self)
        ensures
            text_set(self@, 0, value, r@),
    {
        proof {
            use_type_invariant(&self);
        }
        CancelOrder { inner: self.inner.set_text(0, value) }
    }

    /// Sets `order_specifier`, sent as a segment of the path.
    pub fn order_specifier<V: TryInto<String>>(self, value: V) -> (r: Self)
        ensures
            text_set(self@, 1, value, r@),
    {
        proof {
            use_type_invariant(&self);
        }
        CancelOrder { inner: self.inner.set_text(1, value) }
    }

    /// Sets `client_request_id`, sent as the `ClientRequestID` header.
    pub fn client_request_id<V: TryInto<String>>(self, value: V) -> (r: Self)
        ensures
            text_set(self@, 2, value, r@),
    {
        proof {
            use_type_invariant(&self);
        }
        CancelOrder { inner: self.inner.set_text(2, value) }
    }

    /// Checks the parameters and body in declaration order and yields the
    /// request, or the message of the first that is not valid.
    pub fn build(self) -> (r: Result<Request, String>)
        ensures
            finalized_as(r, self@.finalized()),
    {
        proof {
            use_type_invariant(&self);
        }
        self.inner.finalize()
    }
}

/// Builder for [`Client::set_order_client_extensions`]: a `PUT` request to `/accounts/{accountID}/orders/{orderSpecifier}/clientExtensions`.
pub struct SetOrderClientExtensions<'a> {
    inner: RequestBuilder<'a>,
}

impl<'a> View for SetOrderClientExtensions<'a> {
    type V = BuilderModel;

    closed spec fn view(&self) -> BuilderModel {
        self.inner@
    }
}

impl<'a> SetOrderClientExtensions<'a> {
    #[verifier::type_invariant]
    spec fn inv(&self) -> bool {
        &&& self.inner.inv()
        &&& self.inner@.op == Operation::SetOrderClientExtensions
    }

    pub fn new(client: &'a Client) -> (r: Self)
        ensures
            r@ == initial_model(*client, Operation::SetOrderClientExtensions),
    {
        SetOrderClientExtensions { inner: RequestBuilder::new(client, Operation::SetOrderClientExtensions) }
    }

    /// Sets `account_id`, sent as a segment of the path.
    pub fn account_id<V: TryInto<String>>(self, value: V) -> (r: Self)
        ensures
            text_set(self@, 0, value, r@),
    {
        proof {
            use_type_invariant(&self);
        }
        SetOrderClientExtensions { inner: self.inner.set_text(0, value) }
    }

    /// Sets `order_specifier`, sent as a segment of the path.
    pub fn order_specifier<V: TryInto<String>>(self, value: V) -> (r: Self)
        ensures
            text_set(self@, 1, value, r@),
    {
        proof {
            use_type_invariant(&self);
        }
        SetOrderClientExtensions { inner: self.inner.set_text(1, value) }
    }

    /// Sets the JSON body.
    pub fn body<V: TryInto<String>>(self, value: V) -> (r: Self) where
        <V as TryInto<String>>::Error: std::fmt::Display,

        ensures
            body_set(self@, value, r@),
    {
        proof {
            use_type_invariant(&self);
        }
        SetOrderClientExtensions { inner: self.inner.set_body(value) }
    }

    /// Rewrites the JSON body with `f`, unless it already failed conversion.
    pub fn body_map<F: FnOnce(String) -> String>(self, f: F) -> (r: Self)
        requires
            forall|s: String| f.requires((s,)),
        ensures
            body_mapped(self@, f, r@),
    {
        proof {
            use_type_invariant(&self);
        }
        SetOrderClientExtensions { inner: self.inner.map_body(f) }
    }

    /// Checks the parameters and body in declaration order and yields the
    /// request, or the message of the first that is not valid.
    pub fn build(self) -> (r: Result<Request, String>)
        ensures
            finalized_as(r, self@.finalized()),
    {
        proof {
            use_type_invariant(&self);
        }
        self.inner.finalize()
    }
}

impl Client {
    /// A builder for a `GET` request to `/instruments/{instrument}/candles`.
    pub fn get_instrument_candles<'a>(&'a self) -> (r: GetInstrumentCandles<'a>)
        ensures
            r@ == initial_model(*self, Operation::GetInstrumentCandles),
    {
        GetInstrumentCandles::new(self)
    }

    /// A builder for a `GET` request to `/instruments/{instrument}/orderBook`.
    pub fn get_instrument_order_book<'a>(&'a self) -> (r: GetInstrumentOrderBook<'a>)
        ensures
            r@ == initial_model(*self, Operation::GetInstrumentOrderBook),
    {
        GetInstrumentOrderBook::new(self)
    }

    /// A builder for a `GET` request to `/instruments/{instrument}/positionBook`.
    pub fn get_instrument_position_book<'a>(&'a self) -> (r: GetInstrumentPositionBook<'a>)
        ensures
            r@ == initial_model(*self, Operation::GetInstrumentPositionBook),
    {
        GetInstrumentPositionBook::new(self)
    }

    /// A builder for a `GET` request to `/accounts/{accountID}/positions`.
    pub fn list_positions<'a>(&'a self) -> (r: ListPositions<'a>)
        ensures
            r@ == initial_model(*self, Operation::ListPositions),
    {
        ListPositions::new(self)
    }

    /// A builder for a `GET` request to `/accounts/{accountID}/openPositions`.
    pub fn list_open_positions<'a>(&'a self) -> (r: ListOpenPositions<'a>)
        ensures
            r@ == initial_model(*self, Operation::ListOpenPositions),
    {
        ListOpenPositions::new(self)
    }

    /// A builder for a `GET` request to `/accounts/{accountID}/positions/{instrument}`.
    pub fn get_position<'a>(&'a self) -> (r: GetPosition<'a>)
        ensures
            r@ == initial_model(*self, Operation::GetPosition),
    {
        GetPosition::new(self)
    }

    /// A builder for a `PUT` request to `/accounts/{accountID}/positions/{instrument}/close`.
    pub fn close_position<'a>(&'a self) -> (r: ClosePosition<'a>)
        ensures
            r@ == initial_model(*self, Operation::ClosePosition),
    {
        ClosePosition::new(self)
    }

    /// A builder for a `GET` request to `/accounts/{accountID}/trades`.
    pub fn list_trades<'a>(&'a self) -> (r: ListTrades<'a>)
        ensures
            r@ == initial_model(*self, Operation::ListTrades),
    {
        ListTrades::new(self)
    }

    /// A builder for a `GET` request to `/accounts/{accountID}/openTrades`.
    pub fn list_open_trades<'a>(&'a self) -> (r: ListOpenTrades<'a>)
        ensures
            r@ == initial_model(*self, Operation::ListOpenTrades),
    {
        ListOpenTrades::new(self)
    }

    /// A builder for a `GET` request to `/accounts/{accountID}/trades/{tradeSpecifier}`.
    pub fn get_trade<'a>(&'a self) -> (r: GetTrade<'a>)
        ensures
            r@ == initial_model(*self, Operation::GetTrade),
    {
        GetTrade::new(self)
    }

    /// A builder for a `PUT` request to `/accounts/{accountID}/trades/{tradeSpecifier}/close`.
    pub fn close_trade<'a>(&'a self) -> (r: CloseTrade<'a>)
        ensures
            r@ == initial_model(*self, Operation::CloseTrade),
    {
        CloseTrade::new(self)
    }

    /// A builder for a `PUT` request to `/accounts/{accountID}/trades/{tradeSpecifier}/clientExtensions`.
    pub fn set_trade_client_extensions<'a>(&'a self) -> (r: SetTradeClientExtensions<'a>)
        ensures
            r@ == initial_model(*self, Operation::SetTradeClientExtensions),
    {
        SetTradeClientExtensions::new(self)
    }

    /// A builder for a `PUT` request to `/accounts/{accountID}/trades/{tradeSpecifier}/orders`.
    pub fn set_trade_dependent_orders<'a>(&'a self) -> (r: SetTradeDependentOrders<'a>)
        ensures
            r@ == initial_model(*self, Operation::SetTradeDependentOrders),
    {
        SetTradeDependentOrders::new(self)
    }

    /// A builder for a `GET` request to `/accounts`.
    pub fn list_accounts<'a>(&'a self) -> (r: ListAccounts<'a>)
        ensures
            r@ == initial_model(*self, Operation::ListAccounts),
    {
        ListAccounts::new(self)
    }

    /// A builder for a `GET` request to `/accounts/{accountID}`.
    pub fn get_account<'a>(&'a self) -> (r: GetAccount<'a>)
        ensures
            r@ == initial_model(*self, Operation::GetAccount),
    {
        GetAccount::new(self)
    }

    /// A builder for a `GET` request to `/accounts/{accountID}/summary`.
    pub fn get_account_summary<'a>(&'a self) -> (r: GetAccountSummary<'a>)
        ensures
            r@ == initial_model(*self, Operation::GetAccountSummary),
    {
        GetAccountSummary::new(self)
    }

    /// A builder for a `GET` request to `/accounts/{accountID}/instruments`.
    pub fn get_account_instruments<'a>(&'a self) -> (r: GetAccountInstruments<'a>)
        ensures
            r@ == initial_model(*self, Operation::GetAccountInstruments),
    {
        GetAccountInstruments::new(self)
    }

    /// A builder for a `PATCH` request to `/accounts/{accountID}/configuration`.
    pub fn configure_account<'a>(&'a self) -> (r: ConfigureAccount<'a>)
        ensures
            r@ == initial_model(*self, Operation::ConfigureAccount),
    {
        ConfigureAccount::new(self)
    }

    /// A builder for a `GET` request to `/accounts/{accountID}/changes`.
    pub fn get_account_changes<'a>(&'a self) -> (r: GetAccountChanges<'a>)
        ensures
            r@ == initial_model(*self, Operation::GetAccountChanges),
    {
        GetAccountChanges::new(self)
    }

    /// A builder for a `GET` request to `/accounts/{accountID}/transactions`.
    pub fn list_transactions<'a>(&'a self) -> (r: ListTransactions<'a>)
        ensures
            r@ == initial_model(*self, Operation::ListTransactions),
    {
        ListTransactions::new(self)
    }

    /// A builder for a `GET` request to `/accounts/{accountID}/transactions/{transactionID}`.
    pub fn get_transaction<'a>(&'a self) -> (r: GetTransaction<'a>)
        ensures
            r@ == initial_model(*self, Operation::GetTransaction),
    {
        GetTransaction::new(self)
    }

    /// A builder for a `GET` request to `/accounts/{accountID}/transactions/idrange`.
    pub fn get_transaction_range<'a>(&'a self) -> (r: GetTransactionRange<'a>)
        ensures
            r@ == initial_model(*self, Operation::GetTransactionRange),
    {
        GetTransactionRange::new(self)
    }

    /// A builder for a `GET` request to `/accounts/{accountID}/transactions/sinceid`.
    pub fn get_transactions_since_id<'a>(&'a self) -> (r: GetTransactionsSinceId<'a>)
        ensures
            r@ == initial_model(*self, Operation::GetTransactionsSinceId),
    {
        GetTransactionsSinceId::new(self)
    }

    /// A builder for a `GET` request to `/accounts/{accountID}/transactions/stream`.
    pub fn stream_transactions<'a>(&'a self) -> (r: StreamTransactions<'a>)
        ensures
            r@ == initial_model(*self, Operation::StreamTransactions),
    {
        StreamTransactions::new(self)
    }

    /// A builder for a `GET` request to `/accounts/{accountID}/candles/latest`.
    pub fn get_latest_candles<'a>(&'a self) -> (r: GetLatestCandles<'a>)
        ensures
            r@ == initial_model(*self, Operation::GetLatestCandles),
    {
        GetLatestCandles::new(self)
    }

    /// A builder for a `GET` request to `/accounts/{accountID}/pricing`.
    pub fn get_prices<'a>(&'a self) -> (r: GetPrices<'a>)
        ensures
            r@ == initial_model(*self, Operation::GetPrices),
    {
        GetPrices::new(self)
    }

    /// A builder for a `GET` request to `/accounts/{accountID}/pricing/stream`.
    pub fn stream_pricing<'a>(&'a self) -> (r: StreamPricing<'a>)
        ensures
            r@ == initial_model(*self, Operation::StreamPricing),
    {
        StreamPricing::new(self)
    }

    /// A builder for a `GET` request to `/accounts/{accountID}/instruments/{instrument}/candles`.
    pub fn get_account_instrument_candles<'a>(&'a self) -> (r: GetAccountInstrumentCandles<'a>)
        ensures
            r@ == initial_model(*self, Operation::GetAccountInstrumentCandles),
    {
        GetAccountInstrumentCandles::new(self)
    }

    /// A builder for a `GET` request to `/accounts/{accountID}/orders`.
    pub fn list_orders<'a>(&'a self) -> (r: ListOrders<'a>)
        ensures
            r@ == initial_model(*self, Operation::ListOrders),
    {
        ListOrders::new(self)
    }

    /// A builder for a `POST` request to `/accounts/{accountID}/orders`.
    pub fn create_order<'a>(&'a self) -> (r: CreateOrder<'a>)
        ensures
            r@ == initial_model(*self, Operation::CreateOrder),
    {
        CreateOrder::new(self)
    }

    /// A builder for a `GET` request to `/accounts/{accountID}/pendingOrders`.
    pub fn list_pending_orders<'a>(&'a self) -> (r: ListPendingOrders<'a>)
        ensures
            r@ == initial_model(*self, Operation::ListPendingOrders),
    {
        ListPendingOrders::new(self)
    }

    /// A builder for a `GET` request to `/accounts/{accountID}/orders/{orderSpecifier}`.
    pub fn get_order<'a>(&'a self) -> (r: GetOrder<'a>)
        ensures
            r@ == initial_model(*self, Operation::GetOrder),
    {
        GetOrder::new(self)
    }

    /// A builder for a `PUT` request to `/accounts/{accountID}/orders/{orderSpecifier}`.
    pub fn replace_order<'a>(&'a self) -> (r: ReplaceOrder<'a>)
        ensures
            r@ == initial_model(*self, Operation::ReplaceOrder),
    {
        ReplaceOrder::new(self)
    }

    /// A builder for a `PUT` request to `/accounts/{accountID}/orders/{orderSpecifier}/cancel`.
    pub fn cancel_order<'a>(&'a self) -> (r: CancelOrder<'a>)
        ensures
            r@ == initial_model(*self, Operation::CancelOrder),
    {
        CancelOrder::new(self)
    }

    /// A builder for a `PUT` request to `/accounts/{accountID}/orders/{orderSpecifier}/clientExtensions`.
    pub fn set_order_client_extensions<'a>(&'a self) -> (r: SetOrderClientExtensions<'a>)
        ensures
            r@ == initial_model(*self, Operation::SetOrderClientExtensions),
    {
        SetOrderClientExtensions::new(self)
    }
}

} // verus!
