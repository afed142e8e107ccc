//! Decoding of the exchange's ticker WebSocket frames, and construction
//! of the subscription URL.
//!
//! The exchange uses two message envelopes. A combined-stream frame wraps
//! the payload in an object with a `stream` channel name and a `data`
//! member, and is forwarded only when the channel name denotes a ticker
//! stream. A single-stream frame carries the payload at top level,
//! identified by its event-type field `e` equal to `24hrTicker`. The
//! dispatch between the two, the field defaults and the validation of the
//! numeric tokens are verified; reading the raw JSON goes through the
//! trusted accessors of `crate::json`.

use vstd::prelude::*;
use crate::json::{json_parse, json_get, json_as_string, json_as_u64};
use crate::market_data::types::{MarketDataEvent, Ticker};
use crate::strutil::{spec_is_decimal, is_decimal_str, spec_contains, str_contains, str_eq};
use vstd::string::StringExecFns;

verus! {

/// The fields a ticker payload may carry; each may be absent on the wire.
#[derive(Debug, Clone)]
pub struct TickerFields {
    pub symbol: Option<String>,
    pub price: Option<String>,
    pub volume: Option<String>,
    pub event_time: Option<u64>,
}

/// One decoded frame: the combined-stream wrapper's channel name and
/// payload, and the top-level fields a single-stream frame carries.
#[derive(Debug, Clone)]
pub struct Frame {
    pub stream: Option<String>,
    pub event_type: Option<String>,
    pub top: TickerFields,
    pub data: Option<TickerFields>,
}

/// A mathematical ticker: the field values a payload denotes.
pub struct TickerModel {
    pub symbol: Seq<char>,
    pub price: Seq<char>,
    pub volume: Seq<char>,
    pub timestamp: u64,
}

/// What a frame means to the stream: a ticker, a decode failure reported
/// in-band, or nothing (a frame of no interest).
pub enum FrameEvent {
    Ticker(TickerModel),
    Error(Seq<char>),
    Ignored,
}

/// The payload's symbol; an absent symbol defaults to the empty string.
pub open spec fn spec_symbol_field(f: TickerFields) -> Seq<char> {
    match f.symbol {
        Some(s) => s@,
        None => Seq::empty(),
    }
}

/// The payload's last price token; absent defaults to `"0"`.
pub open spec fn spec_price_field(f: TickerFields) -> Seq<char> {
    match f.price {
        Some(p) => p@,
        None => "0"@,
    }
}

/// The payload's volume token; absent defaults to `"0"`.
pub open spec fn spec_volume_field(f: TickerFields) -> Seq<char> {
    match f.volume {
        Some(v) => v@,
        None => "0"@,
    }
}

/// The payload's event time in milliseconds; absent defaults to zero.
pub open spec fn spec_time_field(f: TickerFields) -> u64 {
    match f.event_time {
        Some(t) => t,
        None => 0,
    }
}

/// Whether the payload's numeric tokens (after defaulting) are valid
/// decimals: exactly then a ticker is emitted.
pub open spec fn spec_payload_ok(f: TickerFields) -> bool {
    spec_is_decimal(spec_price_field(f)) && spec_is_decimal(spec_volume_field(f))
}

/// The event one ticker payload denotes: the ticker with defaulted
/// fields, or an in-band decode failure if a numeric token is malformed.
pub open spec fn spec_event_of_payload(f: TickerFields) -> FrameEvent {
    if spec_payload_ok(f) {
        FrameEvent::Ticker(
            TickerModel {
                symbol: spec_symbol_field(f),
                price: spec_price_field(f),
                volume: spec_volume_field(f),
                timestamp: spec_time_field(f),
            },
        )
    } else {
        FrameEvent::Error("invalid ticker payload"@)
    }
}

/// A channel name denotes a ticker stream when it contains `@ticker`.
pub open spec fn spec_is_ticker_stream(name: Seq<char>) -> bool {
    spec_contains(name, "@ticker"@)
}

/// The payload of a combined frame with no `data` member: every field
/// absent, so every default applies.
pub open spec fn spec_empty_fields() -> TickerFields {
    TickerFields { symbol: None, price: None, volume: None, event_time: None }
}

/// The event a whole frame denotes. A combined-stream frame is forwarded
/// only for ticker channels; a single-stream frame only for the
/// `24hrTicker` event type; everything else is ignored.
pub open spec fn spec_event_of_frame(fr: Frame) -> FrameEvent {
    match fr.stream {
        Some(name) => if spec_is_ticker_stream(name@) {
            match fr.data {
                Some(payload) => spec_event_of_payload(payload),
                None => spec_event_of_payload(spec_empty_fields()),
            }
        } else {
            FrameEvent::Ignored
        },
        None => match fr.event_type {
            Some(e) => if e@ == "24hrTicker"@ {
                spec_event_of_payload(fr.top)
            } else {
                FrameEvent::Ignored
            },
            None => FrameEvent::Ignored,
        },
    }
}

/// How an executable result corresponds to the frame's meaning.
pub open spec fn spec_event_matches(r: Option<MarketDataEvent>, m: FrameEvent) -> bool {
    match m {
        FrameEvent::Ticker(tm) => r matches Some(MarketDataEvent::Ticker(t)) && t.symbol@
            == tm.symbol && t.price@ == tm.price && t.volume@ == tm.volume && t.timestamp
            == tm.timestamp,
        FrameEvent::Error(msg) => r matches Some(MarketDataEvent::Error(e)) && e@ == msg,
        FrameEvent::Ignored => r is None,
    }
}

/// Law: the two envelopes are equivalent. A combined-stream frame on a
/// ticker channel and a single-stream `24hrTicker` frame carrying the
/// same payload denote the same event.
pub proof fn lemma_envelope_equivalence(combined: Frame, single: Frame, payload: TickerFields)
    requires
        combined.stream matches Some(name) && spec_is_ticker_stream(name@),
        combined.data == Some(payload),
        single.stream is None,
        single.event_type matches Some(e) && e@ == "24hrTicker"@,
        single.top == payload,
    ensures
        spec_event_of_frame(combined) == spec_event_of_frame(single),
{
}

/// Law: a payload whose price field is missing decodes with the default
/// price token `"0"` instead of failing the whole frame.
pub proof fn lemma_missing_price_defaults(f: TickerFields)
    requires
        f.price is None,
        spec_is_decimal(spec_volume_field(f)),
    ensures
        spec_event_of_payload(f) matches FrameEvent::Ticker(t) && t.price == "0"@,
{
    reveal_strlit("0");
    assert(spec_is_decimal("0"@)) by {
        assert("0"@[0] == '0');
        assert(crate::strutil::count_char(Seq::<char>::empty(), '.') == 0);
        assert("0"@.drop_last() =~= Seq::<char>::empty());
        assert(crate::strutil::count_char("0"@, '.') == 0);
    }
}

/// The value of an optional field, or its default.
fn field_or(field: &Option<String>, default: &str) -> (r: String)
    ensures
        match field {
            Some(s) => r@ == s@,
            None => r@ == default@,
        },
{
    match field {
        Some(s) => s.clone(),
        None => default.to_owned(),
    }
}

/// Decode one ticker payload: defaults applied, numeric tokens validated,
/// a malformed token degraded to an in-band `Error` event.
pub fn parse_ticker(f: &TickerFields) -> (r: MarketDataEvent)
    ensures
        spec_event_matches(Some(r), spec_event_of_payload(*f)),
{
    let symbol = field_or(&f.symbol, "");
    let price = field_or(&f.price, "0");
    let volume = field_or(&f.volume, "0");
    let timestamp = match f.event_time {
        Some(t) => t,
        None => 0,
    };
    proof {
        reveal_strlit("");
        assert(""@ =~= Seq::<char>::empty());
    }
    if is_decimal_str(price.as_str()) && is_decimal_str(volume.as_str()) {
        MarketDataEvent::Ticker(Ticker { symbol, price, volume, timestamp })
    } else {
        MarketDataEvent::Error("invalid ticker payload".to_owned())
    }
}

/// Decode a whole frame per the envelope dispatch.
pub fn event_of_frame(fr: &Frame) -> (r: Option<MarketDataEvent>)
    ensures
        spec_event_matches(r, spec_event_of_frame(*fr)),
{
    match &fr.stream {
        Some(name) => {
            if str_contains(name.as_str(), "@ticker") {
                match &fr.data {
                    Some(payload) => Some(parse_ticker(payload)),
                    None => {
                        let empty = TickerFields {
                            symbol: None,
                            price: None,
                            volume: None,
                            event_time: None,
                        };
                        Some(parse_ticker(&empty))
                    },
                }
            } else {
                None
            }
        },
        None => {
            match &fr.event_type {
                Some(e) => {
                    if str_eq(e.as_str(), "24hrTicker") {
                        Some(parse_ticker(&fr.top))
                    } else {
                        None
                    }
                },
                None => None,
            }
        },
    }
}

/// The fields of one payload object, read through the trusted accessors.
fn ticker_fields_of(v: &serde_json::Value) -> TickerFields {
    let symbol = match json_get(v, "s") {
        Some(x) => json_as_string(x),
        None => None,
    };
    let price = match json_get(v, "c") {
        Some(x) => json_as_string(x),
        None => None,
    };
    let volume = match json_get(v, "v") {
        Some(x) => json_as_string(x),
        None => None,
    };
    let event_time = match json_get(v, "E") {
        Some(x) => json_as_u64(x),
        None => None,
    };
    TickerFields { symbol, price, volume, event_time }
}

/// Parse one text frame into the frame model; `None` when the text is not
/// well-formed JSON. What the fields hold is outside data: the meaning of
/// the frame is pinned down by `event_of_frame` on the result.
pub fn decode_frame(text: &str) -> (r: Option<Frame>) {
    let v = match json_parse(text) {
        Some(v) => v,
        None => {
            return None;
        },
    };
    let stream = match json_get(&v, "stream") {
        Some(x) => json_as_string(x),
        None => None,
    };
    let event_type = match json_get(&v, "e") {
        Some(x) => json_as_string(x),
        None => None,
    };
    let data = match json_get(&v, "data") {
        Some(x) => Some(ticker_fields_of(x)),
        None => None,
    };
    let top = ticker_fields_of(&v);
    Some(Frame { stream, event_type, top, data })
}

/// Decode one text frame to the event it carries: `None` for frames of no
/// interest, an in-band `Error` event for text that is not JSON or for a
/// ticker payload with a malformed numeric token. Whatever arrived, an
/// emitted ticker always carries validated decimal price and volume
/// tokens.
pub fn handle_message(text: &str) -> (r: Option<MarketDataEvent>)
    ensures
        match r {
            Some(MarketDataEvent::Ticker(t)) => spec_is_decimal(t.price@) && spec_is_decimal(
                t.volume@,
            ),
            _ => true,
        },
{
    match decode_frame(text) {
        Some(frame) => event_of_frame(&frame),
        None => Some(MarketDataEvent::Error("invalid frame".to_owned())),
    }
}

/// What `str::to_lowercase` returns: a function of the characters alone.
pub uninterp spec fn lower_of(s: Seq<char>) -> Seq<char>;

/// Relies on `str::to_lowercase`: the Unicode lowercase mapping of the
/// text, depending on the input characters alone.
#[verifier::external_body]
fn to_lowercase(s: &str) -> (r: String)
    ensures
        r@ == lower_of(s@),
{
    s.to_lowercase()
}

/// One symbol's ticker channel name: the lowercased symbol + `@ticker`.
pub open spec fn spec_channel(sym: Seq<char>) -> Seq<char> {
    lower_of(sym) + "@ticker"@
}

/// Channel names joined with `/`, in the order given.
pub open spec fn spec_channels_path(symbols: Seq<Seq<char>>) -> Seq<char>
    decreases symbols.len(),
{
    if symbols.len() == 0 {
        Seq::empty()
    } else if symbols.len() == 1 {
        spec_channel(symbols[0])
    } else {
        spec_channels_path(symbols.drop_last()) + "/"@ + spec_channel(symbols.last())
    }
}

/// The subscription URL: the single-stream endpoint for exactly one
/// symbol, the combined-stream endpoint otherwise.
pub open spec fn spec_stream_url(symbols: Seq<Seq<char>>) -> Seq<char> {
    if symbols.len() == 1 {
        "wss://stream.testnet.binance.vision/ws/"@ + spec_channel(symbols[0])
    } else {
        "wss://stream.testnet.binance.vision/stream?streams="@ + spec_channels_path(symbols)
    }
}

/// The views of a symbol list.
pub open spec fn spec_symbols_view(symbols: Seq<String>) -> Seq<Seq<char>> {
    symbols.map_values(|s: String| s@)
}

/// Build the WebSocket subscription URL for a set of symbols.
pub fn build_stream_url(symbols: &Vec<String>) -> (r: String)
    ensures
        r@ == spec_stream_url(spec_symbols_view(symbols@)),
{
    let ghost syms = spec_symbols_view(symbols@);
    if symbols.len() == 1 {
        let mut url = "wss://stream.testnet.binance.vision/ws/".to_owned();
        let low = to_lowercase(symbols[0].as_str());
        url.append(low.as_str());
        url.append("@ticker");
        url
    } else {
        let mut url = "wss://stream.testnet.binance.vision/stream?streams=".to_owned();
        let mut k: usize = 0;
        let mut path = String::new();
        proof {
            assert(syms.take(0) =~= Seq::<Seq<char>>::empty());
        }
        while k < symbols.len()
            invariant
                0 <= k <= symbols@.len(),
                syms == spec_symbols_view(symbols@),
                path@ == spec_channels_path(syms.take(k as int)),
            decreases symbols@.len() - k,
        {
            if k > 0 {
                path.append("/");
            }
            let low = to_lowercase(symbols[k].as_str());
            path.append(low.as_str());
            path.append("@ticker");
            proof {
                let t1 = syms.take(k as int + 1);
                assert(t1.drop_last() =~= syms.take(k as int));
                assert(t1.last() == symbols@[k as int]@);
                if k == 0 {
                    assert(spec_channels_path(t1) == spec_channel(t1[0]));
                }
            }
            k = k + 1;
        }
        proof {
            assert(syms.take(symbols@.len() as int) =~= syms);
        }
        url.append(path.as_str());
        url
    }
}

} // verus!
