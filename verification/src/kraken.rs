//! The market-ticker service: its messages, its domain records, and the
//! mapping between them.

use crate::fetch::{first_element, unary_outcome, FetchError, StreamReply, UnaryReply};
use crate::instant::{display_text, parsed_instant, write_display, Timestamp};
use crate::number::{count_to_signed, wrapped_i32, Real32};
use crate::{minute_text, unix_to_str};
use vstd::prelude::*;

verus! {

/// Interval, in days, of the ticker that covers the week.
pub const WEEK_INTERVAL: i32 = 7;

/// Interval, in days, of the tickers that are streamed day by day.
pub const DAY_INTERVAL: i32 = 1;

/// The `unix_time` of an OHLC message that was made without a bar.
pub const FRESH_UNIX_TIME: i32 = 42;

/// The request of both ticker calls: the interval to report on.
#[derive(Clone, Copy, Debug, PartialEq, Eq, Structural)]
pub struct KrakenRequest {
    pub interval: i32,
}

/// A ticker as the service sends it. `created_at` is timestamp text.
#[derive(Clone, Debug, PartialEq, Eq)]
pub struct KrakenTickerMsg {
    pub created_at: String,
    pub last_price: Real32,
    pub last_volume: Real32,
    pub volume_today: Real32,
    pub volume_24_hours: Real32,
    pub trades_today: i32,
    pub trades_24_hours: i32,
    pub ask_price: Real32,
    pub ask_whole_lot_volume: i32,
    pub ask_lot_volume: Real32,
    pub bid_price: Real32,
    pub bid_whole_lot_volume: i32,
    pub bid_lot_volume: Real32,
    pub id: i32,
}

/// A ticker as callers see it. `created_at` is a parsed instant.
#[derive(Clone, Debug, PartialEq, Eq)]
pub struct KrakenTickerDto {
    pub id: i32,
    pub last_price: Real32,
    pub last_volume: Real32,
    pub volume_today: Real32,
    pub volume_24_hours: Real32,
    pub trades_today: i32,
    pub trades_24_hours: i32,
    pub ask_price: Real32,
    pub ask_whole_lot_volume: i32,
    pub ask_lot_volume: Real32,
    pub bid_price: Real32,
    pub bid_whole_lot_volume: i32,
    pub bid_lot_volume: Real32,
    pub created_at: Option<Timestamp>,
}

/// One OHLC bar as the exchange reports it: prices and volume as decimal
/// text, so that no precision is lost on the way.
#[derive(Clone, Debug, PartialEq, Eq)]
pub struct OhlcRow {
    pub unix_time: i32,
    pub open: String,
    pub high: String,
    pub low: String,
    pub close: String,
    pub vwap: String,
    pub volume: String,
    pub count: u32,
}

/// What the six numeric texts of an [`OhlcRow`] read as: for each, the
/// single-precision number, or `None` where the text is no number.
#[derive(Clone, Copy, Debug, PartialEq, Eq, Structural)]
pub struct OhlcReadings {
    pub open: Option<Real32>,
    pub high: Option<Real32>,
    pub low: Option<Real32>,
    pub close: Option<Real32>,
    pub vwap: Option<Real32>,
    pub volume: Option<Real32>,
}

/// One OHLC bar as the service sends it.
#[derive(Clone, Debug, PartialEq, Eq)]
pub struct KrakenOhlcMsg {
    pub ts: String,
    pub unix_time: i32,
    pub open: Real32,
    pub high: Real32,
    pub low: Real32,
    pub close: Real32,
    pub vwap: Real32,
    pub volume: Real32,
    pub count: i32,
}

/// The mathematical content of a [`KrakenTickerMsg`].
pub struct KrakenTickerMsgView {
    pub created_at: Seq<char>,
    pub last_price: Real32,
    pub last_volume: Real32,
    pub volume_today: Real32,
    pub volume_24_hours: Real32,
    pub trades_today: int,
    pub trades_24_hours: int,
    pub ask_price: Real32,
    pub ask_whole_lot_volume: int,
    pub ask_lot_volume: Real32,
    pub bid_price: Real32,
    pub bid_whole_lot_volume: int,
    pub bid_lot_volume: Real32,
    pub id: int,
}

/// The mathematical content of a [`KrakenTickerDto`].
pub struct KrakenTickerDtoView {
    pub id: int,
    pub last_price: Real32,
    pub last_volume: Real32,
    pub volume_today: Real32,
    pub volume_24_hours: Real32,
    pub trades_today: int,
    pub trades_24_hours: int,
    pub ask_price: Real32,
    pub ask_whole_lot_volume: int,
    pub ask_lot_volume: Real32,
    pub bid_price: Real32,
    pub bid_whole_lot_volume: int,
    pub bid_lot_volume: Real32,
    pub created_at: Option<Timestamp>,
}

/// The mathematical content of an [`OhlcRow`].
pub struct OhlcRowView {
    pub unix_time: int,
    pub open: Seq<char>,
    pub high: Seq<char>,
    pub low: Seq<char>,
    pub close: Seq<char>,
    pub vwap: Seq<char>,
    pub volume: Seq<char>,
    pub count: int,
}

/// The mathematical content of a [`KrakenOhlcMsg`].
pub struct KrakenOhlcMsgView {
    pub ts: Seq<char>,
    pub unix_time: int,
    pub open: Real32,
    pub high: Real32,
    pub low: Real32,
    pub close: Real32,
    pub vwap: Real32,
    pub volume: Real32,
    pub count: int,
}

impl View for KrakenTickerMsg {
    type V = KrakenTickerMsgView;

    open spec fn view(&self) -> KrakenTickerMsgView {
        KrakenTickerMsgView {
            created_at: self.created_at@,
            last_price: self.last_price,
            last_volume: self.last_volume,
            volume_today: self.volume_today,
            volume_24_hours: self.volume_24_hours,
            trades_today: self.trades_today as int,
            trades_24_hours: self.trades_24_hours as int,
            ask_price: self.ask_price,
            ask_whole_lot_volume: self.ask_whole_lot_volume as int,
            ask_lot_volume: self.ask_lot_volume,
            bid_price: self.bid_price,
            bid_whole_lot_volume: self.bid_whole_lot_volume as int,
            bid_lot_volume: self.bid_lot_volume,
            id: self.id as int,
        }
    }
}

impl View for KrakenTickerDto {
    type V = KrakenTickerDtoView;

    open spec fn view(&self) -> KrakenTickerDtoView {
        KrakenTickerDtoView {
            id: self.id as int,
            last_price: self.last_price,
            last_volume: self.last_volume,
            volume_today: self.volume_today,
            volume_24_hours: self.volume_24_hours,
            trades_today: self.trades_today as int,
            trades_24_hours: self.trades_24_hours as int,
            ask_price: self.ask_price,
            ask_whole_lot_volume: self.ask_whole_lot_volume as int,
            ask_lot_volume: self.ask_lot_volume,
            bid_price: self.bid_price,
            bid_whole_lot_volume: self.bid_whole_lot_volume as int,
            bid_lot_volume: self.bid_lot_volume,
            created_at: self.created_at,
        }
    }
}

impl View for OhlcRow {
    type V = OhlcRowView;

    open spec fn view(&self) -> OhlcRowView {
        OhlcRowView {
            unix_time: self.unix_time as int,
            open: self.open@,
            high: self.high@,
            low: self.low@,
            close: self.close@,
            vwap: self.vwap@,
            volume: self.volume@,
            count: self.count as int,
        }
    }
}

impl View for KrakenOhlcMsg {
    type V = KrakenOhlcMsgView;

    open spec fn view(&self) -> KrakenOhlcMsgView {
        KrakenOhlcMsgView {
            ts: self.ts@,
            unix_time: self.unix_time as int,
            open: self.open,
            high: self.high,
            low: self.low,
            close: self.close,
            vwap: self.vwap,
            volume: self.volume,
            count: self.count as int,
        }
    }
}

impl KrakenTickerDtoView {
    /// The record that stands for "no data".
    pub open spec fn empty() -> KrakenTickerDtoView {
        KrakenTickerDtoView {
            id: 0,
            last_price: Real32::spec_zero(),
            last_volume: Real32::spec_zero(),
            volume_today: Real32::spec_zero(),
            volume_24_hours: Real32::spec_zero(),
            trades_today: 0,
            trades_24_hours: 0,
            ask_price: Real32::spec_zero(),
            ask_whole_lot_volume: 0,
            ask_lot_volume: Real32::spec_zero(),
            bid_price: Real32::spec_zero(),
            bid_whole_lot_volume: 0,
            bid_lot_volume: Real32::spec_zero(),
            created_at: None,
        }
    }

    /// The record that a wire message maps to. Every field is copied but
    /// the creation time, which is what the message's timestamp text reads
    /// as, or the epoch where that text is malformed.
    pub open spec fn from_msg(msg: KrakenTickerMsgView) -> KrakenTickerDtoView {
        KrakenTickerDtoView {
            id: msg.id,
            last_price: msg.last_price,
            last_volume: msg.last_volume,
            volume_today: msg.volume_today,
            volume_24_hours: msg.volume_24_hours,
            trades_today: msg.trades_today,
            trades_24_hours: msg.trades_24_hours,
            ask_price: msg.ask_price,
            ask_whole_lot_volume: msg.ask_whole_lot_volume,
            ask_lot_volume: msg.ask_lot_volume,
            bid_price: msg.bid_price,
            bid_whole_lot_volume: msg.bid_whole_lot_volume,
            bid_lot_volume: msg.bid_lot_volume,
            created_at: Some(Timestamp::spec_or_epoch(parsed_instant(msg.created_at))),
        }
    }

    /// Whether the record can be written as a wire message: its creation
    /// time, if it has one, is one that text can be written for.
    pub open spec fn writable(self) -> bool {
        self.created_at matches Some(at) ==> at.in_range()
    }

    /// The record that a fetch outcome stands for.
    pub open spec fn from_outcome(
        outcome: Result<KrakenTickerMsgView, FetchError>,
    ) -> KrakenTickerDtoView {
        match outcome {
            Ok(msg) => Self::from_msg(msg),
            Err(_) => Self::empty(),
        }
    }
}

impl KrakenTickerMsgView {
    /// The wire message that a record maps to. Every field is copied but
    /// the creation time, which is written as display text; a record
    /// without one is written with the epoch.
    pub open spec fn from_dto(dto: KrakenTickerDtoView) -> KrakenTickerMsgView
        recommends
            dto.writable(),
    {
        KrakenTickerMsgView {
            created_at: display_text(Timestamp::spec_or_epoch(dto.created_at)),
            last_price: dto.last_price,
            last_volume: dto.last_volume,
            volume_today: dto.volume_today,
            volume_24_hours: dto.volume_24_hours,
            trades_today: dto.trades_today,
            trades_24_hours: dto.trades_24_hours,
            ask_price: dto.ask_price,
            ask_whole_lot_volume: dto.ask_whole_lot_volume,
            ask_lot_volume: dto.ask_lot_volume,
            bid_price: dto.bid_price,
            bid_whole_lot_volume: dto.bid_whole_lot_volume,
            bid_lot_volume: dto.bid_lot_volume,
            id: dto.id,
        }
    }
}

impl KrakenOhlcMsgView {
    /// The message made without a bar at the instant `now`: that instant as
    /// its time text, a fixed `unix_time`, and every number zero.
    pub open spec fn fresh(now: Timestamp) -> KrakenOhlcMsgView {
        KrakenOhlcMsgView {
            ts: display_text(now),
            unix_time: FRESH_UNIX_TIME as int,
            open: Real32::spec_zero(),
            high: Real32::spec_zero(),
            low: Real32::spec_zero(),
            close: Real32::spec_zero(),
            vwap: Real32::spec_zero(),
            volume: Real32::spec_zero(),
            count: 0,
        }
    }

    /// The message that a bar maps to, given what its numeric texts read
    /// as. The bar's time is kept and also written out to the minute; each
    /// price and the volume is its reading, or zero where the text was no
    /// number; the count is reinterpreted as signed.
    pub open spec fn from_ohlc(row: OhlcRowView, readings: OhlcReadings) -> KrakenOhlcMsgView {
        KrakenOhlcMsgView {
            ts: minute_text(row.unix_time),
            unix_time: row.unix_time,
            open: Real32::spec_or_zero(readings.open),
            high: Real32::spec_or_zero(readings.high),
            low: Real32::spec_or_zero(readings.low),
            close: Real32::spec_or_zero(readings.close),
            vwap: Real32::spec_or_zero(readings.vwap),
            volume: Real32::spec_or_zero(readings.volume),
            count: wrapped_i32(row.count),
        }
    }
}

impl Default for KrakenTickerDto {
    fn default() -> (dto: KrakenTickerDto)
        ensures
            dto@ == KrakenTickerDtoView::empty(),
    {
        KrakenTickerDto {
            id: 0,
            last_price: Real32::zero(),
            last_volume: Real32::zero(),
            volume_today: Real32::zero(),
            volume_24_hours: Real32::zero(),
            trades_today: 0,
            trades_24_hours: 0,
            ask_price: Real32::zero(),
            ask_whole_lot_volume: 0,
            ask_lot_volume: Real32::zero(),
            bid_price: Real32::zero(),
            bid_whole_lot_volume: 0,
            bid_lot_volume: Real32::zero(),
            created_at: None,
        }
    }
}

impl KrakenTickerDto {
    /// Maps a wire message to the domain record. Never fails: malformed
    /// timestamp text gives the epoch as creation time.
    pub fn build_from_msg(msg: KrakenTickerMsg) -> (dto: KrakenTickerDto)
        ensures
            dto@ == KrakenTickerDtoView::from_msg(msg@),
            parsed_instant(msg.created_at@) is None ==> dto.created_at == Some(
                Timestamp::spec_epoch(),
            ),
            dto@.writable(),
    {
        let created_at = Timestamp::parse_or_epoch(msg.created_at.as_str());
        KrakenTickerDto {
            id: msg.id,
            last_price: msg.last_price,
            last_volume: msg.last_volume,
            volume_today: msg.volume_today,
            volume_24_hours: msg.volume_24_hours,
            trades_today: msg.trades_today,
            trades_24_hours: msg.trades_24_hours,
            ask_price: msg.ask_price,
            ask_whole_lot_volume: msg.ask_whole_lot_volume,
            ask_lot_volume: msg.ask_lot_volume,
            bid_price: msg.bid_price,
            bid_whole_lot_volume: msg.bid_whole_lot_volume,
            bid_lot_volume: msg.bid_lot_volume,
            created_at: Some(created_at),
        }
    }

    /// Decides [`KrakenTickerDtoView::writable`].
    pub fn is_writable(&self) -> (yes: bool)
        ensures
            yes == self@.writable(),
    {
        match &self.created_at {
            Some(at) => at.is_in_range(),
            None => true,
        }
    }

    /// The record for a fetch outcome: the mapped message, or the default
    /// record where the fetch brought none.
    pub fn from_outcome(outcome: Result<KrakenTickerMsg, FetchError>) -> (dto: KrakenTickerDto)
        ensures
            dto@ == KrakenTickerDtoView::from_outcome(
                match outcome {
                    Ok(msg) => Ok(msg@),
                    Err(error) => Err(error),
                },
            ),
            outcome is Err ==> dto@ == KrakenTickerDtoView::empty(),
    {
        match outcome {
            Ok(msg) => KrakenTickerDto::build_from_msg(msg),
            Err(_) => KrakenTickerDto::default(),
        }
    }
}

impl KrakenTickerMsg {
    /// Maps a domain record to the wire message. A record without a
    /// creation time is written with the epoch; a creation time that is
    /// there must be one that text can be written for. The message reads
    /// back as the record it was written from, if that had a creation time.
    pub fn build_from_dto(dto: KrakenTickerDto) -> (msg: KrakenTickerMsg)
        requires
            dto@.writable(),
        ensures
            msg@ == KrakenTickerMsgView::from_dto(dto@),
            parsed_instant(msg.created_at@) == Some(Timestamp::spec_or_epoch(dto.created_at)),
            dto.created_at is Some ==> KrakenTickerDtoView::from_msg(msg@) == dto@,
    {
        let created_at = write_display(Timestamp::or_epoch(dto.created_at));
        KrakenTickerMsg {
            created_at,
            last_price: dto.last_price,
            last_volume: dto.last_volume,
            volume_today: dto.volume_today,
            volume_24_hours: dto.volume_24_hours,
            trades_today: dto.trades_today,
            trades_24_hours: dto.trades_24_hours,
            ask_price: dto.ask_price,
            ask_whole_lot_volume: dto.ask_whole_lot_volume,
            ask_lot_volume: dto.ask_lot_volume,
            bid_price: dto.bid_price,
            bid_whole_lot_volume: dto.bid_whole_lot_volume,
            bid_lot_volume: dto.bid_lot_volume,
            id: dto.id,
        }
    }

    /// Maps a domain record to the wire message where that is defined, and
    /// says `None` where the record's creation time cannot be written.
    pub fn try_build_from_dto(dto: KrakenTickerDto) -> (msg: Option<KrakenTickerMsg>)
        ensures
            msg is Some <==> dto@.writable(),
            msg matches Some(built) ==> built@ == KrakenTickerMsgView::from_dto(dto@),
            msg matches Some(built) ==> parsed_instant(built.created_at@) == Some(
                Timestamp::spec_or_epoch(dto.created_at),
            ),
    {
        if dto.is_writable() {
            Some(KrakenTickerMsg::build_from_dto(dto))
        } else {
            None
        }
    }
}

impl KrakenOhlcMsg {
    /// A message made without a bar, stamped with the instant `now`, which
    /// the caller reads off its clock.
    pub fn new(now: Timestamp) -> (msg: KrakenOhlcMsg)
        requires
            now.in_range(),
        ensures
            msg@ == KrakenOhlcMsgView::fresh(now),
    {
        KrakenOhlcMsg {
            ts: write_display(now),
            unix_time: FRESH_UNIX_TIME,
            open: Real32::zero(),
            high: Real32::zero(),
            low: Real32::zero(),
            close: Real32::zero(),
            vwap: Real32::zero(),
            volume: Real32::zero(),
            count: 0,
        }
    }

    /// Maps a bar to its wire message, given what the bar's numeric texts
    /// read as. Never fails: a text that is no number gives zero in its
    /// field.
    pub fn build_from_ohlc(ohlc: &OhlcRow, readings: &OhlcReadings) -> (msg: KrakenOhlcMsg)
        ensures
            msg@ == KrakenOhlcMsgView::from_ohlc(ohlc@, *readings),
            readings.open is None ==> msg.open == Real32::spec_zero(),
            readings.high is None ==> msg.high == Real32::spec_zero(),
            readings.low is None ==> msg.low == Real32::spec_zero(),
            readings.close is None ==> msg.close == Real32::spec_zero(),
            readings.vwap is None ==> msg.vwap == Real32::spec_zero(),
            readings.volume is None ==> msg.volume == Real32::spec_zero(),
    {
        KrakenOhlcMsg {
            ts: unix_to_str(ohlc.unix_time),
            unix_time: ohlc.unix_time,
            open: Real32::or_zero(readings.open),
            high: Real32::or_zero(readings.high),
            low: Real32::or_zero(readings.low),
            close: Real32::or_zero(readings.close),
            vwap: Real32::or_zero(readings.vwap),
            volume: Real32::or_zero(readings.volume),
            count: count_to_signed(ohlc.count),
        }
    }
}

/// The request that asks for the ticker of the week.
pub fn get_monday_request() -> (request: KrakenRequest)
    ensures
        request.interval == WEEK_INTERVAL,
{
    KrakenRequest { interval: WEEK_INTERVAL }
}

/// The ticker that a reply to [`get_monday_request`] stands for: the mapped
/// message, or the default ticker where the call failed.
pub fn get_monday_reply(reply: UnaryReply<KrakenTickerMsg>) -> (dto: KrakenTickerDto)
    ensures
        reply matches UnaryReply::Message(msg) ==> dto@ == KrakenTickerDtoView::from_msg(msg@),
        reply is Failed ==> dto@ == KrakenTickerDtoView::empty(),
{
    KrakenTickerDto::from_outcome(unary_outcome(reply))
}

/// The request that opens the stream of daily tickers.
pub fn get_ticker_day_first_request() -> (request: KrakenRequest)
    ensures
        request.interval == DAY_INTERVAL,
{
    KrakenRequest { interval: DAY_INTERVAL }
}

/// The ticker that a reply to [`get_ticker_day_first_request`] stands for:
/// the mapped first element, or the default ticker where the stream brought
/// none.
pub fn get_ticker_day_first_reply(reply: StreamReply<KrakenTickerMsg>) -> (dto: KrakenTickerDto)
    ensures
        reply matches StreamReply::First(msg) ==> dto@ == KrakenTickerDtoView::from_msg(msg@),
        !(reply is First) ==> dto@ == KrakenTickerDtoView::empty(),
{
    KrakenTickerDto::from_outcome(first_element(reply))
}

/// Writing a ticker out and reading it back reproduces every field but the
/// creation time, which comes back as whatever its written text reads as:
/// the same instant where the text reads back as written, the epoch where
/// it does not read at all. A ticker without a creation time is written
/// with the epoch, so it comes back with one. That the text does read back
/// as written is what [`KrakenTickerMsg::build_from_dto`] states of each
/// message it writes.
pub proof fn lemma_ticker_round_trip(dto: KrakenTickerDtoView)
    requires
        dto.writable(),
    ensures
        ({
            let back = KrakenTickerDtoView::from_msg(KrakenTickerMsgView::from_dto(dto));
            let written = Timestamp::spec_or_epoch(dto.created_at);
            let reading = parsed_instant(display_text(written));
            &&& back == (KrakenTickerDtoView {
                created_at: Some(Timestamp::spec_or_epoch(reading)),
                ..dto
            })
            &&& dto.created_at is Some && reading == dto.created_at ==> back == dto
            &&& reading is None ==> back.created_at == Some(Timestamp::spec_epoch())
            &&& back.created_at is Some
        }),
{
}

} // verus!
