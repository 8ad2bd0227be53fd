//! The currency-rate service: its messages, its domain record, and the
//! mapping between them.
//!
//! The two directions treat the time field `ts` differently, on purpose.
//! Outbound, the record's millisecond count is scaled down by 1000 and
//! narrowed to 32 bits. Inbound, the wire value is taken at face value and
//! only widened.

use crate::fetch::{unary_outcome, FetchError, UnaryReply};
use crate::instant::{display_text, parsed_instant, write_display, Timestamp};
use crate::number::{millis_to_wire_seconds, truncating_div, wrapped_i32, Real32};
use vstd::prelude::*;

verus! {

/// The request of the currency call.
#[derive(Clone, Debug, PartialEq, Eq)]
pub struct CurrencyRequest {
    pub input: String,
}

/// A currency snapshot as the service sends it.
#[derive(Clone, Debug, PartialEq, Eq)]
pub struct CurrencyMsg {
    pub created_at: String,
    pub dkk: Real32,
    pub eur: Real32,
    pub gbp: Real32,
    pub btc: Real32,
    pub eth: Real32,
    pub ts: i32,
}

/// A currency snapshot as callers see it.
#[derive(Clone, Debug, PartialEq, Eq)]
pub struct CurrencyDto {
    pub ts: i64,
    pub dkk: Real32,
    pub eur: Real32,
    pub gbp: Real32,
    pub btc: Real32,
    pub eth: Real32,
    pub created_at: Option<Timestamp>,
}

/// The mathematical content of a [`CurrencyMsg`].
pub struct CurrencyMsgView {
    pub created_at: Seq<char>,
    pub dkk: Real32,
    pub eur: Real32,
    pub gbp: Real32,
    pub btc: Real32,
    pub eth: Real32,
    pub ts: int,
}

/// The mathematical content of a [`CurrencyDto`].
pub struct CurrencyDtoView {
    pub ts: int,
    pub dkk: Real32,
    pub eur: Real32,
    pub gbp: Real32,
    pub btc: Real32,
    pub eth: Real32,
    pub created_at: Option<Timestamp>,
}

impl View for CurrencyRequest {
    type V = Seq<char>;

    open spec fn view(&self) -> Seq<char> {
        self.input@
    }
}

impl View for CurrencyMsg {
    type V = CurrencyMsgView;

    open spec fn view(&self) -> CurrencyMsgView {
        CurrencyMsgView {
            created_at: self.created_at@,
            dkk: self.dkk,
            eur: self.eur,
            gbp: self.gbp,
            btc: self.btc,
            eth: self.eth,
            ts: self.ts as int,
        }
    }
}

impl View for CurrencyDto {
    type V = CurrencyDtoView;

    open spec fn view(&self) -> CurrencyDtoView {
        CurrencyDtoView {
            ts: self.ts as int,
            dkk: self.dkk,
            eur: self.eur,
            gbp: self.gbp,
            btc: self.btc,
            eth: self.eth,
            created_at: self.created_at,
        }
    }
}

impl CurrencyDtoView {
    /// The record that stands for "no data".
    pub open spec fn empty() -> CurrencyDtoView {
        CurrencyDtoView {
            ts: 0,
            dkk: Real32::spec_zero(),
            eur: Real32::spec_zero(),
            gbp: Real32::spec_zero(),
            btc: Real32::spec_zero(),
            eth: Real32::spec_zero(),
            created_at: None,
        }
    }

    /// The record that a wire message maps to: the rates copied, the wire
    /// time taken at face value, and as creation time what the message's
    /// timestamp text reads as, or the epoch where that text is malformed.
    pub open spec fn from_msg(msg: CurrencyMsgView) -> CurrencyDtoView {
        CurrencyDtoView {
            ts: msg.ts,
            dkk: msg.dkk,
            eur: msg.eur,
            gbp: msg.gbp,
            btc: msg.btc,
            eth: msg.eth,
            created_at: Some(Timestamp::spec_or_epoch(parsed_instant(msg.created_at))),
        }
    }

    /// Whether the record can be written as a wire message: it has a
    /// creation time, and that time is one that text can be written for.
    pub open spec fn writable(self) -> bool {
        self.created_at matches Some(at) && at.in_range()
    }

    /// The record that a fetch outcome stands for.
    pub open spec fn from_outcome(
        outcome: Result<CurrencyMsgView, FetchError>,
    ) -> CurrencyDtoView {
        match outcome {
            Ok(msg) => Self::from_msg(msg),
            Err(_) => Self::empty(),
        }
    }
}

impl CurrencyMsgView {
    /// The message that stands for "no data".
    pub open spec fn empty() -> CurrencyMsgView {
        CurrencyMsgView {
            created_at: Seq::empty(),
            dkk: Real32::spec_zero(),
            eur: Real32::spec_zero(),
            gbp: Real32::spec_zero(),
            btc: Real32::spec_zero(),
            eth: Real32::spec_zero(),
            ts: 0,
        }
    }

    /// The wire message that a record maps to: the rates copied, the
    /// creation time written as display text, and the millisecond count
    /// divided by 1000 toward zero, of which the low 32 bits are kept.
    pub open spec fn from_dto(dto: CurrencyDtoView) -> CurrencyMsgView
        recommends
            dto.writable(),
    {
        CurrencyMsgView {
            created_at: display_text(dto.created_at->0),
            dkk: dto.dkk,
            eur: dto.eur,
            gbp: dto.gbp,
            btc: dto.btc,
            eth: dto.eth,
            ts: wrapped_i32(truncating_div(dto.ts, 1000)),
        }
    }

    /// The wire message for an optional record: the mapped record, or the
    /// empty message where there is none.
    pub open spec fn from_currency(cur: Option<CurrencyDtoView>) -> CurrencyMsgView {
        match cur {
            Some(dto) => Self::from_dto(dto),
            None => Self::empty(),
        }
    }
}

impl Default for CurrencyDto {
    fn default() -> (dto: CurrencyDto)
        ensures
            dto@ == CurrencyDtoView::empty(),
    {
        CurrencyDto {
            ts: 0,
            dkk: Real32::zero(),
            eur: Real32::zero(),
            gbp: Real32::zero(),
            btc: Real32::zero(),
            eth: Real32::zero(),
            created_at: None,
        }
    }
}

impl Default for CurrencyMsg {
    fn default() -> (msg: CurrencyMsg)
        ensures
            msg@ == CurrencyMsgView::empty(),
    {
        CurrencyMsg {
            created_at: String::new(),
            dkk: Real32::zero(),
            eur: Real32::zero(),
            gbp: Real32::zero(),
            btc: Real32::zero(),
            eth: Real32::zero(),
            ts: 0,
        }
    }
}

impl CurrencyDto {
    /// Maps a wire message to the domain record. Never fails: malformed
    /// timestamp text gives the epoch as creation time.
    pub fn build_from_msg(msg: CurrencyMsg) -> (dto: CurrencyDto)
        ensures
            dto@ == CurrencyDtoView::from_msg(msg@),
            parsed_instant(msg.created_at@) is None ==> dto.created_at == Some(
                Timestamp::spec_epoch(),
            ),
            dto@.writable(),
    {
        let created_at = Timestamp::parse_or_epoch(msg.created_at.as_str());
        CurrencyDto {
            ts: msg.ts as i64,
            dkk: msg.dkk,
            eur: msg.eur,
            gbp: msg.gbp,
            btc: msg.btc,
            eth: msg.eth,
            created_at: Some(created_at),
        }
    }

    /// Decides [`CurrencyDtoView::writable`].
    pub fn is_writable(&self) -> (yes: bool)
        ensures
            yes == self@.writable(),
    {
        match &self.created_at {
            Some(at) => at.is_in_range(),
            None => false,
        }
    }

    /// The record for a fetch outcome: the mapped message, or the default
    /// record where the fetch brought none.
    pub fn from_outcome(outcome: Result<CurrencyMsg, FetchError>) -> (dto: CurrencyDto)
        ensures
            dto@ == CurrencyDtoView::from_outcome(
                match outcome {
                    Ok(msg) => Ok(msg@),
                    Err(error) => Err(error),
                },
            ),
            outcome is Err ==> dto@ == CurrencyDtoView::empty(),
    {
        match outcome {
            Ok(msg) => CurrencyDto::build_from_msg(msg),
            Err(_) => CurrencyDto::default(),
        }
    }
}

impl CurrencyMsg {
    /// Maps an optional domain record to the wire message: the default
    /// message for `None`. A record that is given must have a creation time
    /// that text can be written for; its creation time reads back from the
    /// message as it was.
    pub fn build_from_currency(cur: Option<CurrencyDto>) -> (msg: CurrencyMsg)
        requires
            cur matches Some(dto) ==> dto@.writable(),
        ensures
            msg@ == CurrencyMsgView::from_currency(
                match cur {
                    Some(dto) => Some(dto@),
                    None => None,
                },
            ),
            cur matches Some(dto) ==> parsed_instant(msg.created_at@) == dto.created_at,
            cur matches Some(dto) ==> CurrencyDtoView::from_msg(msg@) == (CurrencyDtoView {
                ts: wrapped_i32(truncating_div(dto.ts as int, 1000)),
                ..dto@
            }),
    {
        match cur {
            Some(dto) => {
                let created_at = match &dto.created_at {
                    Some(at) => write_display(*at),
                    None => String::new(),
                };
                CurrencyMsg {
                    created_at,
                    dkk: dto.dkk,
                    eur: dto.eur,
                    gbp: dto.gbp,
                    btc: dto.btc,
                    eth: dto.eth,
                    ts: millis_to_wire_seconds(dto.ts),
                }
            },
            None => CurrencyMsg::default(),
        }
    }

    /// Maps an optional domain record to the wire message where that is
    /// defined, and says `None` where a record is given that has no
    /// writable creation time.
    pub fn try_build_from_currency(cur: Option<CurrencyDto>) -> (msg: Option<CurrencyMsg>)
        ensures
            msg is None <==> (cur matches Some(dto) && !dto@.writable()),
            msg matches Some(built) ==> built@ == CurrencyMsgView::from_currency(
                match cur {
                    Some(dto) => Some(dto@),
                    None => None,
                },
            ),
            msg matches Some(built) ==> (cur matches Some(dto) ==> parsed_instant(
                built.created_at@,
            ) == dto.created_at),
    {
        let defined = match &cur {
            Some(dto) => dto.is_writable(),
            None => true,
        };
        if defined {
            Some(CurrencyMsg::build_from_currency(cur))
        } else {
            None
        }
    }
}

/// The request that asks for the latest currency snapshot.
pub fn get_currency_request() -> (request: CurrencyRequest)
    ensures
        request@ == Seq::<char>::empty(),
{
    CurrencyRequest { input: String::new() }
}

/// The snapshot that a reply to [`get_currency_request`] stands for: the
/// mapped message, or the default snapshot where the call failed.
pub fn get_currency_reply(reply: UnaryReply<CurrencyMsg>) -> (dto: CurrencyDto)
    ensures
        reply matches UnaryReply::Message(msg) ==> dto@ == CurrencyDtoView::from_msg(msg@),
        reply is Failed ==> dto@ == CurrencyDtoView::empty(),
{
    CurrencyDto::from_outcome(unary_outcome(reply))
}

/// Writing a snapshot out and reading it back reproduces the five rates
/// exactly. The creation time comes back as whatever its written text reads
/// as: the same instant where the text reads back as written, the epoch
/// where it does not read at all. The time field comes back scaled down: as
/// long as the quotient fits 32 bits, it is the millisecond count divided by
/// 1000 toward zero, so that times 1000 it gives the count back up to the
/// truncated remainder. That the text of the creation time does read back
/// as written is what [`CurrencyMsg::build_from_currency`] states of each
/// message it writes.
pub proof fn lemma_currency_round_trip(dto: CurrencyDtoView)
    requires
        dto.writable(),
    ensures
        ({
            let back = CurrencyDtoView::from_msg(CurrencyMsgView::from_dto(dto));
            let reading = parsed_instant(display_text(dto.created_at->0));
            &&& back == (CurrencyDtoView {
                ts: wrapped_i32(truncating_div(dto.ts, 1000)),
                created_at: Some(Timestamp::spec_or_epoch(reading)),
                ..dto
            })
            &&& reading == dto.created_at ==> back.created_at == dto.created_at
            &&& reading is None ==> back.created_at == Some(Timestamp::spec_epoch())
            &&& -0x8000_0000 * 1000 <= dto.ts < 0x8000_0000 * 1000 ==> {
                &&& back.ts == truncating_div(dto.ts, 1000)
                &&& dto.ts >= 0 ==> back.ts * 1000 == dto.ts - dto.ts % 1000
                &&& dto.ts < 0 ==> back.ts * 1000 == dto.ts + (-dto.ts) % 1000
            }
            &&& reading == dto.created_at && dto.ts == 0 ==> back == dto
        }),
{
    if -0x8000_0000 * 1000 <= dto.ts < 0x8000_0000 * 1000 {
        crate::number::lemma_millis_truncation(dto.ts);
    }
}

} // verus!
