//! The block-data service: its messages, its domain record, and the
//! mapping between them.

use crate::fetch::{first_element, unary_outcome, FetchError, StreamReply, UnaryReply};
use crate::instant::{parsed_instant, rfc3339_text, write_rfc3339, Timestamp};
use crate::number::Real64;
use vstd::prelude::*;

verus! {

/// The request of both block calls: a height, or a hash, to look up.
#[derive(Clone, Debug, PartialEq, Eq)]
pub struct BlocksRequest {
    pub height: i64,
    pub hash: String,
}

/// A block as the service sends it. `created_at` is timestamp text.
#[derive(Clone, Debug, PartialEq, Eq)]
pub struct BlockMsg {
    pub id: String,
    pub height: i64,
    pub version: i64,
    pub timestamp: i64,
    pub tx_count: i64,
    pub size: i64,
    pub weight: i64,
    pub merkle_root: String,
    pub previousblockhash: String,
    pub mediantime: i64,
    pub nonce: i64,
    pub bits: i64,
    pub difficulty: Real64,
    pub created_at: String,
}

/// A block as callers see it. `created_at` is a parsed instant.
#[derive(Clone, Debug, PartialEq, Eq)]
pub struct BlockDto {
    pub id: String,
    pub height: i64,
    pub version: i64,
    pub timestamp: i64,
    pub tx_count: i64,
    pub size: i64,
    pub weight: i64,
    pub merkle_root: String,
    pub previousblockhash: String,
    pub mediantime: i64,
    pub nonce: i64,
    pub bits: i64,
    pub difficulty: Real64,
    pub created_at: Option<Timestamp>,
}

/// The mathematical content of a [`BlocksRequest`].
pub struct BlocksRequestView {
    pub height: int,
    pub hash: Seq<char>,
}

/// The mathematical content of a [`BlockMsg`].
pub struct BlockMsgView {
    pub id: Seq<char>,
    pub height: int,
    pub version: int,
    pub timestamp: int,
    pub tx_count: int,
    pub size: int,
    pub weight: int,
    pub merkle_root: Seq<char>,
    pub previousblockhash: Seq<char>,
    pub mediantime: int,
    pub nonce: int,
    pub bits: int,
    pub difficulty: Real64,
    pub created_at: Seq<char>,
}

/// The mathematical content of a [`BlockDto`].
pub struct BlockDtoView {
    pub id: Seq<char>,
    pub height: int,
    pub version: int,
    pub timestamp: int,
    pub tx_count: int,
    pub size: int,
    pub weight: int,
    pub merkle_root: Seq<char>,
    pub previousblockhash: Seq<char>,
    pub mediantime: int,
    pub nonce: int,
    pub bits: int,
    pub difficulty: Real64,
    pub created_at: Option<Timestamp>,
}

impl View for BlocksRequest {
    type V = BlocksRequestView;

    open spec fn view(&self) -> BlocksRequestView {
        BlocksRequestView { height: self.height as int, hash: self.hash@ }
    }
}

impl View for BlockMsg {
    type V = BlockMsgView;

    open spec fn view(&self) -> BlockMsgView {
        BlockMsgView {
            id: self.id@,
            height: self.height as int,
            version: self.version as int,
            timestamp: self.timestamp as int,
            tx_count: self.tx_count as int,
            size: self.size as int,
            weight: self.weight as int,
            merkle_root: self.merkle_root@,
            previousblockhash: self.previousblockhash@,
            mediantime: self.mediantime as int,
            nonce: self.nonce as int,
            bits: self.bits as int,
            difficulty: self.difficulty,
            created_at: self.created_at@,
        }
    }
}

impl View for BlockDto {
    type V = BlockDtoView;

    open spec fn view(&self) -> BlockDtoView {
        BlockDtoView {
            id: self.id@,
            height: self.height as int,
            version: self.version as int,
            timestamp: self.timestamp as int,
            tx_count: self.tx_count as int,
            size: self.size as int,
            weight: self.weight as int,
            merkle_root: self.merkle_root@,
            previousblockhash: self.previousblockhash@,
            mediantime: self.mediantime as int,
            nonce: self.nonce as int,
            bits: self.bits as int,
            difficulty: self.difficulty,
            created_at: self.created_at,
        }
    }
}

impl BlockDtoView {
    /// The record that stands for "no data": every number zero, every text
    /// empty, no creation time.
    pub open spec fn empty() -> BlockDtoView {
        BlockDtoView {
            id: Seq::empty(),
            height: 0,
            version: 0,
            timestamp: 0,
            tx_count: 0,
            size: 0,
            weight: 0,
            merkle_root: Seq::empty(),
            previousblockhash: Seq::empty(),
            mediantime: 0,
            nonce: 0,
            bits: 0,
            difficulty: Real64::spec_zero(),
            created_at: None,
        }
    }

    /// The record that a wire message maps to. Every field is copied but
    /// the creation time, which is what the message's timestamp text reads
    /// as, or the epoch where that text is malformed.
    pub open spec fn from_msg(msg: BlockMsgView) -> BlockDtoView {
        BlockDtoView {
            id: msg.id,
            height: msg.height,
            version: msg.version,
            timestamp: msg.timestamp,
            tx_count: msg.tx_count,
            size: msg.size,
            weight: msg.weight,
            merkle_root: msg.merkle_root,
            previousblockhash: msg.previousblockhash,
            mediantime: msg.mediantime,
            nonce: msg.nonce,
            bits: msg.bits,
            difficulty: msg.difficulty,
            created_at: Some(Timestamp::spec_or_epoch(parsed_instant(msg.created_at))),
        }
    }

    /// Whether the record can be written as a wire message: it has a
    /// creation time, and that time is one that text can be written for.
    pub open spec fn writable(self) -> bool {
        self.created_at matches Some(at) && at.in_range()
    }

    /// The record that a fetch outcome stands for: the mapped message, or
    /// the empty record where the fetch brought none.
    pub open spec fn from_outcome(outcome: Result<BlockMsgView, FetchError>) -> BlockDtoView {
        match outcome {
            Ok(msg) => Self::from_msg(msg),
            Err(_) => Self::empty(),
        }
    }
}

impl BlockMsgView {
    /// The wire message that a record maps to. Every field is copied but
    /// the creation time, which is written as RFC 3339 text.
    pub open spec fn from_dto(dto: BlockDtoView) -> BlockMsgView
        recommends
            dto.writable(),
    {
        BlockMsgView {
            id: dto.id,
            height: dto.height,
            version: dto.version,
            timestamp: dto.timestamp,
            tx_count: dto.tx_count,
            size: dto.size,
            weight: dto.weight,
            merkle_root: dto.merkle_root,
            previousblockhash: dto.previousblockhash,
            mediantime: dto.mediantime,
            nonce: dto.nonce,
            bits: dto.bits,
            difficulty: dto.difficulty,
            created_at: rfc3339_text(dto.created_at->0),
        }
    }
}

impl Default for BlockDto {
    fn default() -> (dto: BlockDto)
        ensures
            dto@ == BlockDtoView::empty(),
    {
        BlockDto {
            id: String::new(),
            height: 0,
            version: 0,
            timestamp: 0,
            tx_count: 0,
            size: 0,
            weight: 0,
            merkle_root: String::new(),
            previousblockhash: String::new(),
            mediantime: 0,
            nonce: 0,
            bits: 0,
            difficulty: Real64::zero(),
            created_at: None,
        }
    }
}

impl BlockDto {
    /// Maps a wire message to the domain record. Never fails: malformed
    /// timestamp text gives the epoch as creation time.
    pub fn build_from_msg(msg: BlockMsg) -> (dto: BlockDto)
        ensures
            dto@ == BlockDtoView::from_msg(msg@),
            parsed_instant(msg.created_at@) is None ==> dto.created_at == Some(
                Timestamp::spec_epoch(),
            ),
            dto@.writable(),
    {
        let created_at = Timestamp::parse_or_epoch(msg.created_at.as_str());
        BlockDto {
            id: msg.id,
            height: msg.height,
            version: msg.version,
            timestamp: msg.timestamp,
            tx_count: msg.tx_count,
            size: msg.size,
            weight: msg.weight,
            merkle_root: msg.merkle_root,
            previousblockhash: msg.previousblockhash,
            mediantime: msg.mediantime,
            nonce: msg.nonce,
            bits: msg.bits,
            difficulty: msg.difficulty,
            created_at: Some(created_at),
        }
    }

    /// Decides [`BlockDtoView::writable`].
    pub fn is_writable(&self) -> (yes: bool)
        ensures
            yes == self@.writable(),
    {
        match &self.created_at {
            Some(at) => at.is_in_range(),
            None => false,
        }
    }

    /// The record for a fetch outcome: the mapped message, or the default
    /// record where the fetch brought none.
    pub fn from_outcome(outcome: Result<BlockMsg, FetchError>) -> (dto: BlockDto)
        ensures
            dto@ == BlockDtoView::from_outcome(
                match outcome {
                    Ok(msg) => Ok(msg@),
                    Err(error) => Err(error),
                },
            ),
            outcome is Err ==> dto@ == BlockDtoView::empty(),
    {
        match outcome {
            Ok(msg) => BlockDto::build_from_msg(msg),
            Err(_) => BlockDto::default(),
        }
    }
}

impl BlockMsg {
    /// Maps a domain record to the wire message. The record must have a
    /// creation time that text can be written for. The message reads back
    /// as the record it was written from.
    pub fn build_from_dto(dto: BlockDto) -> (msg: BlockMsg)
        requires
            dto@.writable(),
        ensures
            msg@ == BlockMsgView::from_dto(dto@),
            parsed_instant(msg.created_at@) == dto.created_at,
            BlockDtoView::from_msg(msg@) == dto@,
    {
        let created_at = match &dto.created_at {
            Some(at) => write_rfc3339(*at),
            None => String::new(),
        };
        BlockMsg {
            id: dto.id,
            height: dto.height,
            version: dto.version,
            timestamp: dto.timestamp,
            tx_count: dto.tx_count,
            size: dto.size,
            weight: dto.weight,
            merkle_root: dto.merkle_root,
            previousblockhash: dto.previousblockhash,
            mediantime: dto.mediantime,
            nonce: dto.nonce,
            bits: dto.bits,
            difficulty: dto.difficulty,
            created_at,
        }
    }

    /// Maps a domain record to the wire message where that is defined, and
    /// says `None` where the record has no writable creation time.
    pub fn try_build_from_dto(dto: BlockDto) -> (msg: Option<BlockMsg>)
        ensures
            msg is Some <==> dto@.writable(),
            msg matches Some(built) ==> built@ == BlockMsgView::from_dto(dto@),
            msg matches Some(built) ==> BlockDtoView::from_msg(built@) == dto@,
    {
        if dto.is_writable() {
            Some(BlockMsg::build_from_dto(dto))
        } else {
            None
        }
    }
}

/// The request that asks for the block at `height`.
pub fn get_block_request(height: i64) -> (request: BlocksRequest)
    ensures
        request@ == (BlocksRequestView { height: height as int, hash: Seq::empty() }),
{
    BlocksRequest { height, hash: String::new() }
}

/// The block that a reply to [`get_block_request`] stands for: the mapped
/// message, or the default block where the call failed.
pub fn get_block_reply(reply: UnaryReply<BlockMsg>) -> (dto: BlockDto)
    ensures
        reply matches UnaryReply::Message(msg) ==> dto@ == BlockDtoView::from_msg(msg@),
        reply is Failed ==> dto@ == BlockDtoView::empty(),
{
    BlockDto::from_outcome(unary_outcome(reply))
}

/// The request that opens the stream of blocks, latest first.
pub fn get_latest_block_request() -> (request: BlocksRequest)
    ensures
        request@ == (BlocksRequestView { height: 0, hash: Seq::empty() }),
{
    BlocksRequest { height: 0, hash: String::new() }
}

/// The block that a reply to [`get_latest_block_request`] stands for: the
/// mapped first element, or the default block where the stream brought
/// none.
pub fn get_latest_block_reply(reply: StreamReply<BlockMsg>) -> (dto: BlockDto)
    ensures
        reply matches StreamReply::First(msg) ==> dto@ == BlockDtoView::from_msg(msg@),
        !(reply is First) ==> dto@ == BlockDtoView::empty(),
{
    BlockDto::from_outcome(first_element(reply))
}

/// Writing a block out and reading it back reproduces every field but the
/// creation time, which comes back as whatever its written text reads as:
/// the same instant where the text reads back as written, the epoch where
/// it does not read at all. That the text does read back as written is
/// what [`BlockMsg::build_from_dto`] states of each message it writes.
pub proof fn lemma_block_round_trip(dto: BlockDtoView)
    requires
        dto.writable(),
    ensures
        ({
            let back = BlockDtoView::from_msg(BlockMsgView::from_dto(dto));
            let reading = parsed_instant(rfc3339_text(dto.created_at->0));
            &&& back == (BlockDtoView {
                created_at: Some(Timestamp::spec_or_epoch(reading)),
                ..dto
            })
            &&& reading == dto.created_at ==> back == dto
            &&& reading is None ==> back.created_at == Some(Timestamp::spec_epoch())
        }),
{
}

} // verus!
