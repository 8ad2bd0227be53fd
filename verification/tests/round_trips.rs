use chrono::{DateTime, Utc};
use datalink::blockslib::{BlockDto, BlockMsg};
use datalink::instant::{Timestamp, MAX_SECS, MIN_SECS};
use datalink::kraken::{KrakenTickerDto, KrakenTickerMsg};

fn step(state: &mut u64) -> u64 {
    *state = state.wrapping_mul(6364136223846793005).wrapping_add(1442695040888963407);
    *state >> 11
}

fn instants() -> Vec<Timestamp> {
    let mut out = Vec::new();
    let nanos = [0u32, 1, 999, 1_000, 999_000, 1_000_000, 500_000_000, 999_999_999];
    let leaps = [1_000_000_000u32, 1_000_000_001, 1_500_000_000, 1_999_999_999];
    let mut seconds = vec![
        MIN_SECS, MIN_SECS + 1, MIN_SECS + 59, MIN_SECS + 86_399, MIN_SECS + 86_400,
        MAX_SECS, MAX_SECS - 1, MAX_SECS - 59, MAX_SECS - 60, MAX_SECS - 86_399, MAX_SECS - 86_400,
        -62_167_219_200, -62_167_219_201, -62_167_219_200 - 31_622_400, -62_167_219_200 + 59,
        253_402_300_799, 253_402_300_800, 253_402_300_800 + 59, -1, 0, 1, 59, 60, -60, -61,
        1_483_228_799, 1_704_067_200,
    ];
    let mut state = 7u64;
    let span = (MAX_SECS - MIN_SECS) as u64 + 1;
    for _ in 0..4000 {
        seconds.push(MIN_SECS + (step(&mut state) % span) as i64);
    }
    for _ in 0..2000 {
        seconds.push(-70_000_000_000 + (step(&mut state) % 400_000_000_000) as i64);
    }
    for secs in seconds {
        for sub in nanos {
            out.push(Timestamp { secs, nanos: sub });
        }
        let last = secs - secs.rem_euclid(60) + 59;
        if last <= MAX_SECS {
            for sub in leaps {
                out.push(Timestamp { secs: last, nanos: sub });
            }
        }
        out.push(Timestamp { secs, nanos: (step(&mut state) % 1_000_000_000) as u32 });
    }
    out
}

fn block(at: Timestamp) -> BlockDto {
    let mut dto = BlockDto::default();
    dto.created_at = Some(at);
    dto
}

fn ticker(at: Timestamp) -> KrakenTickerDto {
    let mut dto = KrakenTickerDto::default();
    dto.created_at = Some(at);
    dto
}

#[test]
fn rfc3339_text_reads_back_across_the_range() {
    let mut bad = Vec::new();
    for at in instants() {
        assert!(at.is_in_range());
        let msg = BlockMsg::build_from_dto(block(at));
        let back = BlockDto::build_from_msg(msg.clone());
        if back.created_at != Some(at) {
            bad.push((at, msg.created_at));
        }
    }
    assert!(bad.is_empty(), "{} failures, first {:?}", bad.len(), &bad[..bad.len().min(8)]);
}

#[test]
fn display_text_reads_back_across_the_range() {
    let mut bad = Vec::new();
    for at in instants() {
        let msg = KrakenTickerMsg::build_from_dto(ticker(at));
        let back = KrakenTickerDto::build_from_msg(msg.clone());
        if back.created_at != Some(at) {
            bad.push((at, msg.created_at));
        }
    }
    assert!(bad.is_empty(), "{} failures, first {:?}", bad.len(), &bad[..bad.len().min(8)]);
}

#[test]
fn readings_at_the_edges_are_in_range() {
    let texts = [
        "+262142-12-31T23:59:60.999999999Z",
        "+262142-12-31T23:59:60Z",
        "+262142-12-31T23:59:59.999999999-00:01",
        "+262142-12-31T23:59:59-23:59",
        "+262143-01-01T00:00:00+00:01",
        "+262143-01-01T00:00:00+23:59",
        "-262143-01-01T00:00:00+00:01",
        "-262143-01-01T00:00:00+23:59",
        "-262143-01-01T00:00:00Z",
        "-262144-12-31T23:59:59-00:01",
        "-262144-12-31T23:59:60-00:01",
        "2016-12-31T23:59:60+00:30",
        "2016-12-31T23:59:60+05:45",
        "2016-12-31T12:34:60Z",
        "2016-12-31T23:59:60.5+23:59",
        "2016-12-31T23:59:60.5-23:59",
        "+262142-12-31T23:59:60.5-00:00",
        "+262142-12-31T23:59:60.5+00:00",
        "+262142-12-31T23:30:60.5-00:29",
    ];
    let mut read = 0;
    for text in texts {
        let direct = text.parse::<DateTime<Utc>>().ok();
        let at = Timestamp::parse_or_epoch(text);
        assert!(at.is_in_range(), "{}", text);
        match direct {
            Some(moment) => {
                read += 1;
                assert_eq!(at.secs, moment.timestamp(), "{}", text);
                assert_eq!(at.nanos, moment.timestamp_subsec_nanos(), "{}", text);
            }
            None => assert_eq!(at, Timestamp::epoch(), "{}", text),
        }
    }
    assert!(read >= 8);
}
