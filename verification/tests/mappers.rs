use datalink::blockslib::{BlockDto, BlockMsg};
use datalink::currency::{CurrencyDto, CurrencyMsg};
use datalink::instant::{Timestamp, MAX_SECS};
use datalink::kraken::{KrakenOhlcMsg, KrakenTickerDto, KrakenTickerMsg, OhlcReadings, OhlcRow};
use datalink::number::{Real32, Real64};

fn single(value: f32) -> Real32 {
    Real32 { bits: value.to_bits() }
}

fn read(text: &str) -> Option<Real32> {
    text.parse::<f32>().ok().map(single)
}

fn readings_of(row: &OhlcRow) -> OhlcReadings {
    OhlcReadings {
        open: read(&row.open),
        high: read(&row.high),
        low: read(&row.low),
        close: read(&row.close),
        vwap: read(&row.vwap),
        volume: read(&row.volume),
    }
}

fn block_dto(created_at: Option<Timestamp>) -> BlockDto {
    BlockDto {
        id: "0000abc".to_string(),
        height: 825_000,
        version: 2,
        timestamp: 1_704_067_000,
        tx_count: 3100,
        size: 1_500_000,
        weight: 3_990_000,
        merkle_root: "beef".to_string(),
        previousblockhash: "0000abb".to_string(),
        mediantime: 1_704_066_000,
        nonce: -5,
        bits: 386_120_285,
        difficulty: Real64 { bits: 72.0e12f64.to_bits() },
        created_at,
    }
}

fn currency_dto(ts: i64, created_at: Option<Timestamp>) -> CurrencyDto {
    CurrencyDto {
        ts,
        dkk: single(6.9),
        eur: single(0.92),
        gbp: single(0.79),
        btc: single(0.000023),
        eth: single(0.00043),
        created_at,
    }
}

fn ticker_dto(created_at: Option<Timestamp>) -> KrakenTickerDto {
    KrakenTickerDto {
        id: 7,
        last_price: single(42.5),
        last_volume: single(0.25),
        volume_today: single(1000.0),
        volume_24_hours: single(2000.5),
        trades_today: 11,
        trades_24_hours: -22,
        ask_price: single(42.75),
        ask_whole_lot_volume: 3,
        ask_lot_volume: single(3.5),
        bid_price: single(f32::NAN),
        bid_whole_lot_volume: 4,
        bid_lot_volume: single(-0.0),
        created_at,
    }
}

fn new_year() -> Timestamp {
    Timestamp { secs: 1_704_067_200, nanos: 0 }
}

#[test]
fn block_maps_out_with_rfc3339_time() {
    let msg = BlockMsg::build_from_dto(block_dto(Some(new_year())));
    assert_eq!(msg.created_at, "2024-01-01T00:00:00+00:00");
    assert_eq!(msg.id, "0000abc");
    assert_eq!(msg.height, 825_000);
    assert_eq!(msg.version, 2);
    assert_eq!(msg.timestamp, 1_704_067_000);
    assert_eq!(msg.tx_count, 3100);
    assert_eq!(msg.size, 1_500_000);
    assert_eq!(msg.weight, 3_990_000);
    assert_eq!(msg.merkle_root, "beef");
    assert_eq!(msg.previousblockhash, "0000abb");
    assert_eq!(msg.mediantime, 1_704_066_000);
    assert_eq!(msg.nonce, -5);
    assert_eq!(msg.bits, 386_120_285);
    assert_eq!(f64::from_bits(msg.difficulty.bits), 72.0e12);
}

#[test]
fn block_maps_out_fractions_of_a_second() {
    let fine = Timestamp { secs: 1_704_067_200, nanos: 250_000_000 };
    assert_eq!(
        BlockMsg::build_from_dto(block_dto(Some(fine))).created_at,
        "2024-01-01T00:00:00.250+00:00"
    );
    assert_eq!(
        BlockMsg::build_from_dto(block_dto(Some(Timestamp::epoch()))).created_at,
        "1970-01-01T00:00:00+00:00"
    );
}

#[test]
fn block_round_trip_reproduces_the_record() {
    for at in [
        new_year(),
        Timestamp::epoch(),
        Timestamp { secs: -1, nanos: 123_000_000 },
        Timestamp { secs: 1_704_067_200, nanos: 123_456_789 },
        Timestamp { secs: 1_483_228_799, nanos: 1_250_000_000 },
    ] {
        let dto = block_dto(Some(at));
        let back = BlockDto::build_from_msg(BlockMsg::build_from_dto(dto.clone()));
        assert_eq!(back, dto);
    }
}

#[test]
fn block_with_malformed_time_gets_the_epoch() {
    let mut msg = BlockMsg::build_from_dto(block_dto(Some(new_year())));
    msg.created_at = "01/01/2024".to_string();
    let dto = BlockDto::build_from_msg(msg);
    assert_eq!(dto.created_at, Some(Timestamp { secs: 0, nanos: 0 }));
    assert_eq!(dto.id, "0000abc");
    assert_eq!(dto.bits, 386_120_285);
    assert_eq!(f64::from_bits(dto.difficulty.bits), 72.0e12);
}

#[test]
fn block_without_writable_time_is_not_mapped_out() {
    assert!(!block_dto(None).is_writable());
    assert_eq!(BlockMsg::try_build_from_dto(block_dto(None)), None);
    let far = Timestamp { secs: MAX_SECS + 1, nanos: 0 };
    assert!(!block_dto(Some(far)).is_writable());
    assert_eq!(BlockMsg::try_build_from_dto(block_dto(Some(far))), None);
    let stray = Timestamp { secs: 0, nanos: 1_000_000_000 };
    assert_eq!(BlockMsg::try_build_from_dto(block_dto(Some(stray))), None);
}

#[test]
fn block_with_writable_time_is_mapped_out() {
    let dto = block_dto(Some(new_year()));
    assert!(dto.is_writable());
    assert_eq!(
        BlockMsg::try_build_from_dto(dto.clone()),
        Some(BlockMsg::build_from_dto(dto))
    );
}

#[test]
fn currency_maps_in_at_face_value() {
    let msg = CurrencyMsg {
        created_at: "2024-01-01T00:00:00Z".to_string(),
        dkk: single(6.9),
        eur: single(0.92),
        gbp: single(0.79),
        btc: single(0.000023),
        eth: single(0.00043),
        ts: -17,
    };
    let dto = CurrencyDto::build_from_msg(msg);
    assert_eq!(dto.ts, -17);
    assert_eq!(f32::from_bits(dto.dkk.bits), 6.9);
    assert_eq!(f32::from_bits(dto.eur.bits), 0.92);
    assert_eq!(f32::from_bits(dto.gbp.bits), 0.79);
    assert_eq!(f32::from_bits(dto.btc.bits), 0.000023);
    assert_eq!(f32::from_bits(dto.eth.bits), 0.00043);
    assert_eq!(dto.created_at, Some(new_year()));
}

#[test]
fn currency_with_malformed_time_gets_the_epoch() {
    let msg = CurrencyMsg {
        created_at: "soon".to_string(),
        dkk: single(6.9),
        eur: single(0.92),
        gbp: single(0.79),
        btc: single(0.000023),
        eth: single(0.00043),
        ts: 3,
    };
    let dto = CurrencyDto::build_from_msg(msg);
    assert_eq!(dto.created_at, Some(Timestamp::epoch()));
    assert_eq!(dto.ts, 3);
    assert_eq!(f32::from_bits(dto.dkk.bits), 6.9);
}

#[test]
fn currency_maps_out_scaled_down() {
    let msg = CurrencyMsg::build_from_currency(Some(currency_dto(1500, Some(new_year()))));
    assert_eq!(msg.ts, 1);
    assert_eq!(msg.created_at, "2024-01-01 00:00:00 UTC");
    assert_eq!(f32::from_bits(msg.dkk.bits), 6.9);
    assert_eq!(f32::from_bits(msg.eth.bits), 0.00043);
    let negative = CurrencyMsg::build_from_currency(Some(currency_dto(-1500, Some(new_year()))));
    assert_eq!(negative.ts, -1);
    let wide = CurrencyMsg::build_from_currency(Some(currency_dto(i64::MAX, Some(new_year()))));
    assert_eq!(wide.ts, (i64::MAX / 1000) as i32);
}

#[test]
fn currency_of_nothing_is_the_default_message() {
    let msg = CurrencyMsg::build_from_currency(None);
    assert_eq!(msg, CurrencyMsg::default());
    assert_eq!(msg.created_at, "");
    assert_eq!(msg.ts, 0);
    assert_eq!(f32::from_bits(msg.dkk.bits), 0.0);
    assert_eq!(CurrencyMsg::try_build_from_currency(None), Some(CurrencyMsg::default()));
}

#[test]
fn currency_round_trip_truncates_the_time() {
    let dto = currency_dto(1500, Some(new_year()));
    let back = CurrencyDto::build_from_msg(CurrencyMsg::build_from_currency(Some(dto.clone())));
    assert_eq!(back.ts, 1);
    assert_eq!(back.ts * 1000, 1000);
    assert_eq!(back.created_at, dto.created_at);
    assert_eq!(back.dkk, dto.dkk);
    assert_eq!(back.eur, dto.eur);
    assert_eq!(back.gbp, dto.gbp);
    assert_eq!(back.btc, dto.btc);
    assert_eq!(back.eth, dto.eth);
}

#[test]
fn currency_without_writable_time_is_not_mapped_out() {
    assert!(!currency_dto(5, None).is_writable());
    assert_eq!(CurrencyMsg::try_build_from_currency(Some(currency_dto(5, None))), None);
    let dto = currency_dto(5, Some(new_year()));
    assert_eq!(
        CurrencyMsg::try_build_from_currency(Some(dto.clone())),
        Some(CurrencyMsg::build_from_currency(Some(dto)))
    );
}

#[test]
fn ticker_maps_out_with_display_time() {
    let msg = KrakenTickerMsg::build_from_dto(ticker_dto(Some(new_year())));
    assert_eq!(msg.created_at, "2024-01-01 00:00:00 UTC");
    assert_eq!(msg.id, 7);
    assert_eq!(msg.trades_24_hours, -22);
    assert_eq!(msg.last_price, single(42.5));
    assert_eq!(msg.bid_price, single(f32::NAN));
    assert_eq!(msg.bid_lot_volume.bits, 0x8000_0000);
}

#[test]
fn ticker_without_time_is_written_with_the_epoch() {
    let msg = KrakenTickerMsg::build_from_dto(ticker_dto(None));
    assert_eq!(msg.created_at, "1970-01-01 00:00:00 UTC");
    let back = KrakenTickerDto::build_from_msg(msg);
    assert_eq!(back.created_at, Some(Timestamp::epoch()));
}

#[test]
fn ticker_round_trip_reproduces_the_record() {
    for at in [
        new_year(),
        Timestamp { secs: 1_704_067_200, nanos: 5 },
        Timestamp { secs: -1, nanos: 999_999_999 },
        Timestamp { secs: 1_483_228_799, nanos: 1_250_000_000 },
    ] {
        let dto = ticker_dto(Some(at));
        let back = KrakenTickerDto::build_from_msg(KrakenTickerMsg::build_from_dto(dto.clone()));
        assert_eq!(back, dto);
    }
}

#[test]
fn ticker_with_unwritable_time_is_not_mapped_out() {
    let stray = Timestamp { secs: 10, nanos: 1_500_000_000 };
    assert!(!ticker_dto(Some(stray)).is_writable());
    assert_eq!(KrakenTickerMsg::try_build_from_dto(ticker_dto(Some(stray))), None);
    assert!(ticker_dto(None).is_writable());
    assert_eq!(
        KrakenTickerMsg::try_build_from_dto(ticker_dto(None)),
        Some(KrakenTickerMsg::build_from_dto(ticker_dto(None)))
    );
}

#[test]
fn ohlc_bar_maps_to_its_message() {
    let row = OhlcRow {
        unix_time: 1_704_067_260,
        open: "42000.1".to_string(),
        high: "42500.0".to_string(),
        low: "41900.5".to_string(),
        close: "42250.25".to_string(),
        vwap: "42100.0".to_string(),
        volume: "12.5".to_string(),
        count: 321,
    };
    let msg = KrakenOhlcMsg::build_from_ohlc(&row, &readings_of(&row));
    assert_eq!(msg.ts, "2024-01-01 00:01");
    assert_eq!(msg.unix_time, 1_704_067_260);
    assert_eq!(f32::from_bits(msg.open.bits), 42000.1);
    assert_eq!(f32::from_bits(msg.high.bits), 42500.0);
    assert_eq!(f32::from_bits(msg.low.bits), 41900.5);
    assert_eq!(f32::from_bits(msg.close.bits), 42250.25);
    assert_eq!(f32::from_bits(msg.vwap.bits), 42100.0);
    assert_eq!(f32::from_bits(msg.volume.bits), 12.5);
    assert_eq!(msg.count, 321);
}

#[test]
fn ohlc_malformed_numbers_become_zero() {
    let row = OhlcRow {
        unix_time: 0,
        open: "".to_string(),
        high: "12,5".to_string(),
        low: "abc".to_string(),
        close: "1.0".to_string(),
        vwap: "1e".to_string(),
        volume: "--3".to_string(),
        count: u32::MAX,
    };
    let msg = KrakenOhlcMsg::build_from_ohlc(&row, &readings_of(&row));
    assert_eq!(msg.ts, "1970-01-01 00:00");
    assert_eq!(f32::from_bits(msg.open.bits), 0.0);
    assert_eq!(f32::from_bits(msg.high.bits), 0.0);
    assert_eq!(f32::from_bits(msg.low.bits), 0.0);
    assert_eq!(f32::from_bits(msg.close.bits), 1.0);
    assert_eq!(f32::from_bits(msg.vwap.bits), 0.0);
    assert_eq!(f32::from_bits(msg.volume.bits), 0.0);
    assert_eq!(msg.open.bits, 0);
    assert_eq!(msg.count, -1);
}

#[test]
fn ohlc_count_wraps_above_the_signed_range() {
    let row = OhlcRow {
        unix_time: -60,
        open: "1".to_string(),
        high: "1".to_string(),
        low: "1".to_string(),
        close: "1".to_string(),
        vwap: "1".to_string(),
        volume: "1".to_string(),
        count: 0x8000_0000,
    };
    let msg = KrakenOhlcMsg::build_from_ohlc(&row, &readings_of(&row));
    assert_eq!(msg.count, i32::MIN);
    assert_eq!(msg.ts, "1969-12-31 23:59");
}

#[test]
fn fresh_ohlc_message_is_stamped_and_zero() {
    let msg = KrakenOhlcMsg::new(new_year());
    assert_eq!(msg.ts, "2024-01-01 00:00:00 UTC");
    assert_eq!(msg.unix_time, 42);
    assert_eq!(msg.count, 0);
    for field in [msg.open, msg.high, msg.low, msg.close, msg.vwap, msg.volume] {
        assert_eq!(f32::from_bits(field.bits), 0.0);
    }
}

#[test]
fn fresh_ohlc_message_carries_the_time_it_is_given() {
    let clock = chrono::Utc::now();
    let now = Timestamp { secs: clock.timestamp(), nanos: clock.timestamp_subsec_nanos() };
    assert!(now.is_in_range());
    let msg = KrakenOhlcMsg::new(now);
    assert_eq!(msg.ts, clock.to_string());
    assert_eq!(Timestamp::parse_or_epoch(&msg.ts), now);
    assert_eq!(msg.unix_time, 42);
    assert_eq!(msg.count, 0);
    assert_eq!(msg.open.bits, 0);
    assert_eq!(msg.volume.bits, 0);
}

#[test]
fn mapped_records_can_be_written_again() {
    let mut msg = BlockMsg::build_from_dto(block_dto(Some(new_year())));
    for text in ["2016-12-31T23:59:60Z", "nonsense", "+262142-12-31T23:59:60.5Z", "-262143-01-01 00:00:00 UTC"] {
        msg.created_at = text.to_string();
        let dto = BlockDto::build_from_msg(msg.clone());
        assert!(dto.is_writable(), "{}", text);
        let again = BlockDto::build_from_msg(BlockMsg::build_from_dto(dto.clone()));
        assert_eq!(again, dto, "{}", text);
    }
}
