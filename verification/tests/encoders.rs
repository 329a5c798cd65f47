use ibapi::contracts::ComboLeg;
use ibapi::contracts::Contract;
use ibapi::contracts::SecurityType;
use ibapi::contracts::TagValue;
use ibapi::encoders::encode_request_head_timestamp;
use ibapi::encoders::encode_request_histogram_data;
use ibapi::encoders::encode_request_historical_data;
use ibapi::encoders::encode_request_historical_ticks;
use ibapi::encoders::DATE_FORMAT;
use ibapi::errors::Error;
use ibapi::historical::BarSize;
use ibapi::historical::Duration;
use ibapi::historical::ToDuration;
use ibapi::historical::WhatToShow;
use ibapi::messages::OutgoingMessages;
use ibapi::messages::RequestMessage;
use ibapi::server_versions;
use ibapi::timestamps::encode_timestamp;
use ibapi::timestamps::Timestamp;
use ibapi::ToField;
use time_tz::PrimitiveDateTimeExt;

fn timestamp_of(date_time: time::OffsetDateTime) -> Timestamp {
    Timestamp::new(
        date_time.year(),
        u8::from(date_time.month()),
        date_time.day(),
        date_time.hour(),
        date_time.minute(),
        date_time.second(),
        date_time.offset().whole_seconds(),
    )
}

fn civil(year: i32, month: time::Month, day: u8, hour: u8, minute: u8) -> time::PrimitiveDateTime {
    time::PrimitiveDateTime::new(
        time::Date::from_calendar_date(year, month, day).unwrap(),
        time::Time::from_hms(hour, minute, 0).unwrap(),
    )
}

fn texts(message: &RequestMessage) -> Vec<&str> {
    message.fields.iter().map(|field| field.as_str()).collect()
}

fn basket() -> Contract {
    let mut contract = Contract::stock("SPREAD");
    contract.security_type = SecurityType::Spread;
    contract.combo_legs = vec![
        ComboLeg { contract_id: 101, ratio: 1, action: "BUY".to_string(), exchange: "SMART".to_string() },
        ComboLeg { contract_id: 202, ratio: 2, action: "SELL".to_string(), exchange: "NYSE".to_string() },
    ];
    contract
}

#[test]
fn test_encode_request_head_timestamp() {
    let request_id = 9000;
    let contract = Contract::stock("MSFT");
    let what_to_show = WhatToShow::Trades;
    let use_rth = false;

    let message = encode_request_head_timestamp(request_id, &contract, what_to_show, use_rth).expect("error encoding request head timestamp");

    assert_eq!(message.fields[0], OutgoingMessages::RequestHeadTimestamp.to_field(), "message.type");
    assert_eq!(message.fields[1], request_id.to_field(), "message.request_id");
    assert_eq!(message.fields[2], contract.contract_id.to_field(), "message.contract_id");
    assert_eq!(message.fields[3], contract.symbol, "message.symbol");
    assert_eq!(message.fields[4], contract.security_type.to_field(), "message.security_type");
    assert_eq!(
        message.fields[5], contract.last_trade_date_or_contract_month,
        "message.last_trade_date_or_contract_month"
    );
    assert_eq!(message.fields[6], contract.strike.to_field(), "message.strike");
    assert_eq!(message.fields[7], contract.right, "message.right");
    assert_eq!(message.fields[8], contract.multiplier, "message.multiplier");
    assert_eq!(message.fields[9], contract.exchange, "message.exchange");
    assert_eq!(message.fields[10], contract.primary_exchange, "message.primary_exchange");
    assert_eq!(message.fields[11], contract.currency, "message.currency");
    assert_eq!(message.fields[12], contract.local_symbol, "message.local_symbol");
    assert_eq!(message.fields[13], contract.trading_class, "message.trading_class");
    assert_eq!(message.fields[14], contract.include_expired.to_field(), "message.include_expired");
    assert_eq!(message.fields[15], use_rth.to_field(), "message.use_rth");
    assert_eq!(message.fields[16], what_to_show.to_field(), "message.what_to_show");
    assert_eq!(message.fields[17], DATE_FORMAT.to_field(), "message.date_format");
}

#[test]
fn test_encode_request_historical_data() {
    let request_id = 9000;
    let contract = Contract::stock("MSFT");
    let end_date = Some(timestamp_of(civil(2023, time::Month::April, 10, 14, 0).assume_utc()));
    let duration = 30.days();
    let bar_size = BarSize::Day;
    let what_to_show: Option<WhatToShow> = None;
    let use_rth = false;
    let keep_up_to_date = true;
    let chart_options = Vec::<TagValue>::default();

    let message = encode_request_historical_data(
        server_versions::SYNT_REALTIME_BARS,
        request_id,
        &contract,
        end_date,
        duration,
        bar_size,
        what_to_show,
        use_rth,
        keep_up_to_date,
        chart_options,
    )
    .expect("error encoding historical data");

    assert_eq!(message.fields[0], OutgoingMessages::RequestHistoricalData.to_field(), "message.type");
    assert_eq!(message.fields[1], request_id.to_field(), "message.request_id");
    assert_eq!(message.fields[2], contract.contract_id.to_field(), "message.contract_id");
    assert_eq!(message.fields[3], contract.symbol, "message.symbol");
    assert_eq!(message.fields[4], contract.security_type.to_field(), "message.security_type");
    assert_eq!(
        message.fields[5], contract.last_trade_date_or_contract_month,
        "message.last_trade_date_or_contract_month"
    );
    assert_eq!(message.fields[6], contract.strike.to_field(), "message.strike");
    assert_eq!(message.fields[7], contract.right, "message.right");
    assert_eq!(message.fields[8], contract.multiplier, "message.multiplier");
    assert_eq!(message.fields[9], contract.exchange, "message.exchange");
    assert_eq!(message.fields[10], contract.primary_exchange, "message.primary_exchange");
    assert_eq!(message.fields[11], contract.currency, "message.currency");
    assert_eq!(message.fields[12], contract.local_symbol, "message.local_symbol");
    assert_eq!(message.fields[13], contract.trading_class, "message.trading_class");
    assert_eq!(message.fields[14], contract.include_expired.to_field(), "message.include_expired");
    assert_eq!(message.fields[15], encode_timestamp(&end_date).unwrap(), "message.end_date");
    assert_eq!(message.fields[16], bar_size.to_field(), "message.bar_size");
    assert_eq!(message.fields[17], duration.to_field(), "message.duration");
    assert_eq!(message.fields[18], use_rth.to_field(), "message.use_rth");
    assert_eq!(message.fields[19], what_to_show.to_field(), "message.what_to_show");
    assert_eq!(message.fields[20], DATE_FORMAT.to_field(), "message.date_format");

    let mut i: usize = 21;
    if contract.is_bag() {
        assert_eq!(message.fields[i], contract.combo_legs.len().to_field(), "message.combo_legs_count");
        i += 1;

        for combo_leg in &contract.combo_legs {
            assert_eq!(message.fields[i], combo_leg.contract_id.to_field(), "message.contract_id");
            i += 1;
            assert_eq!(message.fields[i], combo_leg.ratio.to_field(), "message.ratio");
            i += 1;
            assert_eq!(message.fields[i], combo_leg.action.to_field(), "message.action");
            i += 1;
            assert_eq!(message.fields[i], combo_leg.exchange.to_field(), "message.exchange");
            i += 1;
        }
    }

    assert_eq!(message.fields[i], keep_up_to_date.to_field(), "message.keep_up_to_date");
    assert_eq!(message.fields[i + 1], "", "message.chart_options");
}

#[test]
fn test_encode_interval() {
    let ny = time_tz::timezones::db::america::NEW_YORK;

    let empty_end: Option<Timestamp> = None;
    let valid_end_utc: Option<Timestamp> = Some(timestamp_of(civil(2023, time::Month::April, 15, 10, 0).assume_utc()));
    let valid_end_ny: Option<Timestamp> = Some(timestamp_of(civil(2023, time::Month::April, 15, 10, 0).assume_timezone(ny).unwrap()));

    assert_eq!(encode_timestamp(&empty_end).unwrap(), "", "encode empty end");
    assert_eq!(encode_timestamp(&valid_end_utc).unwrap(), "20230415 10:00:00 UTC", "encode end utc");
    assert_eq!(encode_timestamp(&valid_end_ny).unwrap(), "20230415 14:00:00 UTC", "encode end from America/NewYork");
}

#[test]
fn test_encode_request_historical_ticks() {
    let request_id = 9000;
    let contract = Contract::stock("MSFT");
    let start: Option<Timestamp> = Some(timestamp_of(civil(2023, time::Month::April, 10, 14, 0).assume_utc()));
    let end: Option<Timestamp> = None;
    let what_to_show = WhatToShow::Trades;
    let number_of_ticks = 100;
    let ignore_size = false;
    let use_rth = false;

    let message = encode_request_historical_ticks(request_id, &contract, start, end, number_of_ticks, what_to_show, use_rth, ignore_size)
        .expect("error encoding historical ticks");

    assert_eq!(message.fields[0], OutgoingMessages::RequestHistoricalTicks.to_field(), "message.type");
    assert_eq!(message.fields[1], request_id.to_field(), "message.request_id");
    assert_eq!(message.fields[2], contract.contract_id.to_field(), "message.contract_id");
    assert_eq!(message.fields[3], contract.symbol, "message.symbol");
    assert_eq!(message.fields[4], contract.security_type.to_field(), "message.security_type");
    assert_eq!(
        message.fields[5], contract.last_trade_date_or_contract_month,
        "message.last_trade_date_or_contract_month"
    );
    assert_eq!(message.fields[6], contract.strike.to_field(), "message.strike");
    assert_eq!(message.fields[7], contract.right, "message.right");
    assert_eq!(message.fields[8], contract.multiplier, "message.multiplier");
    assert_eq!(message.fields[9], contract.exchange, "message.exchange");
    assert_eq!(message.fields[10], contract.primary_exchange, "message.primary_exchange");
    assert_eq!(message.fields[11], contract.currency, "message.currency");
    assert_eq!(message.fields[12], contract.local_symbol, "message.local_symbol");
    assert_eq!(message.fields[13], contract.trading_class, "message.trading_class");
    assert_eq!(message.fields[14], contract.include_expired.to_field(), "message.include_expired");
    assert_eq!(message.fields[15], encode_timestamp(&start).unwrap(), "message.start");
    assert_eq!(message.fields[16], encode_timestamp(&end).unwrap(), "message.end");
    assert_eq!(message.fields[17], number_of_ticks.to_field(), "message.number_of_ticks");
    assert_eq!(message.fields[18], what_to_show.to_field(), "message.what_to_show");
    assert_eq!(message.fields[19], use_rth.to_field(), "message.use_rth");
    assert_eq!(message.fields[20], ignore_size.to_field(), "message.ignore_size");
    assert_eq!(message.fields[21], "", "message.misc_options");
}

#[test]
fn test_encode_request_histogram_data() {
    let request_id = 3000;
    let contract = Contract::stock("MSFT");
    let period = BarSize::Week;
    let use_rth = true;

    let message = encode_request_histogram_data(request_id, &contract, use_rth, period).expect("error encoding request histogram data");

    assert_eq!(message.fields[0], OutgoingMessages::RequestHistogramData.to_field(), "message.message_type");
    assert_eq!(message.fields[1], request_id.to_field(), "message.request_id");
    assert_eq!(message.fields[2], contract.contract_id.to_field(), "message.contract_id");
    assert_eq!(message.fields[3], contract.symbol, "message.symbol");
    assert_eq!(message.fields[4], contract.security_type.to_field(), "message.security_type");
    assert_eq!(
        message.fields[5], contract.last_trade_date_or_contract_month,
        "message.last_trade_date_or_contract_month"
    );
    assert_eq!(message.fields[6], contract.strike.to_field(), "message.strike");
    assert_eq!(message.fields[7], contract.right, "message.right");
    assert_eq!(message.fields[8], contract.multiplier, "message.multiplier");
    assert_eq!(message.fields[9], contract.exchange, "message.exchange");
    assert_eq!(message.fields[10], contract.primary_exchange, "message.primary_exchange");
    assert_eq!(message.fields[11], contract.currency, "message.currency");
    assert_eq!(message.fields[12], contract.local_symbol, "message.local_symbol");
    assert_eq!(message.fields[13], contract.trading_class, "message.trading_class");
    assert_eq!(message.fields[14], contract.include_expired.to_field(), "message.include_expired");
    assert_eq!(message.fields[15], use_rth.to_field(), "message.use_rth");
    assert_eq!(message.fields[16], period.to_field(), "message.duration");
}

#[test]
fn head_timestamp_request_has_exact_fields() {
    let message = encode_request_head_timestamp(9000, &Contract::stock("MSFT"), WhatToShow::Trades, false).unwrap();
    assert_eq!(
        texts(&message),
        vec!["87", "9000", "0", "MSFT", "STK", "", "0", "", "", "SMART", "", "USD", "", "", "0", "0", "TRADES", "2"]
    );
}

#[test]
fn histogram_request_has_exact_fields() {
    let message = encode_request_histogram_data(3000, &Contract::stock("MSFT"), true, BarSize::Week).unwrap();
    assert_eq!(
        texts(&message),
        vec!["88", "3000", "0", "MSFT", "STK", "", "0", "", "", "SMART", "", "USD", "", "", "0", "1", "1 week"]
    );
}

#[test]
fn historical_ticks_request_has_exact_fields() {
    let start = Some(Timestamp::utc(2023, 4, 10, 14, 0, 0));
    let end = Some(Timestamp::new(2023, 4, 10, 18, 30, 15, 2 * 3600));
    let message = encode_request_historical_ticks(9000, &Contract::stock("MSFT"), start, end, 100, WhatToShow::BidAsk, true, false).unwrap();
    assert_eq!(
        texts(&message),
        vec![
            "96", "9000", "0", "MSFT", "STK", "", "0", "", "", "SMART", "", "USD", "", "", "0",
            "20230410 14:00:00 UTC", "20230410 16:30:15 UTC", "100", "BID_ASK", "1", "0", "",
        ]
    );
}

#[test]
fn stock_at_realtime_bar_threshold() {
    let message = encode_request_historical_data(
        server_versions::SYNT_REALTIME_BARS,
        9000,
        &Contract::stock("MSFT"),
        Some(Timestamp::utc(2023, 4, 10, 14, 0, 0)),
        Duration::days(30),
        BarSize::Day,
        None,
        false,
        true,
        Vec::new(),
    )
    .unwrap();
    assert_eq!(
        texts(&message),
        vec![
            "20", "9000", "0", "MSFT", "STK", "", "0", "", "", "SMART", "", "USD", "", "", "0",
            "20230410 14:00:00 UTC", "1 day", "30 D", "0", "", "2", "1", "",
        ]
    );
    // no message version, contract id present, keep streaming present, options present and empty
    assert_eq!(message.fields[1], "9000");
    assert_eq!(message.fields[2], "0");
    assert_eq!(message.fields[13], "");
    assert_eq!(message.fields[21], "1");
    assert_eq!(message.fields[22], "");
    assert_eq!(message.fields.len(), 23);
}

#[test]
fn basket_below_every_threshold() {
    let contract = basket();
    let message = encode_request_historical_data(
        server_versions::TRADING_CLASS - 1,
        9000,
        &contract,
        None,
        Duration::weeks(2),
        BarSize::Hour,
        Some(WhatToShow::MidPoint),
        true,
        true,
        vec![TagValue { tag: "a".to_string(), value: "b".to_string() }],
    )
    .unwrap();
    assert_eq!(
        texts(&message),
        vec![
            "20", "6", "9000", "SPREAD", "BAG", "", "0", "", "", "SMART", "", "USD", "", "0", "", "1 hour",
            "2 W", "1", "MIDPOINT", "2", "2", "101", "1", "BUY", "SMART", "202", "2", "SELL", "NYSE",
        ]
    );
}

#[test]
fn basket_above_every_threshold() {
    let contract = basket();
    let message = encode_request_historical_data(
        server_versions::SYNT_REALTIME_BARS + 10,
        9000,
        &contract,
        None,
        Duration::weeks(2),
        BarSize::Hour,
        Some(WhatToShow::MidPoint),
        true,
        false,
        vec![
            TagValue { tag: "a".to_string(), value: "b".to_string() },
            TagValue { tag: "c".to_string(), value: "d".to_string() },
        ],
    )
    .unwrap();
    assert_eq!(
        texts(&message),
        vec![
            "20", "9000", "0", "SPREAD", "BAG", "", "0", "", "", "SMART", "", "USD", "", "", "0", "", "1 hour",
            "2 W", "1", "MIDPOINT", "2", "2", "101", "1", "BUY", "SMART", "202", "2", "SELL", "NYSE", "0",
            "a=b;c=d;",
        ]
    );
}

#[test]
fn crossing_a_threshold_moves_only_the_fields_behind_it() {
    let encode = |server_version: i32| {
        encode_request_historical_data(
            server_version,
            9000,
            &Contract::stock("MSFT"),
            None,
            Duration::days(1),
            BarSize::Min,
            Some(WhatToShow::Trades),
            false,
            false,
            Vec::new(),
        )
        .unwrap()
    };
    let below = encode(server_versions::TRADING_CLASS - 1);
    let at = encode(server_versions::TRADING_CLASS);
    // two fields appear: the contract id at index 3 and the trading class at index 14
    assert_eq!(at.fields.len(), below.fields.len() + 2);
    assert_eq!(at.fields[..3], below.fields[..3]);
    assert_eq!(at.fields[3], "0");
    assert_eq!(at.fields[4..14], below.fields[3..13]);
    assert_eq!(at.fields[14], "");
    assert_eq!(at.fields[15..], below.fields[13..]);

    let linked = encode(server_versions::LINKING);
    assert_eq!(linked.fields.len(), at.fields.len() + 1);
    assert_eq!(linked.fields[..at.fields.len()], at.fields[..]);
    assert_eq!(linked.fields[at.fields.len()], "");

    let streaming = encode(server_versions::SYNT_REALTIME_BARS);
    // the message version at index 1 goes, the keep streaming field comes before the options
    assert_eq!(streaming.fields.len(), linked.fields.len());
    assert_eq!(linked.fields[1], "6");
    assert_eq!(streaming.fields[1..21], linked.fields[2..22]);
    assert_eq!(streaming.fields[21], "0");
    assert_eq!(streaming.fields[22], linked.fields[22]);

    // between thresholds nothing changes
    assert_eq!(encode(server_versions::LINKING + 1).fields, encode(server_versions::SYNT_REALTIME_BARS - 1).fields);
}

#[test]
fn malformed_end_date_is_refused() {
    let not_a_day = Some(Timestamp::utc(2023, 2, 29, 10, 0, 0));
    let result = encode_request_historical_data(
        server_versions::SYNT_REALTIME_BARS,
        9000,
        &Contract::stock("MSFT"),
        not_a_day,
        Duration::days(1),
        BarSize::Day,
        None,
        false,
        false,
        Vec::new(),
    );
    match result {
        Err(Error::InvalidArgument(reason)) => assert_eq!(reason, "timestamp is not a date and time that can be sent"),
        _ => panic!("expected an invalid argument"),
    }
}

#[test]
fn malformed_tick_interval_is_refused() {
    let good = Some(Timestamp::utc(2023, 4, 10, 14, 0, 0));
    let bad = Some(Timestamp::utc(2023, 4, 10, 24, 0, 0));
    let contract = Contract::stock("MSFT");
    assert!(matches!(
        encode_request_historical_ticks(1, &contract, bad, good, 1, WhatToShow::Trades, false, false),
        Err(Error::InvalidArgument(_))
    ));
    assert!(matches!(
        encode_request_historical_ticks(1, &contract, good, bad, 1, WhatToShow::Trades, false, false),
        Err(Error::InvalidArgument(_))
    ));
    assert!(encode_request_historical_ticks(1, &contract, good, good, 1, WhatToShow::Trades, false, false).is_ok());
}

#[test]
fn field_count_follows_the_thresholds_and_the_legs() {
    let count = |server_version: i32, contract: &Contract| {
        encode_request_historical_data(
            server_version,
            1,
            contract,
            None,
            Duration::days(1),
            BarSize::Day,
            None,
            false,
            false,
            Vec::new(),
        )
        .unwrap()
        .len()
    };
    let stock = Contract::stock("MSFT");
    assert_eq!(count(0, &stock), 20);
    assert_eq!(count(server_versions::TRADING_CLASS - 1, &stock), 20);
    assert_eq!(count(server_versions::TRADING_CLASS, &stock), 22);
    assert_eq!(count(server_versions::LINKING, &stock), 23);
    assert_eq!(count(server_versions::SYNT_REALTIME_BARS - 1, &stock), 23);
    assert_eq!(count(server_versions::SYNT_REALTIME_BARS, &stock), 23);
    assert_eq!(count(i32::MAX, &stock), 23);
    assert_eq!(count(i32::MIN, &stock), 20);
    let basket = basket();
    assert_eq!(count(0, &basket), 29);
    assert_eq!(count(server_versions::SYNT_REALTIME_BARS, &basket), 32);
    let mut empty_basket = basket.clone();
    empty_basket.combo_legs.clear();
    assert_eq!(count(0, &empty_basket), 21);
    // legs of a contract that is no combination are not sent
    let mut stock_with_legs = basket.clone();
    stock_with_legs.security_type = SecurityType::Stock;
    assert_eq!(count(0, &stock_with_legs), 20);
}
