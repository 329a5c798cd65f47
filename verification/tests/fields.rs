use ibapi::contracts::TagValue;
use ibapi::fields::decimal_string;
use ibapi::fields::parse_i32;
use ibapi::historical::BarSize;
use ibapi::historical::Duration;
use ibapi::historical::ToDuration;
use ibapi::historical::WhatToShow;
use ibapi::messages::split_fields;
use ibapi::messages::IncomingMessages;
use ibapi::messages::OutgoingMessages;
use ibapi::messages::RequestMessage;
use ibapi::messages::ResponseMessage;
use ibapi::errors::Error;
use ibapi::ToField;

#[test]
fn integers_are_written_in_decimal() {
    assert_eq!(0.to_field(), "0");
    assert_eq!(7.to_field(), "7");
    assert_eq!(9000.to_field(), "9000");
    assert_eq!((-1).to_field(), "-1");
    assert_eq!(i32::MAX.to_field(), "2147483647");
    assert_eq!(i32::MIN.to_field(), "-2147483648");
    assert_eq!(decimal_string(i64::MIN), "-9223372036854775808");
    assert_eq!(decimal_string(i64::MAX), "9223372036854775807");
    assert_eq!(12usize.to_field(), "12");
}

#[test]
fn booleans_are_one_and_zero() {
    assert_eq!(true.to_field(), "1");
    assert_eq!(false.to_field(), "0");
}

#[test]
fn text_is_written_as_it_is() {
    assert_eq!("MSFT".to_field(), "MSFT");
    assert_eq!("MSFT".to_string().to_field(), "MSFT");
    assert_eq!(Some(5).to_field(), "5");
    assert_eq!(None::<i32>.to_field(), "");
}

#[test]
fn parameters_have_their_wire_names() {
    assert_eq!(BarSize::Sec5.to_field(), "5 secs");
    assert_eq!(BarSize::Min.to_field(), "1 min");
    assert_eq!(BarSize::Hour8.to_field(), "8 hours");
    assert_eq!(BarSize::Month.to_field(), "1 month");
    assert_eq!(WhatToShow::AdjustedLast.to_field(), "ADJUSTED_LAST");
    assert_eq!(Some(WhatToShow::Bid).to_field(), "BID");
    assert_eq!(None::<WhatToShow>.to_field(), "");
    assert_eq!(30.days().to_field(), "30 D");
    assert_eq!(Duration::seconds(3600).to_field(), "3600 S");
    assert_eq!(2.weeks().to_field(), "2 W");
    assert_eq!(6.months().to_field(), "6 M");
    assert_eq!(1.years().to_field(), "1 Y");
    assert_eq!(OutgoingMessages::RequestHistoricalData.to_field(), "20");
    assert_eq!(OutgoingMessages::CancelHistoricalData.code(), 25);
}

#[test]
fn option_lists_are_tag_value_pairs() {
    assert_eq!(Vec::<TagValue>::new().to_field(), "");
    let options = vec![
        TagValue { tag: "XYZ".to_string(), value: "1".to_string() },
        TagValue { tag: "ABC".to_string(), value: "".to_string() },
    ];
    assert_eq!(options.to_field(), "XYZ=1;ABC=;");
}

#[test]
fn integers_are_parsed_from_decimal() {
    assert_eq!(parse_i32("0"), Some(0));
    assert_eq!(parse_i32("42"), Some(42));
    assert_eq!(parse_i32("-42"), Some(-42));
    assert_eq!(parse_i32("+42"), Some(42));
    assert_eq!(parse_i32("007"), Some(7));
    assert_eq!(parse_i32("2147483647"), Some(i32::MAX));
    assert_eq!(parse_i32("-2147483648"), Some(i32::MIN));
    assert_eq!(parse_i32("2147483648"), None);
    assert_eq!(parse_i32("-2147483649"), None);
    assert_eq!(parse_i32("99999999999999999999999999"), None);
    assert_eq!(parse_i32(""), None);
    assert_eq!(parse_i32("-"), None);
    assert_eq!(parse_i32("+"), None);
    assert_eq!(parse_i32("12a"), None);
    assert_eq!(parse_i32("1 2"), None);
    assert_eq!(parse_i32("--1"), None);
}

#[test]
fn parsing_reads_back_what_was_written() {
    for n in [0, 1, -1, 10, -10, 9000, 123456789, i32::MAX, i32::MIN] {
        assert_eq!(parse_i32(&n.to_field()), Some(n));
    }
}

#[test]
fn requests_are_framed_with_nul() {
    let mut message = RequestMessage::new();
    assert!(message.is_empty());
    assert_eq!(message.encode(), "");
    message.push_field(&20);
    message.push_field(&"MSFT");
    message.push_field(&"");
    message.push_field(&true);
    assert_eq!(message.len(), 4);
    assert_eq!(message.encode(), "20\0MSFT\0\01\0");
}

#[test]
fn records_are_split_at_every_delimiter() {
    assert_eq!(split_fields("", '|'), vec![""]);
    assert_eq!(split_fields("test", '|'), vec!["test"]);
    assert_eq!(split_fields("a|b", '|'), vec!["a", "b"]);
    assert_eq!(split_fields("a||b|", '|'), vec!["a", "", "b", ""]);
    assert_eq!(split_fields("|", '|'), vec!["", ""]);
    assert_eq!(ResponseMessage::from("17\09000\0x\0").fields, vec!["17", "9000", "x", ""]);
}

#[test]
fn responses_are_read_field_by_field() {
    let mut message = ResponseMessage::from_simple("17|9000|MSFT|x1");
    assert_eq!(message.len(), 4);
    assert_eq!(message.message_type(), IncomingMessages::HistoricalData);
    message.skip();
    assert_eq!(message.next_int().unwrap(), 9000);
    assert_eq!(message.peek_string(2), Some("MSFT".to_string()));
    assert_eq!(message.next_string().unwrap(), "MSFT");
    match message.next_int() {
        Err(Error::Parse(at, text, _)) => {
            assert_eq!(at, 3);
            assert_eq!(text, "x1");
        }
        _ => panic!("expected a parse error"),
    }
    assert!(message.is_exhausted());
    assert!(matches!(message.next_string(), Err(Error::UnexpectedEndOfStream)));
    assert!(matches!(message.next_int(), Err(Error::UnexpectedEndOfStream)));
    assert_eq!(message.peek_string(4), None);
    message.skip();
    assert_eq!(message.i, 4);
}

#[test]
fn message_types_are_read_from_the_first_field() {
    assert_eq!(ResponseMessage::from_simple("4|2|error").message_type(), IncomingMessages::Error);
    assert_eq!(ResponseMessage::from_simple("99|1").message_type(), IncomingMessages::TickByTick);
    assert_eq!(ResponseMessage::from_simple("1000").message_type(), IncomingMessages::NotValid);
    assert_eq!(ResponseMessage::from_simple("abc").message_type(), IncomingMessages::NotValid);
    assert_eq!(ResponseMessage::new(Vec::new()).message_type(), IncomingMessages::NotValid);
    assert_eq!(IncomingMessages::from_code(62), IncomingMessages::PositionEnd);
}

#[test]
fn failures_describe_themselves() {
    assert_eq!(Error::NotImplemented.description(), "not implemented");
    assert_eq!(Error::InvalidArgument("bad date".to_string()).description(), "invalid argument: bad date");
    assert_eq!(Error::Parse(3, "x1".to_string(), "not an integer".to_string()).description(), "parse error: not an integer");
    assert_eq!(Error::ConnectionFailed.description(), "connection failed");
    assert_eq!(Error::ConnectionReset.description(), "connection reset");
    assert_eq!(Error::Cancelled.description(), "cancelled");
    assert_eq!(Error::Shutdown.description(), "shutdown");
    assert_eq!(Error::EndOfStream.description(), "end of stream");
    assert_eq!(Error::UnexpectedResponse(ResponseMessage::from_simple("x")).description(), "unexpected response");
    assert_eq!(Error::UnexpectedEndOfStream.description(), "unexpected end of stream");
    assert_eq!(Error::Message(200, "no security definition".to_string()).description(), "no security definition");
    assert_eq!(Error::Simple("plain".to_string()).description(), "plain");
}
