//! Wire messages: an ordered sequence of text fields whose first field is the
//! numeric message type. Fields have no names; position is the schema.

use vstd::prelude::*;
use vstd::string::StringExecFns;
use vstd::string::StrSliceExecFns;

use crate::errors::Error;
use crate::fields::decimal_text;
use crate::fields::i32_value;
use crate::fields::parse_i32;
use crate::fields::ToField;

verus! {

/// Types of the requests sent to the server.
#[derive(Debug, Clone, Copy, PartialEq, Eq, Structural)]
pub enum OutgoingMessages {
    RequestMarketData,
    CancelMarketData,
    RequestMarketDepth,
    CancelMarketDepth,
    RequestHistoricalData,
    CancelHistoricalData,
    RequestRealTimeBars,
    CancelRealTimeBars,
    RequestPositions,
    CancelPositions,
    RequestPositionsMulti,
    CancelPositionsMulti,
    RequestHeadTimestamp,
    RequestHistogramData,
    CancelHistogramData,
    CancelHeadTimestamp,
    RequestHistoricalTicks,
    RequestTickByTickData,
    CancelTickByTickData,
}

impl OutgoingMessages {
    /// The number that identifies the request type on the wire.
    pub open spec fn spec_code(self) -> int {
        match self {
            OutgoingMessages::RequestMarketData => 1,
            OutgoingMessages::CancelMarketData => 2,
            OutgoingMessages::RequestMarketDepth => 10,
            OutgoingMessages::CancelMarketDepth => 11,
            OutgoingMessages::RequestHistoricalData => 20,
            OutgoingMessages::CancelHistoricalData => 25,
            OutgoingMessages::RequestRealTimeBars => 50,
            OutgoingMessages::CancelRealTimeBars => 51,
            OutgoingMessages::RequestPositions => 61,
            OutgoingMessages::CancelPositions => 64,
            OutgoingMessages::RequestPositionsMulti => 74,
            OutgoingMessages::CancelPositionsMulti => 75,
            OutgoingMessages::RequestHeadTimestamp => 87,
            OutgoingMessages::RequestHistogramData => 88,
            OutgoingMessages::CancelHistogramData => 89,
            OutgoingMessages::CancelHeadTimestamp => 90,
            OutgoingMessages::RequestHistoricalTicks => 96,
            OutgoingMessages::RequestTickByTickData => 97,
            OutgoingMessages::CancelTickByTickData => 98,
        }
    }

    /// The number that identifies the request type on the wire.
    pub fn code(self) -> (code: i32)
        ensures
            code == self.spec_code(),
    {
        match self {
            OutgoingMessages::RequestMarketData => 1,
            OutgoingMessages::CancelMarketData => 2,
            OutgoingMessages::RequestMarketDepth => 10,
            OutgoingMessages::CancelMarketDepth => 11,
            OutgoingMessages::RequestHistoricalData => 20,
            OutgoingMessages::CancelHistoricalData => 25,
            OutgoingMessages::RequestRealTimeBars => 50,
            OutgoingMessages::CancelRealTimeBars => 51,
            OutgoingMessages::RequestPositions => 61,
            OutgoingMessages::CancelPositions => 64,
            OutgoingMessages::RequestPositionsMulti => 74,
            OutgoingMessages::CancelPositionsMulti => 75,
            OutgoingMessages::RequestHeadTimestamp => 87,
            OutgoingMessages::RequestHistogramData => 88,
            OutgoingMessages::CancelHistogramData => 89,
            OutgoingMessages::CancelHeadTimestamp => 90,
            OutgoingMessages::RequestHistoricalTicks => 96,
            OutgoingMessages::RequestTickByTickData => 97,
            OutgoingMessages::CancelTickByTickData => 98,
        }
    }
}

impl ToField for OutgoingMessages {
    open spec fn field_text(&self) -> Seq<char> {
        decimal_text(self.spec_code())
    }

    fn to_field(&self) -> (text: String) {
        self.code().to_field()
    }
}

/// Types of the responses that the server sends.
#[derive(Debug, Clone, Copy, PartialEq, Eq, Structural)]
pub enum IncomingMessages {
    NotValid,
    Error,
    MarketDepth,
    MarketDepthL2,
    HistoricalData,
    RealTimeBars,
    Position,
    PositionEnd,
    HeadTimestamp,
    HistogramData,
    HistoricalDataUpdate,
    HistoricalTick,
    HistoricalTickBidAsk,
    HistoricalTickLast,
    TickByTick,
}

impl IncomingMessages {
    /// The response type that a number on the wire stands for; `NotValid`
    /// for a number that stands for none.
    pub open spec fn spec_from_code(code: int) -> IncomingMessages {
        if code == 4 {
            IncomingMessages::Error
        } else if code == 12 {
            IncomingMessages::MarketDepth
        } else if code == 13 {
            IncomingMessages::MarketDepthL2
        } else if code == 17 {
            IncomingMessages::HistoricalData
        } else if code == 50 {
            IncomingMessages::RealTimeBars
        } else if code == 61 {
            IncomingMessages::Position
        } else if code == 62 {
            IncomingMessages::PositionEnd
        } else if code == 88 {
            IncomingMessages::HeadTimestamp
        } else if code == 89 {
            IncomingMessages::HistogramData
        } else if code == 90 {
            IncomingMessages::HistoricalDataUpdate
        } else if code == 96 {
            IncomingMessages::HistoricalTick
        } else if code == 97 {
            IncomingMessages::HistoricalTickBidAsk
        } else if code == 98 {
            IncomingMessages::HistoricalTickLast
        } else if code == 99 {
            IncomingMessages::TickByTick
        } else {
            IncomingMessages::NotValid
        }
    }

    /// The response type that a number on the wire stands for.
    pub fn from_code(code: i32) -> (kind: IncomingMessages)
        ensures
            kind == Self::spec_from_code(code as int),
    {
        if code == 4 {
            IncomingMessages::Error
        } else if code == 12 {
            IncomingMessages::MarketDepth
        } else if code == 13 {
            IncomingMessages::MarketDepthL2
        } else if code == 17 {
            IncomingMessages::HistoricalData
        } else if code == 50 {
            IncomingMessages::RealTimeBars
        } else if code == 61 {
            IncomingMessages::Position
        } else if code == 62 {
            IncomingMessages::PositionEnd
        } else if code == 88 {
            IncomingMessages::HeadTimestamp
        } else if code == 89 {
            IncomingMessages::HistogramData
        } else if code == 90 {
            IncomingMessages::HistoricalDataUpdate
        } else if code == 96 {
            IncomingMessages::HistoricalTick
        } else if code == 97 {
            IncomingMessages::HistoricalTickBidAsk
        } else if code == 98 {
            IncomingMessages::HistoricalTickLast
        } else if code == 99 {
            IncomingMessages::TickByTick
        } else {
            IncomingMessages::NotValid
        }
    }
}

/// The texts of a vector of fields.
pub open spec fn texts(fields: Seq<String>) -> Seq<Seq<char>> {
    Seq::new(fields.len(), |i: int| fields[i]@)
}

/// A request on its way to the server: its fields in wire order.
#[derive(Debug, Clone)]
pub struct RequestMessage {
    pub fields: Vec<String>,
}

impl View for RequestMessage {
    type V = Seq<Seq<char>>;

    open spec fn view(&self) -> Seq<Seq<char>> {
        texts(self.fields@)
    }
}

impl RequestMessage {
    /// A request without fields.
    pub fn new() -> (message: RequestMessage)
        ensures
            message@ == Seq::<Seq<char>>::empty(),
    {
        let message = RequestMessage { fields: Vec::new() };
        assert(message@ =~= Seq::<Seq<char>>::empty());
        message
    }

    /// Appends the text of `value` as the next field.
    pub fn push_field<T: ToField>(&mut self, value: &T)
        ensures
            final(self)@ == old(self)@.push(value.field_text()),
    {
        let text = value.to_field();
        self.fields.push(text);
        assert(self@ =~= old(self)@.push(value.field_text()));
    }

    /// The number of fields.
    pub fn len(&self) -> (count: usize)
        ensures
            count == self@.len(),
    {
        self.fields.len()
    }

    /// Whether the request has no fields.
    pub fn is_empty(&self) -> (empty: bool)
        ensures
            empty == (self@.len() == 0),
    {
        self.fields.len() == 0
    }

    /// The record as it is framed for transport: every field followed by a
    /// NUL character.
    pub fn encode(&self) -> (record: String)
        ensures
            record@ == framed(self@),
    {
        let mut record = String::new();
        let mut i: usize = 0;
        proof {
            assert(self@.take(0) =~= Seq::<Seq<char>>::empty());
        }
        while i < self.fields.len()
            invariant
                i <= self.fields.len(),
                record@ == framed(self@.take(i as int)),
            decreases self.fields.len() - i,
        {
            proof {
                reveal_strlit("\0");
                let next = self@.take(i + 1);
                assert(next.drop_last() =~= self@.take(i as int));
                assert(next.last() == self.fields[i as int]@);
            }
            record.append(self.fields[i].as_str());
            record.append("\0");
            i += 1;
            assert(record@ =~= framed(self@.take(i as int)));
        }
        assert(self@.take(i as int) =~= self@);
        record
    }
}

/// The transport framing of a sequence of fields: each field followed by a
/// NUL character.
pub open spec fn framed(fields: Seq<Seq<char>>) -> Seq<char>
    decreases fields.len(),
{
    if fields.len() == 0 {
        Seq::empty()
    } else {
        framed(fields.drop_last()) + fields.last() + seq!['\0']
    }
}

/// The pieces of `text` between occurrences of `delimiter`: one more piece
/// than there are delimiters, empty pieces included.
pub open spec fn split_text(text: Seq<char>, delimiter: char) -> Seq<Seq<char>>
    decreases text.len(),
{
    if text.len() == 0 {
        seq![Seq::<char>::empty()]
    } else {
        let before = split_text(text.drop_last(), delimiter);
        if text.last() == delimiter {
            before.push(Seq::<char>::empty())
        } else {
            before.drop_last().push(before.last().push(text.last()))
        }
    }
}

/// Splits `text` at every occurrence of `delimiter`.
pub fn split_fields(text: &str, delimiter: char) -> (pieces: Vec<String>)
    ensures
        texts(pieces@) == split_text(text@, delimiter),
{
    let length: usize = text.unicode_len();
    let mut pieces: Vec<String> = Vec::new();
    let mut start: usize = 0;
    let mut i: usize = 0;
    proof {
        assert(text@.take(0) =~= Seq::<char>::empty());
        assert(texts(pieces@).push(text@.subrange(0, 0)) =~= seq![Seq::<char>::empty()]);
    }
    while i < length
        invariant
            length == text@.len(),
            start <= i <= length,
            texts(pieces@).push(text@.subrange(start as int, i as int)) == split_text(
                text@.take(i as int),
                delimiter,
            ),
        decreases length - i,
    {
        let c: char = text.get_char(i);
        proof {
            let grown = text@.take(i + 1);
            assert(grown.drop_last() =~= text@.take(i as int));
            assert(grown.last() == c);
        }
        if c == delimiter {
            let piece = String::from_str(text.substring_char(start, i));
            let ghost before = texts(pieces@);
            let ghost piece_start: int = start as int;
            pieces.push(piece);
            start = i + 1;
            proof {
                assert(texts(pieces@) =~= before.push(text@.subrange(piece_start, i as int)));
                assert(text@.subrange(start as int, i + 1) =~= Seq::<char>::empty());
            }
        } else {
            proof {
                let before = texts(pieces@).push(text@.subrange(start as int, i as int));
                assert(before.drop_last() =~= texts(pieces@));
                assert(text@.subrange(start as int, i + 1) =~= text@.subrange(
                    start as int,
                    i as int,
                ).push(c));
            }
        }
        i += 1;
    }
    let ghost before = texts(pieces@);
    pieces.push(String::from_str(text.substring_char(start, length)));
    proof {
        assert(text@.take(length as int) =~= text@);
        assert(texts(pieces@) =~= before.push(text@.subrange(start as int, length as int)));
    }
    pieces
}

/// A response as it was received: its fields in wire order, and a cursor
/// that marks the next field to read.
#[derive(Debug, Clone)]
pub struct ResponseMessage {
    pub i: usize,
    pub fields: Vec<String>,
}

impl View for ResponseMessage {
    type V = Seq<Seq<char>>;

    open spec fn view(&self) -> Seq<Seq<char>> {
        texts(self.fields@)
    }
}

impl ResponseMessage {
    /// A response with the given fields and the cursor on the first.
    pub fn new(fields: Vec<String>) -> (message: ResponseMessage)
        ensures
            message.fields == fields,
            message.i == 0,
    {
        ResponseMessage { i: 0, fields }
    }

    /// Reads a record whose fields are separated by NUL characters.
    pub fn from(record: &str) -> (message: ResponseMessage)
        ensures
            message@ == split_text(record@, '\0'),
            message.i == 0,
    {
        ResponseMessage { i: 0, fields: split_fields(record, '\0') }
    }

    /// Reads a record whose fields are separated by `|`.
    pub fn from_simple(record: &str) -> (message: ResponseMessage)
        ensures
            message@ == split_text(record@, '|'),
            message.i == 0,
    {
        ResponseMessage { i: 0, fields: split_fields(record, '|') }
    }

    /// The number of fields.
    pub fn len(&self) -> (count: usize)
        ensures
            count == self@.len(),
    {
        self.fields.len()
    }

    /// Whether the response has no fields.
    pub fn is_empty(&self) -> (empty: bool)
        ensures
            empty == (self@.len() == 0),
    {
        self.fields.len() == 0
    }

    /// Whether the cursor has passed the last field.
    pub fn is_exhausted(&self) -> (done: bool)
        ensures
            done == (self.i >= self@.len()),
    {
        self.i >= self.fields.len()
    }

    /// The type of the response, read from its first field; `NotValid` where
    /// there is none or it is no number.
    pub fn message_type(&self) -> (kind: IncomingMessages)
        ensures
            kind == message_type_of(self@),
    {
        if self.fields.len() == 0 {
            IncomingMessages::NotValid
        } else {
            match parse_i32(self.fields[0].as_str()) {
                Some(code) => IncomingMessages::from_code(code),
                None => IncomingMessages::NotValid,
            }
        }
    }

    /// Moves the cursor over one field without reading it.
    pub fn skip(&mut self)
        ensures
            final(self).fields == old(self).fields,
            old(self).i < old(self)@.len() ==> final(self).i == old(self).i + 1,
            old(self).i >= old(self)@.len() ==> final(self).i == old(self).i,
    {
        if self.i < self.fields.len() {
            self.i += 1;
        }
    }

    /// The text of the field at `index`, the cursor left where it is.
    pub fn peek_string(&self, index: usize) -> (field: Option<String>)
        ensures
            index < self@.len() ==> field is Some && field->0@ == self@[index as int],
            index >= self@.len() ==> field is None,
    {
        if index < self.fields.len() {
            Some(self.fields[index].clone())
        } else {
            None
        }
    }

    /// Reads the field under the cursor as text and moves the cursor on.
    /// Past the last field the read fails and the cursor stays.
    pub fn next_string(&mut self) -> (field: Result<String, Error>)
        ensures
            final(self).fields == old(self).fields,
            old(self).i < old(self)@.len() ==> final(self).i == old(self).i + 1,
            old(self).i < old(self)@.len() ==> field is Ok,
            old(self).i < old(self)@.len() ==> field->Ok_0@ == old(self)@[old(self).i as int],
            old(self).i >= old(self)@.len() ==> final(self).i == old(self).i,
            old(self).i >= old(self)@.len() ==> field == Err::<String, Error>(
                Error::UnexpectedEndOfStream,
            ),
    {
        if self.i < self.fields.len() {
            let text = self.fields[self.i].clone();
            self.i += 1;
            Ok(text)
        } else {
            Err(Error::UnexpectedEndOfStream)
        }
    }

    /// Reads the field under the cursor as a 32-bit integer and moves the
    /// cursor on. Past the last field the read fails and the cursor stays; a
    /// field that is no such integer fails too, with the cursor moved on.
    pub fn next_int(&mut self) -> (field: Result<i32, Error>)
        ensures
            final(self).fields == old(self).fields,
            old(self).i >= old(self)@.len() ==> final(self).i == old(self).i,
            old(self).i >= old(self)@.len() ==> field == Err::<i32, Error>(
                Error::UnexpectedEndOfStream,
            ),
            old(self).i < old(self)@.len() ==> final(self).i == old(self).i + 1,
            old(self).i < old(self)@.len() ==> read_as_int(
                old(self)@[old(self).i as int],
                old(self).i,
                field,
            ),
    {
        if self.i < self.fields.len() {
            let at: usize = self.i;
            self.i += 1;
            match parse_i32(self.fields[at].as_str()) {
                Some(v) => Ok(v),
                None => Err(
                    Error::Parse(at, self.fields[at].clone(), String::from_str("not an integer")),
                ),
            }
        } else {
            Err(Error::UnexpectedEndOfStream)
        }
    }
}

/// Whether `field` is what reading `text`, the field at `position`, as a
/// 32-bit integer gives: its value, or a parse error that names the position
/// and the text.
pub open spec fn read_as_int(text: Seq<char>, position: usize, field: Result<i32, Error>) -> bool {
    match i32_value(text) {
        Some(v) => field == Ok::<i32, Error>(v),
        None => field matches Err(Error::Parse(at, found, reason)) && at == position && found@
            == text && reason@ == "not an integer"@,
    }
}

/// The type of a response with the given fields.
pub open spec fn message_type_of(fields: Seq<Seq<char>>) -> IncomingMessages {
    if fields.len() == 0 {
        IncomingMessages::NotValid
    } else {
        match i32_value(fields[0]) {
            Some(code) => IncomingMessages::spec_from_code(code as int),
            None => IncomingMessages::NotValid,
        }
    }
}

} // verus!
