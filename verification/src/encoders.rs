//! Encoders of the historical market data requests.
//!
//! Each encoder turns a request into its fields in wire order. The field set
//! of the historical data request depends on the server version; its layout
//! is stated once, as a list of gated slots, and the encoder is proved to
//! produce the rendering of that layout.

use vstd::prelude::*;

use crate::contracts::contract_fields;
use crate::contracts::tag_values_text;
use crate::contracts::ComboLeg;
use crate::contracts::Contract;
use crate::contracts::TagValue;
use crate::errors::Error;
use crate::fields::bool_text;
use crate::fields::decimal_text;
use crate::fields::natural_text;
use crate::fields::ToField;
use crate::historical::BarSize;
use crate::historical::Duration;
use crate::historical::WhatToShow;
use crate::layout::always;
use crate::layout::at_least;
use crate::layout::below;
use crate::layout::lemma_rendered_concat;
use crate::layout::lemma_rendered_single;
use crate::layout::lemma_ungated_renders_whole;
use crate::layout::rendered;
use crate::layout::Gate;
use crate::layout::GatedWriter;
use crate::layout::Slot;
use crate::messages::OutgoingMessages;
use crate::messages::RequestMessage;
use crate::server_versions::LINKING;
use crate::server_versions::SYNT_REALTIME_BARS;
use crate::server_versions::TRADING_CLASS;
use crate::timestamps::encode_timestamp;
use crate::timestamps::is_malformed_timestamp;
use crate::timestamps::optional_timestamp_text;
use crate::timestamps::optional_timestamp_valid;
use crate::timestamps::Timestamp;

verus! {

/// The format in which the server is to report dates: 1 for
/// `yyyyMMdd HH:mm:ss`, 2 for seconds since the epoch.
pub const DATE_FORMAT: i32 = 2;

/// The message version of the historical data request, sent to servers that
/// still expect one.
pub const HISTORICAL_DATA_VERSION: i32 = 6;

/// The four fields of one leg of a combination.
pub open spec fn combo_leg_fields(leg: ComboLeg) -> Seq<Slot> {
    seq![
        always(decimal_text(leg.contract_id as int)),
        always(decimal_text(leg.ratio as int)),
        always(leg.action@),
        always(leg.exchange@),
    ]
}

/// The fields of the legs of a combination, leg after leg.
pub open spec fn combo_legs_fields(legs: Seq<ComboLeg>) -> Seq<Slot>
    decreases legs.len(),
{
    if legs.len() == 0 {
        Seq::empty()
    } else {
        combo_legs_fields(legs.drop_last()) + combo_leg_fields(legs.last())
    }
}

/// The block that a combination adds to a request: the number of legs, then
/// the legs. Any other contract adds nothing.
pub open spec fn combo_block(contract: &Contract) -> Seq<Slot> {
    if contract.spec_is_bag() {
        seq![always(natural_text(contract.combo_legs@.len()))] + combo_legs_fields(
            contract.combo_legs@,
        )
    } else {
        Seq::empty()
    }
}

/// The slots of the historical data request up to the date format, in wire
/// order. The contract id and the trading class are behind the same gate.
pub open spec fn historical_data_head(
    request_id: i32,
    contract: &Contract,
    end_date: Seq<char>,
    duration: Duration,
    bar_size: BarSize,
    what_to_show: Option<WhatToShow>,
    use_rth: bool,
) -> Seq<Slot> {
    seq![
        always(OutgoingMessages::RequestHistoricalData.field_text()),
        below(SYNT_REALTIME_BARS, decimal_text(HISTORICAL_DATA_VERSION as int)),
        always(decimal_text(request_id as int)),
        at_least(TRADING_CLASS, decimal_text(contract.contract_id as int)),
        always(contract.symbol@),
        always(contract.security_type.field_text()),
        always(contract.last_trade_date_or_contract_month@),
        always(contract.strike@),
        always(contract.right@),
        always(contract.multiplier@),
        always(contract.exchange@),
        always(contract.primary_exchange@),
        always(contract.currency@),
        always(contract.local_symbol@),
        at_least(TRADING_CLASS, contract.trading_class@),
        always(bool_text(contract.include_expired)),
        always(end_date),
        always(bar_size.field_text()),
        always(duration.field_text()),
        always(bool_text(use_rth)),
        always(what_to_show.field_text()),
        always(decimal_text(DATE_FORMAT as int)),
    ]
}

/// The slots that close the historical data request.
pub open spec fn historical_data_tail(keep_up_to_date: bool, chart_options: Seq<TagValue>) -> Seq<
    Slot,
> {
    seq![
        at_least(SYNT_REALTIME_BARS, bool_text(keep_up_to_date)),
        at_least(LINKING, tag_values_text(chart_options)),
    ]
}

/// The layout of the historical data request: the head, the block of a
/// combination, and the tail.
pub open spec fn historical_data_layout(
    request_id: i32,
    contract: &Contract,
    end_date: Seq<char>,
    duration: Duration,
    bar_size: BarSize,
    what_to_show: Option<WhatToShow>,
    use_rth: bool,
    keep_up_to_date: bool,
    chart_options: Seq<TagValue>,
) -> Seq<Slot> {
    historical_data_head(
        request_id,
        contract,
        end_date,
        duration,
        bar_size,
        what_to_show,
        use_rth,
    ) + combo_block(contract) + historical_data_tail(keep_up_to_date, chart_options)
}

/// What the gates of a historical data layout are: the message version is
/// sent only below the realtime bar threshold; the contract id and the
/// trading class are behind one and the same threshold; the keep streaming
/// field and the options close the request, behind the realtime bar and the
/// linking threshold; every other field, the block of a combination
/// included, is sent to every server.
pub open spec fn has_historical_data_gates(layout: Seq<Slot>) -> bool {
    let n = layout.len() as int;
    &&& n >= 24
    &&& layout[1].gate == Gate::Below(SYNT_REALTIME_BARS)
    &&& layout[3].gate == Gate::AtLeast(TRADING_CLASS)
    &&& layout[14].gate == layout[3].gate
    &&& layout[n - 2].gate == Gate::AtLeast(SYNT_REALTIME_BARS)
    &&& layout[n - 1].gate == Gate::AtLeast(LINKING)
    &&& forall|k: int|
        0 <= k < n - 2 && k != 1 && k != 3 && k != 14 ==> (#[trigger] layout[k]).gate
            == Gate::Always
}

/// 1 where a field is present, 0 where it is not.
pub open spec fn count_if(present: bool) -> int {
    if present {
        1
    } else {
        0
    }
}

/// The number of fields of a historical data request for a server version:
/// nineteen that every server gets, the gated ones, and the block of a
/// combination, which is one field and four more for each leg.
pub open spec fn historical_data_field_count(server_version: int, contract: &Contract) -> int {
    19 + count_if(server_version < SYNT_REALTIME_BARS) + 2 * count_if(
        server_version >= TRADING_CLASS,
    ) + combo_block_count(contract) + count_if(server_version >= SYNT_REALTIME_BARS) + count_if(
        server_version >= LINKING,
    )
}

/// The number of fields that a combination adds to a request.
pub open spec fn combo_block_count(contract: &Contract) -> int {
    if contract.spec_is_bag() {
        1 + 4 * (contract.combo_legs@.len() as int)
    } else {
        0
    }
}

/// The legs of a combination are sent to every server, four fields a leg.
pub proof fn lemma_combo_legs_are_ungated(legs: Seq<ComboLeg>)
    ensures
        combo_legs_fields(legs).len() == 4 * legs.len(),
        forall|k: int|
            0 <= k < combo_legs_fields(legs).len() ==> (#[trigger] combo_legs_fields(legs)[k]).gate
                == Gate::Always,
    decreases legs.len(),
{
    if legs.len() > 0 {
        lemma_combo_legs_are_ungated(legs.drop_last());
        let before = combo_legs_fields(legs.drop_last());
        let last = combo_leg_fields(legs.last());
        assert forall|k: int| 0 <= k < combo_legs_fields(legs).len() implies (
        #[trigger] combo_legs_fields(legs)[k]).gate == Gate::Always by {
            if k < before.len() {
                assert(combo_legs_fields(legs)[k] == before[k]);
            } else {
                assert(combo_legs_fields(legs)[k] == last[k - before.len()]);
            }
        }
    }
}

/// The layout of the historical data request has the gates that
/// `has_historical_data_gates` states, whatever the request.
pub proof fn lemma_historical_data_gates(
    request_id: i32,
    contract: &Contract,
    end_date: Seq<char>,
    duration: Duration,
    bar_size: BarSize,
    what_to_show: Option<WhatToShow>,
    use_rth: bool,
    keep_up_to_date: bool,
    chart_options: Seq<TagValue>,
)
    ensures
        has_historical_data_gates(
            historical_data_layout(
                request_id,
                contract,
                end_date,
                duration,
                bar_size,
                what_to_show,
                use_rth,
                keep_up_to_date,
                chart_options,
            ),
        ),
        historical_data_layout(
            request_id,
            contract,
            end_date,
            duration,
            bar_size,
            what_to_show,
            use_rth,
            keep_up_to_date,
            chart_options,
        ).len() == 24 + combo_block(contract).len(),
{
    let head = historical_data_head(
        request_id,
        contract,
        end_date,
        duration,
        bar_size,
        what_to_show,
        use_rth,
    );
    let block = combo_block(contract);
    let tail = historical_data_tail(keep_up_to_date, chart_options);
    let layout = head + block + tail;
    let n = layout.len() as int;
    lemma_combo_legs_are_ungated(contract.combo_legs@);
    assert(head.len() == 22);
    assert(tail.len() == 2);
    assert forall|k: int| 0 <= k < n - 2 && k != 1 && k != 3 && k != 14 implies (
    #[trigger] layout[k]).gate == Gate::Always by {
        if k < 22 {
            assert(layout[k] == head[k]);
        } else {
            assert(layout[k] == block[k - 22]);
            if k > 22 {
                assert(block[k - 22] == combo_legs_fields(contract.combo_legs@)[k - 23]);
            }
        }
    }
    assert(layout[1] == head[1]);
    assert(layout[3] == head[3]);
    assert(layout[14] == head[14]);
    assert(layout[n - 2] == tail[0]);
    assert(layout[n - 1] == tail[1]);
}

/// The number of fields of a historical data request is what
/// `historical_data_field_count` states.
pub proof fn lemma_historical_data_field_count(
    server_version: int,
    request_id: i32,
    contract: &Contract,
    end_date: Seq<char>,
    duration: Duration,
    bar_size: BarSize,
    what_to_show: Option<WhatToShow>,
    use_rth: bool,
    keep_up_to_date: bool,
    chart_options: Seq<TagValue>,
)
    ensures
        rendered(
            historical_data_layout(
                request_id,
                contract,
                end_date,
                duration,
                bar_size,
                what_to_show,
                use_rth,
                keep_up_to_date,
                chart_options,
            ),
            server_version,
        ).len() == historical_data_field_count(server_version, contract),
{
    let head = historical_data_head(
        request_id,
        contract,
        end_date,
        duration,
        bar_size,
        what_to_show,
        use_rth,
    );
    let block = combo_block(contract);
    let tail = historical_data_tail(keep_up_to_date, chart_options);
    lemma_rendered_concat(head + block, tail, server_version);
    lemma_rendered_concat(head, block, server_version);
    lemma_combo_legs_are_ungated(contract.combo_legs@);
    assert(rendered(block, server_version).len() == combo_block_count(contract)) by {
        assert forall|k: int| 0 <= k < block.len() implies (#[trigger] block[k]).gate
            == Gate::Always by {
            if k > 0 {
                assert(block[k] == combo_legs_fields(contract.combo_legs@)[k - 1]);
            }
        }
        lemma_ungated_renders_whole(block, server_version);
    }
    assert(rendered(tail, server_version).len() == count_if(server_version >= SYNT_REALTIME_BARS)
        + count_if(server_version >= LINKING)) by {
        assert(tail =~= seq![tail[0]] + seq![tail[1]]);
        lemma_rendered_concat(seq![tail[0]], seq![tail[1]], server_version);
        lemma_rendered_single(tail[0], server_version);
        lemma_rendered_single(tail[1], server_version);
    }
    assert(rendered(head, server_version).len() == 19 + count_if(
        server_version < SYNT_REALTIME_BARS,
    ) + 2 * count_if(server_version >= TRADING_CLASS)) by {
        let first = seq![head[0]];
        let version = seq![head[1]];
        let request = seq![head[2]];
        let contract_id = seq![head[3]];
        let described = head.subrange(4, 14);
        let trading_class = seq![head[14]];
        let rest = head.subrange(15, 22);
        assert(head =~= first + version + request + contract_id + described + trading_class
            + rest);
        lemma_rendered_concat(
            first + version + request + contract_id + described + trading_class,
            rest,
            server_version,
        );
        lemma_rendered_concat(
            first + version + request + contract_id + described,
            trading_class,
            server_version,
        );
        lemma_rendered_concat(first + version + request + contract_id, described, server_version);
        lemma_rendered_concat(first + version + request, contract_id, server_version);
        lemma_rendered_concat(first + version, request, server_version);
        lemma_rendered_concat(first, version, server_version);
        lemma_rendered_single(head[0], server_version);
        lemma_rendered_single(head[1], server_version);
        lemma_rendered_single(head[2], server_version);
        lemma_rendered_single(head[3], server_version);
        lemma_rendered_single(head[14], server_version);
        lemma_ungated_renders_whole(described, server_version);
        lemma_ungated_renders_whole(rest, server_version);
        assert(head[0].gate == Gate::Always);
        assert(head[1].gate == Gate::Below(SYNT_REALTIME_BARS));
        assert(head[2].gate == Gate::Always);
        assert(head[3].gate == Gate::AtLeast(TRADING_CLASS));
        assert(head[14].gate == Gate::AtLeast(TRADING_CLASS));
        assert(rendered(described, server_version).len() == 10);
        assert(rendered(rest, server_version).len() == 7);
    }
}

/// Encodes the request for the earliest date for which data exists.
pub fn encode_request_head_timestamp(
    request_id: i32,
    contract: &Contract,
    what_to_show: WhatToShow,
    use_rth: bool,
) -> (request: Result<RequestMessage, Error>)
    ensures
        request is Ok,
        request->Ok_0@ == seq![
            OutgoingMessages::RequestHeadTimestamp.field_text(),
            decimal_text(request_id as int),
        ] + contract_fields(contract) + seq![
            bool_text(use_rth),
            what_to_show.field_text(),
            decimal_text(DATE_FORMAT as int),
        ],
{
    let mut packet = RequestMessage::new();

    packet.push_field(&OutgoingMessages::RequestHeadTimestamp);
    packet.push_field(&request_id);
    contract.push_fields(&mut packet);
    packet.push_field(&use_rth);
    packet.push_field(&what_to_show);
    packet.push_field(&DATE_FORMAT);

    assert(packet@ =~= seq![
        OutgoingMessages::RequestHeadTimestamp.field_text(),
        decimal_text(request_id as int),
    ] + contract_fields(contract) + seq![
        bool_text(use_rth),
        what_to_show.field_text(),
        decimal_text(DATE_FORMAT as int),
    ]);
    Ok(packet)
}

/// Encodes the request for historical bars.
///
/// The request succeeds unless the end date is a timestamp that cannot be
/// sent. Its fields are the rendering of `historical_data_layout` for the
/// server version.
pub fn encode_request_historical_data(
    server_version: i32,
    request_id: i32,
    contract: &Contract,
    end_date: Option<Timestamp>,
    duration: Duration,
    bar_size: BarSize,
    what_to_show: Option<WhatToShow>,
    use_rth: bool,
    keep_up_to_date: bool,
    chart_options: Vec<TagValue>,
) -> (request: Result<RequestMessage, Error>)
    ensures
        optional_timestamp_valid(end_date) ==> request is Ok,
        optional_timestamp_valid(end_date) ==> request->Ok_0@ == rendered(
            historical_data_layout(
                request_id,
                contract,
                optional_timestamp_text(end_date),
                duration,
                bar_size,
                what_to_show,
                use_rth,
                keep_up_to_date,
                chart_options@,
            ),
            server_version as int,
        ),
        !optional_timestamp_valid(end_date) ==> request is Err,
        !optional_timestamp_valid(end_date) ==> is_malformed_timestamp(request->Err_0),
{
    let end_text = match encode_timestamp(&end_date) {
        Ok(text) => text,
        Err(error) => {
            return Err(error);
        },
    };

    let mut writer = GatedWriter::new(server_version);

    writer.put(Gate::Always, &OutgoingMessages::RequestHistoricalData);

    writer.put(Gate::Below(SYNT_REALTIME_BARS), &HISTORICAL_DATA_VERSION);

    writer.put(Gate::Always, &request_id);

    writer.put(Gate::AtLeast(TRADING_CLASS), &contract.contract_id);

    writer.put(Gate::Always, &contract.symbol);
    writer.put(Gate::Always, &contract.security_type);
    writer.put(Gate::Always, &contract.last_trade_date_or_contract_month);
    writer.put(Gate::Always, &contract.strike);
    writer.put(Gate::Always, &contract.right);
    writer.put(Gate::Always, &contract.multiplier);
    writer.put(Gate::Always, &contract.exchange);
    writer.put(Gate::Always, &contract.primary_exchange);
    writer.put(Gate::Always, &contract.currency);
    writer.put(Gate::Always, &contract.local_symbol);

    writer.put(Gate::AtLeast(TRADING_CLASS), &contract.trading_class);

    writer.put(Gate::Always, &contract.include_expired);

    writer.put(Gate::Always, &end_text);
    writer.put(Gate::Always, &bar_size);

    writer.put(Gate::Always, &duration);
    writer.put(Gate::Always, &use_rth);
    writer.put(Gate::Always, &what_to_show);

    writer.put(Gate::Always, &DATE_FORMAT);

    let ghost head = historical_data_head(
        request_id,
        contract,
        end_text@,
        duration,
        bar_size,
        what_to_show,
        use_rth,
    );
    assert(writer.layout() =~= head);

    if contract.is_bag() {
        let count: usize = contract.combo_legs.len();
        writer.put(Gate::Always, &count);
        proof {
            assert(contract.combo_legs@.take(0) =~= Seq::<ComboLeg>::empty());
            assert(writer.layout() =~= head + seq![always(natural_text(count as nat))]
                + combo_legs_fields(contract.combo_legs@.take(0)));
        }

        let mut i: usize = 0;
        while i < contract.combo_legs.len()
            invariant
                i <= contract.combo_legs.len(),
                count == contract.combo_legs.len(),
                writer.well_formed(),
                writer.server_version() == server_version,
                writer.layout() == head + seq![always(natural_text(count as nat))]
                    + combo_legs_fields(contract.combo_legs@.take(i as int)),
            decreases contract.combo_legs.len() - i,
        {
            let combo_leg = &contract.combo_legs[i];
            let ghost before = writer.layout();
            writer.put(Gate::Always, &combo_leg.contract_id);
            writer.put(Gate::Always, &combo_leg.ratio);
            writer.put(Gate::Always, &combo_leg.action);
            writer.put(Gate::Always, &combo_leg.exchange);
            proof {
                let grown = contract.combo_legs@.take(i + 1);
                assert(grown.drop_last() =~= contract.combo_legs@.take(i as int));
                assert(grown.last() == *combo_leg);
                assert(writer.layout() =~= before + combo_leg_fields(*combo_leg));
                assert(writer.layout() =~= head + seq![always(natural_text(count as nat))]
                    + combo_legs_fields(grown));
            }
            i += 1;
        }
        proof {
            assert(contract.combo_legs@.take(i as int) =~= contract.combo_legs@);
            assert(writer.layout() =~= head + combo_block(contract));
        }
    } else {
        proof {
            assert(writer.layout() =~= head + combo_block(contract));
        }
    }

    writer.put(Gate::AtLeast(SYNT_REALTIME_BARS), &keep_up_to_date);

    writer.put(Gate::AtLeast(LINKING), &chart_options);

    proof {
        assert(writer.layout() =~= head + combo_block(contract) + historical_data_tail(
            keep_up_to_date,
            chart_options@,
        ));
    }

    Ok(writer.finish())
}

/// Encodes the request for historical ticks.
///
/// The request succeeds unless the start or the end is a timestamp that
/// cannot be sent.
pub fn encode_request_historical_ticks(
    request_id: i32,
    contract: &Contract,
    start: Option<Timestamp>,
    end: Option<Timestamp>,
    number_of_ticks: i32,
    what_to_show: WhatToShow,
    use_rth: bool,
    ignore_size: bool,
) -> (request: Result<RequestMessage, Error>)
    ensures
        optional_timestamp_valid(start) && optional_timestamp_valid(end) ==> request is Ok,
        optional_timestamp_valid(start) && optional_timestamp_valid(end) ==> request->Ok_0@
            == seq![
            OutgoingMessages::RequestHistoricalTicks.field_text(),
            decimal_text(request_id as int),
        ] + contract_fields(contract) + seq![
            optional_timestamp_text(start),
            optional_timestamp_text(end),
            decimal_text(number_of_ticks as int),
            what_to_show.field_text(),
            bool_text(use_rth),
            bool_text(ignore_size),
            Seq::<char>::empty(),
        ],
        !(optional_timestamp_valid(start) && optional_timestamp_valid(end)) ==> request is Err,
        !(optional_timestamp_valid(start) && optional_timestamp_valid(end))
            ==> is_malformed_timestamp(request->Err_0),
{
    let start_text = match encode_timestamp(&start) {
        Ok(text) => text,
        Err(error) => {
            return Err(error);
        },
    };
    let end_text = match encode_timestamp(&end) {
        Ok(text) => text,
        Err(error) => {
            return Err(error);
        },
    };
    let mut message = RequestMessage::new();

    message.push_field(&OutgoingMessages::RequestHistoricalTicks);
    message.push_field(&request_id);
    contract.push_fields(&mut message);
    message.push_field(&start_text);
    message.push_field(&end_text);
    message.push_field(&number_of_ticks);
    message.push_field(&what_to_show);
    message.push_field(&use_rth);
    message.push_field(&ignore_size);
    let misc_options: &str = "";
    proof {
        reveal_strlit("");
        assert(misc_options.field_text() =~= Seq::<char>::empty());
    }
    message.push_field(&misc_options);

    assert(message@ =~= seq![
        OutgoingMessages::RequestHistoricalTicks.field_text(),
        decimal_text(request_id as int),
    ] + contract_fields(contract) + seq![
        optional_timestamp_text(start),
        optional_timestamp_text(end),
        decimal_text(number_of_ticks as int),
        what_to_show.field_text(),
        bool_text(use_rth),
        bool_text(ignore_size),
        Seq::<char>::empty(),
    ]);
    Ok(message)
}

/// Encodes the request for a histogram of prices.
pub fn encode_request_histogram_data(
    request_id: i32,
    contract: &Contract,
    use_rth: bool,
    period: BarSize,
) -> (request: Result<RequestMessage, Error>)
    ensures
        request is Ok,
        request->Ok_0@ == seq![
            OutgoingMessages::RequestHistogramData.field_text(),
            decimal_text(request_id as int),
        ] + contract_fields(contract) + seq![bool_text(use_rth), period.field_text()],
{
    let mut message = RequestMessage::new();

    message.push_field(&OutgoingMessages::RequestHistogramData);
    message.push_field(&request_id);
    contract.push_fields(&mut message);
    message.push_field(&use_rth);
    message.push_field(&period);

    assert(message@ =~= seq![
        OutgoingMessages::RequestHistogramData.field_text(),
        decimal_text(request_id as int),
    ] + contract_fields(contract) + seq![bool_text(use_rth), period.field_text()]);
    Ok(message)
}

} // verus!
