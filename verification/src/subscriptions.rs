//! Subscriptions: the life of one streaming request.
//!
//! A subscription neither reads nor sends. Its owner pulls raw messages from
//! the transport and hands each one over; the subscription decodes it,
//! classifies the outcome and says what to yield. When it is cancelled or
//! dropped it says which message, if any, has to be sent. A stream has one
//! subscription, however many handles its owner gives out: the subscription
//! counts them, and every handle steps this one state. Every operation is one
//! atomic step of a small state machine, `step`, and the laws at the end of
//! this module are proved of that machine.

use std::marker::PhantomData;
use vstd::prelude::*;

use crate::errors::Error;
use crate::messages::IncomingMessages;
use crate::messages::OutgoingMessages;
use crate::messages::RequestMessage;
use crate::messages::ResponseMessage;

verus! {

/// Whether a decoder failure means that the message was not meant for the
/// decoder, so that the next message should be tried.
pub fn should_retry_error(error: &Error) -> (retry: bool)
    ensures
        retry == (error is UnexpectedResponse),
{
    matches!(error, Error::UnexpectedResponse(_))
}

/// Whether a decoder failure is the signal that the stream is complete.
pub fn is_stream_end(error: &Error) -> (end: bool)
    ensures
        end == (error is EndOfStream),
{
    matches!(error, Error::EndOfStream)
}

/// Whether a decoder failure is to be kept and shown to the consumer.
pub fn should_store_error(error: &Error) -> (store: bool)
    ensures
        store == !(error is EndOfStream),
{
    !is_stream_end(error)
}

/// What one decoded message means for the stream.
#[derive(Debug, Clone)]
pub enum ProcessingResult<T> {
    /// A value to yield.
    Success(T),
    /// The message was not for this stream; wait for the next one.
    Retry,
    /// A failure that ends the stream and is its last item.
    Error(Error),
    /// The stream is complete.
    EndOfStream,
}

/// The classification of a decoder's result.
pub open spec fn classify<T>(result: Result<T, Error>) -> ProcessingResult<T> {
    match result {
        Ok(value) => ProcessingResult::Success(value),
        Err(Error::EndOfStream) => ProcessingResult::EndOfStream,
        Err(Error::UnexpectedResponse(_)) => ProcessingResult::Retry,
        Err(error) => ProcessingResult::Error(error),
    }
}

/// Classifies a decoder's result.
pub fn process_decode_result<T>(result: Result<T, Error>) -> (outcome: ProcessingResult<T>)
    ensures
        outcome == classify(result),
{
    match result {
        Ok(value) => ProcessingResult::Success(value),
        Err(Error::EndOfStream) => ProcessingResult::EndOfStream,
        Err(Error::UnexpectedResponse(_)) => ProcessingResult::Retry,
        Err(error) => ProcessingResult::Error(error),
    }
}

/// How the responses of a stream are to be read.
#[derive(Debug, Clone, Copy, PartialEq, Eq, Structural)]
pub struct ResponseContext {
    /// The type of the request that opened the stream.
    pub request_type: Option<OutgoingMessages>,
    /// Whether the stream is a smart depth subscription.
    pub is_smart_depth: bool,
}

impl Default for ResponseContext {
    fn default() -> (context: ResponseContext)
        ensures
            context == (ResponseContext { request_type: None, is_smart_depth: false }),
    {
        ResponseContext { request_type: None, is_smart_depth: false }
    }
}

/// The policy of one family of responses: which messages it reads, how it
/// turns one into a value, and how its stream is cancelled.
pub trait StreamDecoder<T> {
    /// The types of the messages that the family reads.
    fn response_message_ids() -> (ids: Vec<IncomingMessages>)
        default_ensures
            ids@.len() == 0,
    {
        Vec::new()
    }

    /// Reads one message, field by field from its cursor, as a value.
    fn decode(server_version: i32, message: &mut ResponseMessage) -> Result<T, Error>;

    /// The request that cancels the stream. Families that cannot be
    /// cancelled keep this default, which refuses.
    fn cancel_message(
        server_version: i32,
        request_id: Option<i32>,
        context: Option<&ResponseContext>,
    ) -> (message: Result<RequestMessage, Error>)
        default_ensures
            message == Err::<RequestMessage, Error>(Error::NotImplemented),
    {
        Err(Error::NotImplemented)
    }

    /// Whether the value is the marker that ends a snapshot.
    fn is_snapshot_end(&self) -> (end: bool)
        default_ensures
            !end,
    {
        false
    }
}

/// Where a stream is in its life.
#[derive(Debug, Clone, Copy, PartialEq, Eq, Structural)]
pub enum Phase {
    /// Values are being delivered.
    Active,
    /// Cancellation was requested and its request was handed out to be
    /// sent; values that still arrive are delivered.
    Draining,
    /// Nothing more will be delivered.
    Closed,
}

/// What feeds a subscription.
#[derive(Debug, Clone, Copy, PartialEq, Eq, Structural)]
pub enum Source {
    /// Raw messages, which the subscription decodes.
    Decoder,
    /// Values that were decoded elsewhere.
    PreDecoded,
}

/// The state of a stream, as far as its life goes.
pub struct StreamState {
    pub phase: Phase,
    /// The cancellation flag: whether cancellation, asked for or on drop,
    /// has taken place. It is set once and never cleared.
    pub cancelled: bool,
    /// Whether the stream has what it takes to send a cancel request: a
    /// client to send it and a decoder family to build it.
    pub can_send_cancel: bool,
    /// The number of handles on the stream that are in scope.
    pub handles: nat,
}

impl StreamState {
    /// The states that a subscription can be in.
    pub open spec fn well_formed(self) -> bool {
        &&& self.phase is Draining ==> self.cancelled && self.can_send_cancel
        &&& self.handles == 0 ==> self.phase is Closed
    }

    /// Whether a cancellation now would be the first one of a stream that
    /// is still active.
    pub open spec fn can_cancel(self) -> bool {
        self.phase is Active && !self.cancelled
    }

    /// The state with the stream closed.
    pub open spec fn closed(self) -> StreamState {
        StreamState { phase: Phase::Closed, ..self }
    }
}

/// What a pull found.
#[derive(Debug, Clone, Copy, PartialEq, Eq, Structural)]
pub enum Signal {
    /// A message that decoded to a value.
    Value,
    /// A message of a shape that the decoder does not expect.
    Mismatch,
    /// The signal that the stream is complete.
    End,
    /// Any other failure of the decoder or the transport.
    Fatal,
    /// The channel was closed.
    ChannelClosed,
}

/// What a decoded message amounts to.
pub open spec fn signal_of<T>(outcome: ProcessingResult<T>) -> Signal {
    match outcome {
        ProcessingResult::Success(_) => Signal::Value,
        ProcessingResult::Retry => Signal::Mismatch,
        ProcessingResult::EndOfStream => Signal::End,
        ProcessingResult::Error(_) => Signal::Fatal,
    }
}

/// One atomic step in the life of a stream.
pub enum Event {
    /// A pull, and what it found.
    Pull(Signal),
    /// A call of `cancel`; `built` says whether the decoder family built a
    /// cancel request.
    Cancel { built: bool },
    /// The cancel request was handed to the transport.
    CancelDispatched,
    /// A further handle on the stream was made.
    Duplicate,
    /// A handle went out of scope; `built` as for `Cancel`.
    Drop { built: bool },
}

/// Whether the step makes the stream's one cancel request: only the first
/// cancellation of an active stream does, through whichever handle it comes
/// and whether it is asked for or due to a drop, and only if a request can
/// be sent and was built.
pub open spec fn sends(state: StreamState, event: Event) -> bool {
    match event {
        Event::Cancel { built } => state.can_cancel() && state.can_send_cancel && built,
        Event::Drop { built } => state.can_cancel() && state.can_send_cancel && built,
        _ => false,
    }
}

/// Whether the step hands an item, a value or a failure, to the consumer.
pub open spec fn delivers(state: StreamState, event: Event) -> bool {
    match event {
        Event::Pull(signal) => !(state.phase is Closed) && (signal is Value || signal is Fatal),
        _ => false,
    }
}

/// The state after a step.
pub open spec fn step(state: StreamState, event: Event) -> StreamState {
    match event {
        Event::Pull(signal) => if state.phase is Closed {
            state
        } else {
            match signal {
                Signal::Value => state,
                Signal::Mismatch => state,
                Signal::End => state.closed(),
                Signal::Fatal => state.closed(),
                Signal::ChannelClosed => state.closed(),
            }
        },
        Event::Cancel { built } => if !state.can_cancel() {
            state
        } else if state.can_send_cancel && built {
            StreamState { phase: Phase::Draining, cancelled: true, ..state }
        } else {
            StreamState { cancelled: true, ..state }
        },
        Event::CancelDispatched => if state.phase is Draining {
            state.closed()
        } else {
            state
        },
        Event::Duplicate => StreamState { handles: state.handles + 1, ..state },
        Event::Drop { built } => StreamState {
            phase: if state.handles <= 1 {
                Phase::Closed
            } else {
                state.phase
            },
            cancelled: state.cancelled || state.phase is Active,
            handles: if state.handles >= 1 {
                (state.handles - 1) as nat
            } else {
                0
            },
            ..state
        },
    }
}

/// What a pull hands to the consumer.
#[derive(Debug)]
pub enum Pulled<T> {
    /// The next item of the stream; `None` where the stream is over.
    Ready(Option<Result<T, Error>>),
    /// Nothing yet: the message was absorbed, pull the next one.
    Pending,
}

/// What a pull in state `state` hands over for a decoded message.
pub open spec fn pulled<T>(state: StreamState, outcome: ProcessingResult<T>) -> Pulled<T> {
    if state.phase is Closed {
        Pulled::Ready(None)
    } else {
        match outcome {
            ProcessingResult::Success(value) => Pulled::Ready(Some(Ok(value))),
            ProcessingResult::Retry => Pulled::Pending,
            ProcessingResult::EndOfStream => Pulled::Ready(None),
            ProcessingResult::Error(error) => Pulled::Ready(Some(Err(error))),
        }
    }
}

/// Whether `handed` and the state `after` can come of a pull in state
/// `before`, whatever the decoder made of the message.
pub open spec fn follows_pull<T>(before: StreamState, after: StreamState, handed: Pulled<T>) -> bool {
    match handed {
        Pulled::Ready(Some(Ok(_))) => !(before.phase is Closed) && after == before,
        Pulled::Ready(Some(Err(_))) => !(before.phase is Closed) && after == before.closed(),
        Pulled::Ready(None) => after == before.closed(),
        Pulled::Pending => !(before.phase is Closed) && after == before,
    }
}

/// The handle of one streaming request.
pub struct Subscription<T> {
    source: Source,
    request_id: Option<i32>,
    order_id: Option<i32>,
    message_type: Option<OutgoingMessages>,
    response_context: ResponseContext,
    phase: Phase,
    cancelled: bool,
    has_client: bool,
    has_cancel_message: bool,
    handles: usize,
    marker: PhantomData<T>,
}

impl<T> View for Subscription<T> {
    type V = StreamState;

    closed spec fn view(&self) -> StreamState {
        StreamState {
            phase: self.phase,
            cancelled: self.cancelled,
            can_send_cancel: self.has_client && self.has_cancel_message,
            handles: self.handles as nat,
        }
    }
}

impl<T> Subscription<T> {
    /// What feeds the subscription.
    pub closed spec fn spec_source(&self) -> Source {
        self.source
    }

    /// The request id of the stream, if it has one.
    pub closed spec fn spec_request_id(&self) -> Option<i32> {
        self.request_id
    }

    /// The order id of the stream, if it has one.
    pub closed spec fn spec_order_id(&self) -> Option<i32> {
        self.order_id
    }

    /// The type of the request that opened the stream.
    pub closed spec fn spec_message_type(&self) -> Option<OutgoingMessages> {
        self.message_type
    }

    /// How the responses of the stream are to be read.
    pub closed spec fn spec_response_context(&self) -> ResponseContext {
        self.response_context
    }

    /// Whether a client stands behind the subscription.
    pub closed spec fn spec_has_client(&self) -> bool {
        self.has_client
    }

    /// Everything about the subscription that never changes.
    pub open spec fn same_stream(&self, other: &Subscription<T>) -> bool {
        &&& self.spec_source() == other.spec_source()
        &&& self.spec_request_id() == other.spec_request_id()
        &&& self.spec_order_id() == other.spec_order_id()
        &&& self.spec_message_type() == other.spec_message_type()
        &&& self.spec_response_context() == other.spec_response_context()
        &&& self.spec_has_client() == other.spec_has_client()
        &&& self@.can_send_cancel == other@.can_send_cancel
    }

    /// The identity of the stream: its request id, or else its order id.
    pub open spec fn spec_id(&self) -> Option<i32> {
        if self.spec_request_id() is Some {
            self.spec_request_id()
        } else {
            self.spec_order_id()
        }
    }

    /// A subscription fed by raw messages that the caller's decoder reads.
    /// It is active, and it sends no cancel request.
    pub fn with_decoder(
        request_id: Option<i32>,
        order_id: Option<i32>,
        message_type: Option<OutgoingMessages>,
        response_context: ResponseContext,
    ) -> (subscription: Subscription<T>)
        ensures
            subscription.spec_source() == Source::Decoder,
            subscription.spec_request_id() == request_id,
            subscription.spec_order_id() == order_id,
            subscription.spec_message_type() == message_type,
            subscription.spec_response_context() == response_context,
            subscription.spec_has_client(),
            subscription@ == (StreamState {
                phase: Phase::Active,
                cancelled: false,
                can_send_cancel: false,
                handles: 1,
            }),
    {
        Subscription {
            source: Source::Decoder,
            request_id,
            order_id,
            message_type,
            response_context,
            phase: Phase::Active,
            cancelled: false,
            has_client: true,
            has_cancel_message: false,
            handles: 1,
            marker: PhantomData,
        }
    }

    /// The same as `with_decoder`.
    pub fn new_with_decoder(
        request_id: Option<i32>,
        order_id: Option<i32>,
        message_type: Option<OutgoingMessages>,
        response_context: ResponseContext,
    ) -> (subscription: Subscription<T>)
        ensures
            subscription.spec_source() == Source::Decoder,
            subscription.spec_request_id() == request_id,
            subscription.spec_order_id() == order_id,
            subscription.spec_message_type() == message_type,
            subscription.spec_response_context() == response_context,
            subscription.spec_has_client(),
            subscription@ == (StreamState {
                phase: Phase::Active,
                cancelled: false,
                can_send_cancel: false,
                handles: 1,
            }),
    {
        Self::with_decoder(request_id, order_id, message_type, response_context)
    }

    /// A subscription fed by raw messages that a decoder family reads. It is
    /// active, and the family builds its cancel request.
    pub fn new_from_internal(
        request_id: Option<i32>,
        order_id: Option<i32>,
        message_type: Option<OutgoingMessages>,
        response_context: ResponseContext,
    ) -> (subscription: Subscription<T>)
        ensures
            subscription.spec_source() == Source::Decoder,
            subscription.spec_request_id() == request_id,
            subscription.spec_order_id() == order_id,
            subscription.spec_message_type() == message_type,
            subscription.spec_response_context() == response_context,
            subscription.spec_has_client(),
            subscription@ == (StreamState {
                phase: Phase::Active,
                cancelled: false,
                can_send_cancel: true,
                handles: 1,
            }),
    {
        let mut subscription = Self::with_decoder(
            request_id,
            order_id,
            message_type,
            response_context,
        );
        subscription.has_cancel_message = true;
        subscription
    }

    /// A subscription of a decoder family, with no identity and the default
    /// context.
    pub fn new_from_internal_simple() -> (subscription: Subscription<T>)
        ensures
            subscription.spec_source() == Source::Decoder,
            subscription.spec_request_id() is None,
            subscription.spec_order_id() is None,
            subscription.spec_message_type() is None,
            subscription.spec_response_context() == (ResponseContext {
                request_type: None,
                is_smart_depth: false,
            }),
            subscription.spec_has_client(),
            subscription@ == (StreamState {
                phase: Phase::Active,
                cancelled: false,
                can_send_cancel: true,
                handles: 1,
            }),
    {
        Self::new_from_internal(None, None, None, ResponseContext::default())
    }

    /// A subscription fed by values that were decoded elsewhere. It is
    /// active, has no identity and no client, and sends no cancel request.
    pub fn new() -> (subscription: Subscription<T>)
        ensures
            subscription.spec_source() == Source::PreDecoded,
            subscription.spec_request_id() is None,
            subscription.spec_order_id() is None,
            subscription.spec_message_type() is None,
            subscription.spec_response_context() == (ResponseContext {
                request_type: None,
                is_smart_depth: false,
            }),
            !subscription.spec_has_client(),
            subscription@ == (StreamState {
                phase: Phase::Active,
                cancelled: false,
                can_send_cancel: false,
                handles: 1,
            }),
    {
        Subscription {
            source: Source::PreDecoded,
            request_id: None,
            order_id: None,
            message_type: None,
            response_context: ResponseContext::default(),
            phase: Phase::Active,
            cancelled: false,
            has_client: false,
            has_cancel_message: false,
            handles: 1,
            marker: PhantomData,
        }
    }

    /// What feeds the subscription.
    pub fn source(&self) -> (source: Source)
        ensures
            source == self.spec_source(),
    {
        self.source
    }

    /// The request id of the stream, if it has one.
    pub fn request_id(&self) -> (id: Option<i32>)
        ensures
            id == self.spec_request_id(),
    {
        self.request_id
    }

    /// The order id of the stream, if it has one.
    pub fn order_id(&self) -> (id: Option<i32>)
        ensures
            id == self.spec_order_id(),
    {
        self.order_id
    }

    /// The identity of the stream: its request id, or else its order id.
    pub fn id(&self) -> (id: Option<i32>)
        ensures
            id == self.spec_id(),
    {
        match self.request_id {
            Some(id) => Some(id),
            None => self.order_id,
        }
    }

    /// The type of the request that opened the stream.
    pub fn message_type(&self) -> (message_type: Option<OutgoingMessages>)
        ensures
            message_type == self.spec_message_type(),
    {
        self.message_type
    }

    /// How the responses of the stream are to be read.
    pub fn response_context(&self) -> (context: ResponseContext)
        ensures
            context == self.spec_response_context(),
    {
        self.response_context
    }

    /// Where the stream is in its life.
    pub fn phase(&self) -> (phase: Phase)
        ensures
            phase == self@.phase,
    {
        self.phase
    }

    /// Whether cancellation has taken place.
    pub fn is_cancelled(&self) -> (cancelled: bool)
        ensures
            cancelled == self@.cancelled,
    {
        self.cancelled
    }

    /// Whether nothing more will be delivered.
    pub fn is_closed(&self) -> (closed: bool)
        ensures
            closed == (self@.phase is Closed),
    {
        self.phase == Phase::Closed
    }

    /// Takes the outcome of one decoded message: a value is yielded, a
    /// mismatch is absorbed, the end closes the stream, and a failure closes
    /// it and is its last item. A closed stream yields nothing.
    pub fn accept(&mut self, outcome: ProcessingResult<T>) -> (handed: Pulled<T>)
        ensures
            handed == pulled(old(self)@, outcome),
            final(self)@ == step(old(self)@, Event::Pull(signal_of(outcome))),
            final(self).same_stream(old(self)),
    {
        if self.phase == Phase::Closed {
            return Pulled::Ready(None);
        }
        match outcome {
            ProcessingResult::Success(value) => Pulled::Ready(Some(Ok(value))),
            ProcessingResult::Retry => Pulled::Pending,
            ProcessingResult::EndOfStream => {
                self.phase = Phase::Closed;
                Pulled::Ready(None)
            },
            ProcessingResult::Error(error) => {
                self.phase = Phase::Closed;
                Pulled::Ready(Some(Err(error)))
            },
        }
    }

    /// Records that the channel was closed: nothing more will arrive.
    pub fn close(&mut self)
        ensures
            final(self)@ == step(old(self)@, Event::Pull(Signal::ChannelClosed)),
            final(self)@ == old(self)@.closed(),
            final(self).same_stream(old(self)),
    {
        self.phase = Phase::Closed;
    }

    /// Takes what the channel of raw messages gave: a message, or `None`
    /// where the channel was closed. A message is decoded by `D`, the result
    /// is classified, and `accept` says what to hand over. A closed stream
    /// decodes nothing.
    pub fn next<D: StreamDecoder<T>>(
        &mut self,
        server_version: i32,
        incoming: Option<ResponseMessage>,
    ) -> (handed: Pulled<T>)
        ensures
            follows_pull(old(self)@, final(self)@, handed),
            incoming is None ==> handed == Pulled::<T>::Ready(None),
            old(self)@.phase is Closed ==> handed == Pulled::<T>::Ready(None),
            final(self).same_stream(old(self)),
    {
        if self.phase == Phase::Closed {
            return Pulled::Ready(None);
        }
        match incoming {
            Some(message) => {
                let mut message = message;
                let result = D::decode(server_version, &mut message);
                self.accept(process_decode_result(result))
            },
            None => {
                self.close();
                Pulled::Ready(None)
            },
        }
    }

    /// Takes what the channel of decoded values gave and passes it on as it
    /// is: nothing is decoded or classified. `None` closes the stream, and a
    /// closed stream yields nothing.
    pub fn next_decoded(&mut self, incoming: Option<Result<T, Error>>) -> (handed: Option<
        Result<T, Error>,
    >)
        ensures
            !(old(self)@.phase is Closed) ==> handed == incoming,
            old(self)@.phase is Closed ==> handed is None,
            incoming is Some ==> final(self)@ == old(self)@,
            incoming is None ==> final(self)@ == old(self)@.closed(),
            final(self).same_stream(old(self)),
    {
        if self.phase == Phase::Closed {
            return None;
        }
        if incoming.is_none() {
            self.phase = Phase::Closed;
        }
        incoming
    }

    /// The number of handles on the stream that are in scope.
    pub fn handles(&self) -> (count: usize)
        ensures
            count == self@.handles,
    {
        self.handles
    }

    /// Settles a cancellation for which the decoder family was asked for
    /// its cancel request. Only the first cancellation of an active stream
    /// sets the flag, and it hands the request on if the stream can send
    /// one; building may fail, and the failure is dropped. A cancellation
    /// that sends nothing ends nothing: the stream goes on delivering.
    pub fn settle_cancel(&mut self, built: Result<RequestMessage, Error>) -> (message: Option<
        RequestMessage,
    >)
        ensures
            final(self)@ == step(old(self)@, Event::Cancel { built: built is Ok }),
            message is Some <==> sends(old(self)@, Event::Cancel { built: built is Ok }),
            message is Some ==> message == Some(built->Ok_0),
            final(self).same_stream(old(self)),
    {
        if self.phase != Phase::Active || self.cancelled {
            return None;
        }
        self.cancelled = true;
        if self.has_client && self.has_cancel_message {
            match built {
                Ok(request) => {
                    self.phase = Phase::Draining;
                    return Some(request);
                },
                Err(_) => {},
            }
        }
        None
    }

    /// Cancels the stream and says which request, if any, is to be sent.
    /// The call is idempotent: a stream that was cancelled before, through
    /// this handle or another, or that has closed, is left as it is and
    /// sends nothing.
    pub fn cancel<D: StreamDecoder<T>>(&mut self, server_version: i32) -> (message: Option<
        RequestMessage,
    >)
        ensures
            final(self)@ == step(old(self)@, Event::Cancel { built: message is Some }),
            message is Some <==> sends(old(self)@, Event::Cancel { built: message is Some }),
            final(self).same_stream(old(self)),
    {
        if self.phase != Phase::Active || self.cancelled {
            return None;
        }
        if !(self.has_client && self.has_cancel_message) {
            return self.settle_cancel(Err(Error::NotImplemented));
        }
        let context = self.response_context;
        let built = D::cancel_message(server_version, self.id(), Some(&context));
        self.settle_cancel(built)
    }

    /// Records that the cancel request was handed to the transport: the
    /// stream is closed.
    pub fn cancel_dispatched(&mut self)
        ensures
            final(self)@ == step(old(self)@, Event::CancelDispatched),
            final(self).same_stream(old(self)),
    {
        if self.phase == Phase::Draining {
            self.phase = Phase::Closed;
        }
    }

    /// Settles the end of a handle's scope, as `settle_cancel` does a
    /// cancellation: the first cancellation of an active stream sets the
    /// flag and hands the request on, which is sent without anyone waiting
    /// for it. The stream is closed when its last handle goes; while others
    /// are in scope it goes on delivering to them.
    pub fn settle_drop(&mut self, built: Result<RequestMessage, Error>) -> (message: Option<
        RequestMessage,
    >)
        ensures
            final(self)@ == step(old(self)@, Event::Drop { built: built is Ok }),
            message is Some <==> sends(old(self)@, Event::Drop { built: built is Ok }),
            message is Some ==> message == Some(built->Ok_0),
            final(self).same_stream(old(self)),
    {
        let first: bool = self.phase == Phase::Active && !self.cancelled;
        if self.phase == Phase::Active {
            self.cancelled = true;
        }
        if self.handles >= 1 {
            self.handles -= 1;
        }
        if self.handles == 0 {
            self.phase = Phase::Closed;
        }
        if first && self.has_client && self.has_cancel_message {
            match built {
                Ok(request) => {
                    return Some(request);
                },
                Err(_) => {},
            }
        }
        None
    }

    /// Ends the scope of a handle: a stream that is still active and was
    /// not cancelled is cancelled, and the request to send, if any, is
    /// handed back.
    pub fn on_drop<D: StreamDecoder<T>>(&mut self, server_version: i32) -> (message: Option<
        RequestMessage,
    >)
        ensures
            final(self)@ == step(old(self)@, Event::Drop { built: message is Some }),
            message is Some <==> sends(old(self)@, Event::Drop { built: message is Some }),
            final(self).same_stream(old(self)),
    {
        if self.phase != Phase::Active || self.cancelled || !(self.has_client
            && self.has_cancel_message) {
            return self.settle_drop(Err(Error::NotImplemented));
        }
        let context = self.response_context;
        let built = D::cancel_message(server_version, self.id(), Some(&context));
        self.settle_drop(built)
    }

    /// Whether the subscription can be duplicated: one that decodes raw
    /// messages can, one that is fed decoded values cannot.
    pub fn can_clone(&self) -> (possible: bool)
        ensures
            possible == (self.spec_source() == Source::Decoder),
    {
        self.source == Source::Decoder
    }

    /// Records a further handle on the stream. The handles share this one
    /// subscription: its identity, its decoder family and its cancellation
    /// flag, so that what one handle cancels no other cancels again.
    pub fn clone_handle(&mut self)
        requires
            old(self).spec_source() == Source::Decoder,
            old(self)@.handles < usize::MAX,
        ensures
            final(self)@ == step(old(self)@, Event::Duplicate),
            final(self).same_stream(old(self)),
    {
        self.handles += 1;
    }

    /// Records a further handle on the stream if the subscription can be
    /// duplicated, and says whether it did.
    pub fn try_clone_handle(&mut self) -> (made: bool)
        ensures
            made <==> old(self).spec_source() == Source::Decoder && old(self)@.handles
                < usize::MAX,
            made ==> final(self)@ == step(old(self)@, Event::Duplicate),
            !made ==> final(self)@ == old(self)@,
            final(self).same_stream(old(self)),
    {
        if self.can_clone() && self.handles < usize::MAX {
            self.clone_handle();
            true
        } else {
            false
        }
    }

    /// Takes the outcomes of a run of decoded messages, in the order in
    /// which the messages arrived, and returns the items that the stream
    /// yields for them, in that order.
    pub fn accept_all(&mut self, outcomes: Vec<ProcessingResult<T>>) -> (items: Vec<
        Result<T, Error>,
    >)
        ensures
            items@ == yielded(old(self)@, outcomes@),
            final(self)@ == run(old(self)@, pulls(outcomes@)),
            final(self).same_stream(old(self)),
    {
        let ghost all = outcomes@;
        let ghost start = self@;
        let mut queue = outcomes;
        let mut items: Vec<Result<T, Error>> = Vec::new();
        let ghost mut done: int = 0;
        proof {
            assert(all.take(0) =~= Seq::<ProcessingResult<T>>::empty());
            assert(pulls(all.take(0)) =~= Seq::<Event>::empty());
        }
        while queue.len() > 0
            invariant
                all == outcomes@,
                done + queue@.len() == all.len(),
                0 <= done,
                queue@ == all.skip(done),
                items@ == yielded(start, all.take(done)),
                self@ == run(start, pulls(all.take(done))),
                self.same_stream(old(self)),
            decreases queue.len(),
        {
            let outcome = queue.remove(0);
            proof {
                let grown = all.take(done + 1);
                assert(grown.drop_last() =~= all.take(done));
                assert(grown.last() == outcome);
                assert(pulls(grown).drop_last() =~= pulls(all.take(done)));
                assert(queue@ =~= all.skip(done + 1));
            }
            match self.accept(outcome) {
                Pulled::Ready(Some(item)) => {
                    items.push(item);
                },
                _ => {},
            }
            proof {
                done = done + 1;
            }
        }
        proof {
            assert(all.take(done) =~= all);
        }
        items
    }

    /// Takes a run of raw messages, in the order in which they arrived, and
    /// returns the items that the stream yields for them, in that order: the
    /// messages are decoded by `D` one by one until the stream closes, and
    /// the items are what `yielded` gives for the outcomes; no message is
    /// left undecoded while the stream is open. Whatever the
    /// decoder makes of the messages, a failure is the last item and closes
    /// the stream, and a closed stream decodes and yields nothing.
    pub fn drain<D: StreamDecoder<T>>(
        &mut self,
        server_version: i32,
        messages: Vec<ResponseMessage>,
    ) -> (items: Vec<Result<T, Error>>)
        ensures
            exists|outcomes: Seq<ProcessingResult<T>>|
                outcomes.len() <= messages@.len() && items@ == #[trigger] yielded(
                    old(self)@,
                    outcomes,
                ) && final(self)@ == run(old(self)@, pulls(outcomes)) && (final(self)@.phase
                    is Closed || outcomes.len() == messages@.len()),
            items@.len() <= messages@.len(),
            forall|i: int| 0 <= i < items@.len() - 1 ==> (#[trigger] items@[i]) is Ok,
            items@.len() > 0 && items@.last() is Err ==> final(self)@.phase is Closed,
            old(self)@.phase is Closed ==> items@.len() == 0,
            final(self)@ == old(self)@ || final(self)@ == old(self)@.closed(),
            final(self).same_stream(old(self)),
    {
        let mut queue = messages;
        let mut items: Vec<Result<T, Error>> = Vec::new();
        let ghost start = self@;
        let ghost mut outcomes: Seq<ProcessingResult<T>> = Seq::empty();
        proof {
            assert(pulls(outcomes) =~= Seq::<Event>::empty());
        }
        while queue.len() > 0 && self.phase != Phase::Closed
            invariant
                start == old(self)@,
                outcomes.len() + queue@.len() == messages@.len(),
                items@.len() <= outcomes.len(),
                items@ == yielded(start, outcomes),
                self@ == run(start, pulls(outcomes)),
                forall|i: int| 0 <= i < items@.len() - 1 ==> (#[trigger] items@[i]) is Ok,
                items@.len() > 0 && items@.last() is Err ==> self@.phase is Closed,
                start.phase is Closed ==> items@.len() == 0,
                self@ == start || self@ == start.closed(),
                self.same_stream(old(self)),
            decreases queue.len(),
        {
            let mut message = queue.remove(0);
            let result = D::decode(server_version, &mut message);
            let outcome = process_decode_result(result);
            proof {
                let grown = outcomes.push(outcome);
                assert(grown.drop_last() =~= outcomes);
                assert(pulls(grown).drop_last() =~= pulls(outcomes));
                outcomes = grown;
            }
            match self.accept(outcome) {
                Pulled::Ready(Some(item)) => {
                    items.push(item);
                },
                _ => {},
            }
        }
        items
    }
}

/// The pulls that a run of decoded messages amounts to.
pub open spec fn pulls<T>(outcomes: Seq<ProcessingResult<T>>) -> Seq<Event> {
    Seq::new(outcomes.len(), |i: int| Event::Pull(signal_of(outcomes[i])))
}

/// The state after a run of steps.
pub open spec fn run(state: StreamState, events: Seq<Event>) -> StreamState
    decreases events.len(),
{
    if events.len() == 0 {
        state
    } else {
        step(run(state, events.drop_last()), events.last())
    }
}

/// The items that a stream yields for a run of decoded messages.
pub open spec fn yielded<T>(state: StreamState, outcomes: Seq<ProcessingResult<T>>) -> Seq<
    Result<T, Error>,
>
    decreases outcomes.len(),
{
    if outcomes.len() == 0 {
        Seq::empty()
    } else {
        let before = yielded(state, outcomes.drop_last());
        let reached = run(state, pulls(outcomes.drop_last()));
        match pulled(reached, outcomes.last()) {
            Pulled::Ready(Some(item)) => before.push(item),
            _ => before,
        }
    }
}

/// The number of cancel requests that a run of steps makes.
pub open spec fn requests_sent(state: StreamState, events: Seq<Event>) -> nat
    decreases events.len(),
{
    if events.len() == 0 {
        0
    } else {
        requests_sent(state, events.drop_last()) + if sends(
            run(state, events.drop_last()),
            events.last(),
        ) {
            1nat
        } else {
            0nat
        }
    }
}

/// The number of items that a run of steps hands to the consumer.
pub open spec fn items_delivered(state: StreamState, events: Seq<Event>) -> nat
    decreases events.len(),
{
    if events.len() == 0 {
        0
    } else {
        items_delivered(state, events.drop_last()) + if delivers(
            run(state, events.drop_last()),
            events.last(),
        ) {
            1nat
        } else {
            0nat
        }
    }
}

/// Every step leads from a state that a subscription can be in to another,
/// and none changes whether the stream can send a cancel request.
pub proof fn lemma_step_keeps_well_formed(state: StreamState, event: Event)
    requires
        state.well_formed(),
    ensures
        step(state, event).well_formed(),
        step(state, event).can_send_cancel == state.can_send_cancel,
{
}

/// No step makes a stream active again, and none clears the cancellation
/// flag.
pub proof fn lemma_never_active_again(state: StreamState, events: Seq<Event>)
    ensures
        !(state.phase is Active) ==> !(run(state, events).phase is Active),
        state.cancelled ==> run(state, events).cancelled,
    decreases events.len(),
{
    if events.len() > 0 {
        lemma_never_active_again(state, events.drop_last());
    }
}

/// Cancellation happens at most once. However often `cancel` is called,
/// through however many handles, and whatever else happens in between or
/// whether handles go out of scope as well, one stream makes at most one
/// cancel request; each call being one atomic step on the one state, this
/// holds of calls from several threads in any order. A stream that is no
/// longer active, because it has ended or failed, or that was cancelled
/// before, makes none.
pub proof fn lemma_at_most_one_cancel_request(state: StreamState, events: Seq<Event>)
    ensures
        requests_sent(state, events) <= 1,
        requests_sent(state, events) == 1 ==> run(state, events).cancelled,
        !state.can_cancel() ==> requests_sent(state, events) == 0,
    decreases events.len(),
{
    if events.len() > 0 {
        lemma_at_most_one_cancel_request(state, events.drop_last());
        lemma_never_active_again(state, events.drop_last());
        lemma_never_active_again(state, events);
    }
}

/// A closed stream stays closed, hands nothing to the consumer and makes no
/// cancel request.
pub proof fn lemma_closed_is_final(state: StreamState, events: Seq<Event>)
    requires
        state.phase is Closed,
    ensures
        run(state, events).phase is Closed,
        items_delivered(state, events) == 0,
        requests_sent(state, events) == 0,
    decreases events.len(),
{
    if events.len() > 0 {
        lemma_closed_is_final(state, events.drop_last());
    }
}

/// A cancellation that sends nothing ends nothing. Where the stream cannot
/// send a cancel request, or none could be built, `cancel` sets the flag and
/// leaves the stream where it was: what arrives afterwards is handed over as
/// if the stream had not been cancelled.
pub proof fn lemma_cancel_without_request_keeps_delivering<T>(
    state: StreamState,
    built: bool,
    next: ProcessingResult<T>,
)
    requires
        !(state.can_send_cancel && built),
    ensures
        !sends(state, Event::Cancel { built }),
        step(state, Event::Cancel { built }).phase == state.phase,
        step(state, Event::Cancel { built }).handles == state.handles,
        state.phase is Active ==> step(state, Event::Cancel { built }).cancelled,
        pulled(step(state, Event::Cancel { built }), next) == pulled(state, next),
{
}

/// Handles share the cancellation flag. After a further handle is made,
/// what is cancelled through one handle is not cancelled again through the
/// other, neither by a call nor when it goes out of scope; and while one
/// handle is in scope, the other's going does not close the stream.
pub proof fn lemma_handles_share_cancellation(
    state: StreamState,
    first: bool,
    second: bool,
    third: bool,
)
    requires
        state.handles >= 1,
    ensures
        ({
            let shared = step(state, Event::Duplicate);
            let cancelled = step(shared, Event::Cancel { built: first });
            &&& shared.handles == state.handles + 1
            &&& shared.phase == state.phase && shared.cancelled == state.cancelled
            &&& !sends(cancelled, Event::Cancel { built: second })
            &&& !sends(cancelled, Event::Drop { built: second })
            &&& !sends(step(cancelled, Event::Drop { built: second }), Event::Drop { built: third })
            &&& step(cancelled, Event::Drop { built: second }).phase == cancelled.phase
            &&& step(shared, Event::Drop { built: first }).phase == state.phase
        }),
{
}

/// A failure is the last item of a stream: the step that delivers it closes
/// the stream, and so do the end of the stream and the closing of the
/// channel.
pub proof fn lemma_failure_is_terminal(state: StreamState, signal: Signal)
    requires
        signal is Fatal || signal is End || signal is ChannelClosed,
    ensures
        step(state, Event::Pull(signal)).phase is Closed,
{
}

/// A message of an unexpected shape is absorbed. The pull that finds it
/// hands neither a value nor a failure to the consumer and leaves the stream
/// as it was, so that the next message is treated as if the mismatched one
/// had never arrived.
pub proof fn lemma_mismatch_is_absorbed<T>(
    state: StreamState,
    message: ResponseMessage,
    next: ProcessingResult<T>,
)
    ensures
        classify::<T>(Err(Error::UnexpectedResponse(message))) == ProcessingResult::<T>::Retry,
        !(pulled::<T>(state, ProcessingResult::Retry) is Ready) || state.phase is Closed,
        !delivers(state, Event::Pull(Signal::Mismatch)),
        step(state, Event::Pull(Signal::Mismatch)) == state,
        pulled(step(state, Event::Pull(Signal::Mismatch)), next) == pulled(state, next),
{
}

/// Mismatched messages leave no trace in what a stream yields: a run of
/// outcomes yields the same items with a mismatch inserted anywhere.
pub proof fn lemma_mismatch_leaves_no_trace<T>(
    state: StreamState,
    outcomes: Seq<ProcessingResult<T>>,
    at: int,
)
    requires
        0 <= at <= outcomes.len(),
    ensures
        yielded(state, outcomes.insert(at, ProcessingResult::Retry)) == yielded(state, outcomes),
        run(state, pulls(outcomes.insert(at, ProcessingResult::Retry))) == run(
            state,
            pulls(outcomes),
        ),
    decreases outcomes.len(),
{
    let with = outcomes.insert(at, ProcessingResult::Retry);
    if at == outcomes.len() {
        assert(with.drop_last() =~= outcomes);
        assert(pulls(with).drop_last() =~= pulls(outcomes));
        assert(pulls(with).last() == Event::Pull(Signal::Mismatch));
    } else {
        lemma_mismatch_leaves_no_trace(state, outcomes.drop_last(), at);
        assert(with.drop_last() =~= outcomes.drop_last().insert(at, ProcessingResult::Retry));
        assert(with.last() == outcomes.last());
        assert(pulls(with).drop_last() =~= pulls(with.drop_last()));
        assert(pulls(outcomes).drop_last() =~= pulls(outcomes.drop_last()));
        assert(pulls(with).last() == pulls(outcomes).last());
    }
}

} // verus!
