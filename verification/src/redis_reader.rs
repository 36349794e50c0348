use vstd::prelude::*;

verus! {

// ---------------------------------------------------------------------------------------------
// The mathematical model of the reader. Every collector below is a small state machine that is
// fed one byte at a time; the spec functions in this section say what a single step does, and the
// executable `take` methods are proved to follow them.
// ---------------------------------------------------------------------------------------------

/// The carriage return byte.
pub open spec fn cr() -> u8 {
    13u8
}

/// The line feed byte.
pub open spec fn lf() -> u8 {
    10u8
}

/// The state of a size collector before it has seen any byte.
pub open spec fn initial_size() -> SizeCollector {
    SizeCollector { size: 0, terminating: false, sign: 1 }
}

/// What one step of a size collector produces.
pub enum SizeOutcome {
    /// The size line was terminated; the signed size.
    Complete(i32),
    /// The collector wants more bytes.
    Incomplete(SizeCollector),
}

/// The abstract state of a bulk string collector.
pub enum StringModel {
    /// Reading the length line.
    Sizing(SizeCollector),
    /// Reading the payload and its terminator.
    Collecting { total_count: i32, current_count: i32, items: Seq<u8> },
}

/// What one step of a bulk string collector produces.
pub enum StringOutcome {
    /// The payload that was read.
    Finished(Seq<u8>),
    /// The collector wants more bytes.
    Incomplete(StringModel),
}

/// The abstract state of an array collector.
pub enum ArrayModel {
    /// Reading the element count line.
    Sizing(SizeCollector),
    /// Reading the elements, each one a bulk string.
    Collecting { total_count: i32, current_count: i32, head: StringModel, items: Seq<Seq<u8>> },
}

/// What one step of an array collector produces.
pub enum ArrayOutcome {
    /// The elements that were read.
    Finished(Seq<Seq<u8>>),
    /// The collector wants more bytes.
    Incomplete(ArrayModel),
}

/// The abstract value of a parsed response.
pub enum ResponseModel {
    /// The input ended before a response was complete.
    Empty,
    /// The input was rejected; the reason.
    Failed(Seq<char>),
    /// An array of bulk strings.
    Array(Seq<Seq<u8>>),
    /// A bulk string.
    String(Seq<u8>),
    /// An integer.
    Int(i32),
}

/// The abstract state of the top level reader.
pub enum MessageModel {
    /// Nothing read yet.
    Initial,
    /// Reading an array.
    Array(ArrayModel),
    /// Reading a bulk string.
    String(StringModel),
    /// Reading an integer.
    Int(SizeCollector),
    /// A response was read.
    Complete(ResponseModel),
    /// The input was rejected.
    Failed(Seq<char>),
}

/// One step of the size collector.
pub open spec fn size_step(c: SizeCollector, token: u8) -> SizeOutcome {
    if token == 45u8 {
        SizeOutcome::Incomplete(SizeCollector { size: 0, terminating: false, sign: -1i32 })
    } else if token == cr() {
        SizeOutcome::Incomplete(SizeCollector { size: c.size, terminating: true, sign: c.sign })
    } else if c.terminating && token == lf() {
        SizeOutcome::Complete((c.size * c.sign) as i32)
    } else {
        SizeOutcome::Incomplete(
            SizeCollector {
                size: (c.size * 10 + (token - 48)) as i32,
                terminating: c.terminating,
                sign: c.sign,
            },
        )
    }
}

/// The bytes on which a size collector step stays within `i32` arithmetic.
pub open spec fn size_take_ok(c: SizeCollector, token: u8) -> bool {
    if token == 45u8 || token == cr() {
        true
    } else if c.terminating && token == lf() {
        i32::MIN <= c.size * c.sign <= i32::MAX
    } else {
        &&& token >= 48
        &&& i32::MIN <= c.size * 10 <= i32::MAX
        &&& i32::MIN <= c.size * 10 + (token - 48) <= i32::MAX
    }
}

/// One step of the bulk string collector.
pub open spec fn string_step(s: StringModel, token: u8) -> StringOutcome {
    match s {
        StringModel::Sizing(c) => {
            if token == 36u8 {
                StringOutcome::Incomplete(StringModel::Sizing(initial_size()))
            } else {
                match size_step(c, token) {
                    SizeOutcome::Complete(n) => StringOutcome::Incomplete(
                        StringModel::Collecting { total_count: n, current_count: 0, items: seq![] },
                    ),
                    SizeOutcome::Incomplete(next) => StringOutcome::Incomplete(
                        StringModel::Sizing(next),
                    ),
                }
            }
        },
        StringModel::Collecting { total_count, current_count, items } => {
            let kept = if current_count < total_count {
                items.push(token)
            } else {
                items
            };
            if current_count == total_count + 1 {
                StringOutcome::Finished(kept)
            } else {
                StringOutcome::Incomplete(
                    StringModel::Collecting {
                        total_count,
                        current_count: (current_count + 1) as i32,
                        items: kept,
                    },
                )
            }
        },
    }
}

/// The bytes on which a bulk string collector step stays within `i32` arithmetic.
pub open spec fn string_take_ok(s: StringModel, token: u8) -> bool {
    match s {
        StringModel::Sizing(c) => token == 36u8 || size_take_ok(c, token),
        StringModel::Collecting { total_count, current_count, .. } => {
            total_count < i32::MAX && (current_count == total_count + 1 || current_count
                < i32::MAX)
        },
    }
}

/// One step of the array collector.
pub open spec fn array_step(a: ArrayModel, token: u8) -> ArrayOutcome {
    match a {
        ArrayModel::Sizing(c) => match size_step(c, token) {
            SizeOutcome::Complete(n) => {
                if n < 1 {
                    ArrayOutcome::Finished(seq![])
                } else {
                    ArrayOutcome::Incomplete(
                        ArrayModel::Collecting {
                            total_count: n,
                            current_count: 0,
                            head: StringModel::Sizing(initial_size()),
                            items: seq![],
                        },
                    )
                }
            },
            SizeOutcome::Incomplete(next) => ArrayOutcome::Incomplete(ArrayModel::Sizing(next)),
        },
        ArrayModel::Collecting { total_count, current_count, head, items } => match string_step(
            head,
            token,
        ) {
            StringOutcome::Finished(buffer) => {
                if current_count + 1 == total_count {
                    ArrayOutcome::Finished(items.push(buffer))
                } else {
                    ArrayOutcome::Incomplete(
                        ArrayModel::Collecting {
                            total_count,
                            current_count: (current_count + 1) as i32,
                            head: StringModel::Sizing(initial_size()),
                            items: items.push(buffer),
                        },
                    )
                }
            },
            StringOutcome::Incomplete(next) => ArrayOutcome::Incomplete(
                ArrayModel::Collecting { total_count, current_count, head: next, items },
            ),
        },
    }
}

/// The bytes on which an array collector step stays within `i32` arithmetic.
pub open spec fn array_take_ok(a: ArrayModel, token: u8) -> bool {
    match a {
        ArrayModel::Sizing(c) => size_take_ok(c, token),
        ArrayModel::Collecting { current_count, head, .. } => {
            &&& string_take_ok(head, token)
            &&& (string_step(head, token) is Finished ==> current_count < i32::MAX)
        },
    }
}

/// The reason given when a message does not start with a known type byte.
pub open spec fn invalid_start() -> Seq<char> {
    "invalid start"@
}

/// One step of the top level reader.
pub open spec fn message_step(m: MessageModel, token: u8) -> MessageModel {
    match m {
        MessageModel::Initial => {
            if token == 42u8 {
                MessageModel::Array(ArrayModel::Sizing(initial_size()))
            } else if token == 58u8 {
                MessageModel::Int(initial_size())
            } else if token == 45u8 {
                MessageModel::Initial
            } else if token == 36u8 {
                MessageModel::String(StringModel::Sizing(initial_size()))
            } else {
                MessageModel::Failed(invalid_start())
            }
        },
        MessageModel::Complete(r) => MessageModel::Complete(r),
        MessageModel::Int(c) => match size_step(c, token) {
            SizeOutcome::Incomplete(next) => MessageModel::Int(next),
            SizeOutcome::Complete(n) => MessageModel::Complete(ResponseModel::Int(n)),
        },
        MessageModel::String(s) => match string_step(s, token) {
            StringOutcome::Incomplete(next) => MessageModel::String(next),
            StringOutcome::Finished(b) => MessageModel::Complete(ResponseModel::String(b)),
        },
        MessageModel::Array(a) => match array_step(a, token) {
            ArrayOutcome::Incomplete(next) => MessageModel::Array(next),
            ArrayOutcome::Finished(bs) => MessageModel::Complete(ResponseModel::Array(bs)),
        },
        MessageModel::Failed(e) => MessageModel::Failed(e),
    }
}

/// The bytes on which a step of the top level reader stays within `i32` arithmetic.
pub open spec fn message_take_ok(m: MessageModel, token: u8) -> bool {
    match m {
        MessageModel::Int(c) => size_take_ok(c, token),
        MessageModel::String(s) => string_take_ok(s, token),
        MessageModel::Array(a) => array_take_ok(a, token),
        _ => true,
    }
}

/// Whether the reader has stopped: it holds a response or a failure.
pub open spec fn is_terminal(m: MessageModel) -> bool {
    m is Complete || m is Failed
}

/// The response the reader produces when fed `tokens` from state `m`: it stops at the first
/// completed response or failure, and answers `Empty` when the input runs out first.
pub open spec fn parse_from(m: MessageModel, tokens: Seq<u8>) -> ResponseModel
    decreases tokens.len(),
{
    if tokens.len() == 0 {
        ResponseModel::Empty
    } else {
        let next = message_step(m, tokens[0]);
        match next {
            MessageModel::Complete(r) => r,
            MessageModel::Failed(e) => ResponseModel::Failed(e),
            _ => parse_from(next, tokens.drop_first()),
        }
    }
}

/// Every step the reader takes on `tokens` from `m`, up to the point where it stops, stays
/// within `i32` arithmetic.
pub open spec fn parse_safe(m: MessageModel, tokens: Seq<u8>) -> bool
    decreases tokens.len(),
{
    if tokens.len() == 0 {
        true
    } else {
        let next = message_step(m, tokens[0]);
        &&& message_take_ok(m, tokens[0])
        &&& (is_terminal(next) || parse_safe(next, tokens.drop_first()))
    }
}

/// The response read from a complete input.
pub open spec fn parse_response(tokens: Seq<u8>) -> ResponseModel {
    parse_from(MessageModel::Initial, tokens)
}

// ---------------------------------------------------------------------------------------------
// The executable collectors.
// ---------------------------------------------------------------------------------------------

/// The result of feeding a byte to a size collector.
pub enum SizeResult {
    /// The size line is complete; the signed size.
    Complete(i32),
    /// More bytes are needed.
    Incomplete(Result<SizeCollector, String>),
}

/// Reads a signed decimal size line, such as `-1\r\n` or `12\r\n`.
#[derive(Debug, PartialEq, Eq, Clone, Copy)]
pub struct SizeCollector {
    /// The magnitude read so far.
    pub size: i32,
    /// Whether the carriage return has been seen.
    pub terminating: bool,
    /// The sign, `1` or `-1`.
    pub sign: i32,
}

impl Default for SizeCollector {
    fn default() -> (c: Self)
        ensures
            c == initial_size(),
    {
        Self { size: 0, terminating: false, sign: 1 }
    }
}

/// Whether an executable size result is the outcome the model gives.
pub open spec fn size_result_is(r: SizeResult, o: SizeOutcome) -> bool {
    match r {
        SizeResult::Complete(n) => o == SizeOutcome::Complete(n),
        SizeResult::Incomplete(Ok(c)) => o == SizeOutcome::Incomplete(c),
        SizeResult::Incomplete(Err(_)) => false,
    }
}

impl SizeCollector {
    /// Whether the collector may be fed this byte: its arithmetic stays within `i32`.
    pub fn accepts(&self, token: u8) -> (ok: bool)
        ensures
            ok == size_take_ok(*self, token),
    {
        if token == 45u8 || token == 13u8 {
            true
        } else if self.terminating && token == 10u8 {
            let size = self.size as i64;
            let sign = self.sign as i64;
            assert(-0x4000_0000_0000_0000 <= size * sign <= 0x4000_0000_0000_0000) by (nonlinear_arith)
                requires
                    -0x8000_0000 <= size <= 0x7fff_ffff,
                    -0x8000_0000 <= sign <= 0x7fff_ffff,
            {
            }
            let product = size * sign;
            i32::MIN as i64 <= product && product <= i32::MAX as i64
        } else {
            let tens = self.size as i64 * 10;
            let next = tens + (token as i64 - 48);
            token >= 48 && i32::MIN as i64 <= tens && tens <= i32::MAX as i64 && i32::MIN as i64
                <= next && next <= i32::MAX as i64
        }
    }

    /// Feeds one byte to the collector.
    pub fn take(self, token: u8) -> (r: SizeResult)
        requires
            size_take_ok(self, token),
        ensures
            size_result_is(r, size_step(self, token)),
    {
        let mut collector = self;
        if token == 45u8 {
            return SizeResult::Incomplete(Ok(Self { size: 0, terminating: false, sign: -1 }));
        }
        if token == 13u8 {
            return SizeResult::Incomplete(
                Ok(Self { size: self.size, terminating: true, sign: self.sign }),
            );
        }
        if self.terminating && token == 10u8 {
            return SizeResult::Complete(self.size * self.sign);
        }
        collector.size = (collector.size * 10) + (token - 48u8) as i32;
        SizeResult::Incomplete(Ok(collector))
    }
}

/// Reads a bulk string: a size line followed by that many bytes and a terminator.
#[derive(Debug, PartialEq)]
pub enum StringCollector {
    /// Reading the length line.
    Sizing(SizeCollector),
    /// Reading the payload.
    Collecting {
        /// The length of the string.
        total_count: i32,
        /// How many bytes have been seen.
        current_count: i32,
        /// The payload read so far.
        items: Vec<u8>,
    },
}

impl View for StringCollector {
    type V = StringModel;

    open spec fn view(&self) -> StringModel {
        match self {
            StringCollector::Sizing(c) => StringModel::Sizing(*c),
            StringCollector::Collecting { total_count, current_count, items } => {
                StringModel::Collecting {
                    total_count: *total_count,
                    current_count: *current_count,
                    items: items@,
                }
            },
        }
    }
}

/// The result of feeding a byte to a bulk string collector.
pub enum StringCollectorResult {
    /// The payload that was read.
    Finished(Vec<u8>),
    /// More bytes are needed.
    Incomplete(Result<StringCollector, String>),
}

/// Whether an executable bulk string result is the outcome the model gives.
pub open spec fn string_result_is(r: StringCollectorResult, o: StringOutcome) -> bool {
    match r {
        StringCollectorResult::Finished(b) => o == StringOutcome::Finished(b@),
        StringCollectorResult::Incomplete(Ok(s)) => o == StringOutcome::Incomplete(s@),
        StringCollectorResult::Incomplete(Err(_)) => false,
    }
}

impl StringCollector {
    /// Whether the collector may be fed this byte: its counts stay within `i32`.
    pub fn accepts(&self, token: u8) -> (ok: bool)
        ensures
            ok == string_take_ok(self@, token),
    {
        match self {
            Self::Sizing(collector) => token == 36u8 || collector.accepts(token),
            Self::Collecting { total_count, current_count, .. } => *total_count < i32::MAX && (
            *current_count as i64 == *total_count as i64 + 1 || *current_count < i32::MAX),
        }
    }

    /// Whether this byte completes the bulk string being collected.
    pub fn finishes_with(&self, token: u8) -> (done: bool)
        ensures
            done == (string_step(self@, token) is Finished),
    {
        match self {
            Self::Sizing(_) => false,
            Self::Collecting { total_count, current_count, .. } => *current_count as i64
                == *total_count as i64 + 1,
        }
    }

    /// Feeds one byte to the collector.
    pub fn take(self, token: u8) -> (r: StringCollectorResult)
        requires
            string_take_ok(self@, token),
        ensures
            string_result_is(r, string_step(self@, token)),
    {
        match self {
            Self::Sizing(collector) => {
                if token == 36u8 {
                    return StringCollectorResult::Incomplete(
                        Ok(Self::Sizing(SizeCollector::default())),
                    );
                }
                match collector.take(token) {
                    SizeResult::Complete(size) => StringCollectorResult::Incomplete(
                        Ok(Self::Collecting { total_count: size, current_count: 0, items: Vec::new() }),
                    ),
                    SizeResult::Incomplete(Ok(collector)) => StringCollectorResult::Incomplete(
                        Ok(Self::Sizing(collector)),
                    ),
                    SizeResult::Incomplete(Err(e)) => StringCollectorResult::Incomplete(Err(e)),
                }
            },
            Self::Collecting { current_count, total_count, mut items } => {
                if current_count < total_count {
                    items.push(token);
                }
                if current_count == total_count + 1 {
                    return StringCollectorResult::Finished(items);
                }
                StringCollectorResult::Incomplete(
                    Ok(Self::Collecting { current_count: current_count + 1, total_count, items }),
                )
            },
        }
    }
}

/// The abstract value of a list of byte buffers.
pub open spec fn buffers_view(v: Seq<Vec<u8>>) -> Seq<Seq<u8>> {
    v.map_values(|b: Vec<u8>| b@)
}

/// Reads an array of bulk strings: a count line followed by that many bulk strings.
#[derive(Debug, PartialEq)]
pub enum ArrayMessage {
    /// Reading the count line.
    Sizing(SizeCollector),
    /// Reading the elements.
    Collecting {
        /// The length of the array.
        total_count: i32,
        /// How many elements have been read.
        current_count: i32,
        /// The collector of the element being read.
        head: StringCollector,
        /// Our list of accumulated items.
        items: Vec<Vec<u8>>,
    },
}

impl View for ArrayMessage {
    type V = ArrayModel;

    open spec fn view(&self) -> ArrayModel {
        match self {
            ArrayMessage::Sizing(c) => ArrayModel::Sizing(*c),
            ArrayMessage::Collecting { total_count, current_count, head, items } => {
                ArrayModel::Collecting {
                    total_count: *total_count,
                    current_count: *current_count,
                    head: head@,
                    items: buffers_view(items@),
                }
            },
        }
    }
}

impl Default for ArrayMessage {
    fn default() -> (a: Self)
        ensures
            a@ == ArrayModel::Sizing(initial_size()),
    {
        Self::Sizing(SizeCollector::default())
    }
}

/// The result of feeding a byte to an array collector.
pub enum ArrayCollectionResult {
    /// The elements that were read.
    Finished(Vec<Vec<u8>>),
    /// More bytes are needed.
    Incomplete(Result<ArrayMessage, String>),
}

/// Whether an executable array result is the outcome the model gives.
pub open spec fn array_result_is(r: ArrayCollectionResult, o: ArrayOutcome) -> bool {
    match r {
        ArrayCollectionResult::Finished(b) => o == ArrayOutcome::Finished(buffers_view(b@)),
        ArrayCollectionResult::Incomplete(Ok(a)) => o == ArrayOutcome::Incomplete(a@),
        ArrayCollectionResult::Incomplete(Err(_)) => false,
    }
}

impl ArrayMessage {
    /// Whether the collector may be fed this byte: its counts stay within `i32`.
    pub fn accepts(&self, token: u8) -> (ok: bool)
        ensures
            ok == array_take_ok(self@, token),
    {
        match self {
            Self::Sizing(collector) => collector.accepts(token),
            Self::Collecting { current_count, head, .. } => head.accepts(token) && (
            !head.finishes_with(token) || *current_count < i32::MAX),
        }
    }

    /// Feeds one byte to the collector.
    pub fn take(self, token: u8) -> (r: ArrayCollectionResult)
        requires
            array_take_ok(self@, token),
        ensures
            array_result_is(r, array_step(self@, token)),
    {
        match self {
            Self::Sizing(collector) => match collector.take(token) {
                SizeResult::Complete(size) => {
                    if size < 1 {
                        let empty: Vec<Vec<u8>> = Vec::new();
                        assert(buffers_view(empty@) =~= Seq::<Seq<u8>>::empty());
                        return ArrayCollectionResult::Finished(empty);
                    }
                    let items: Vec<Vec<u8>> = Vec::new();
                    assert(buffers_view(items@) =~= Seq::<Seq<u8>>::empty());
                    ArrayCollectionResult::Incomplete(
                        Ok(
                            Self::Collecting {
                                total_count: size,
                                current_count: 0,
                                head: StringCollector::Sizing(SizeCollector::default()),
                                items,
                            },
                        ),
                    )
                },
                SizeResult::Incomplete(Ok(collector)) => ArrayCollectionResult::Incomplete(
                    Ok(Self::Sizing(collector)),
                ),
                SizeResult::Incomplete(Err(e)) => ArrayCollectionResult::Incomplete(Err(e)),
            },
            Self::Collecting { total_count, current_count, mut items, head } => match head.take(
                token,
            ) {
                StringCollectorResult::Finished(buffer) => {
                    let ghost before = items@;
                    let ghost buffer_view = buffer@;
                    items.push(buffer);
                    assert(buffers_view(items@) =~= buffers_view(before).push(buffer_view));
                    if current_count + 1 == total_count {
                        return ArrayCollectionResult::Finished(items);
                    }
                    ArrayCollectionResult::Incomplete(
                        Ok(
                            Self::Collecting {
                                total_count,
                                current_count: current_count + 1,
                                items,
                                head: StringCollector::Sizing(SizeCollector::default()),
                            },
                        ),
                    )
                },
                StringCollectorResult::Incomplete(Ok(next)) => ArrayCollectionResult::Incomplete(
                    Ok(Self::Collecting { total_count, current_count, items, head: next }),
                ),
                StringCollectorResult::Incomplete(Err(next)) => ArrayCollectionResult::Incomplete(
                    Err(next),
                ),
            },
        }
    }
}

/// A response read from redis.
#[derive(Debug, PartialEq)]
pub enum RedisResponse {
    /// The input ended before a response was complete.
    Empty,
    /// The input was rejected; the reason.
    Failed(String),
    /// An array of bulk strings.
    Array(Vec<Vec<u8>>),
    /// A bulk string.
    String(Vec<u8>),
    /// An integer.
    Int(i32),
}

impl View for RedisResponse {
    type V = ResponseModel;

    open spec fn view(&self) -> ResponseModel {
        match self {
            RedisResponse::Empty => ResponseModel::Empty,
            RedisResponse::Failed(e) => ResponseModel::Failed(e@),
            RedisResponse::Array(items) => ResponseModel::Array(buffers_view(items@)),
            RedisResponse::String(b) => ResponseModel::String(b@),
            RedisResponse::Int(n) => ResponseModel::Int(*n),
        }
    }
}

/// The top level reader of a single redis response.
#[derive(Debug)]
pub enum MessageState {
    /// Nothing read yet.
    Initial,
    /// Reading an array.
    Array(ArrayMessage),
    /// Reading a bulk string.
    String(StringCollector),
    /// Reading an integer.
    Int(SizeCollector),
    /// A response was read.
    Complete(RedisResponse),
    /// The input was rejected.
    Failed(String),
}

impl View for MessageState {
    type V = MessageModel;

    open spec fn view(&self) -> MessageModel {
        match self {
            MessageState::Initial => MessageModel::Initial,
            MessageState::Array(a) => MessageModel::Array(a@),
            MessageState::String(s) => MessageModel::String(s@),
            MessageState::Int(c) => MessageModel::Int(*c),
            MessageState::Complete(r) => MessageModel::Complete(r@),
            MessageState::Failed(e) => MessageModel::Failed(e@),
        }
    }
}

impl Default for MessageState {
    fn default() -> (m: Self)
        ensures
            m@ == MessageModel::Initial,
    {
        MessageState::Initial
    }
}

impl MessageState {
    /// Whether the reader may be fed this byte: its arithmetic stays within `i32`.
    pub fn accepts(&self, token: u8) -> (ok: bool)
        ensures
            ok == message_take_ok(self@, token),
    {
        match self {
            MessageState::Int(collector) => collector.accepts(token),
            MessageState::String(collector) => collector.accepts(token),
            MessageState::Array(collector) => collector.accepts(token),
            _ => true,
        }
    }

    /// Feeds one byte to the reader.
    pub fn take(self, token: u8) -> (next: Self)
        requires
            message_take_ok(self@, token),
        ensures
            next@ == message_step(self@, token),
    {
        match self {
            MessageState::Initial => {
                if token == 42u8 {
                    MessageState::Array(ArrayMessage::default())
                } else if token == 58u8 {
                    MessageState::Int(SizeCollector::default())
                } else if token == 45u8 {
                    MessageState::Initial
                } else if token == 36u8 {
                    MessageState::String(StringCollector::Sizing(SizeCollector::default()))
                } else {
                    let reason = String::from_str("invalid start");
                    MessageState::Failed(reason)
                }
            },
            MessageState::Complete(response) => MessageState::Complete(response),
            MessageState::Int(collector) => match collector.take(token) {
                SizeResult::Incomplete(Ok(next)) => MessageState::Int(next),
                SizeResult::Incomplete(Err(e)) => MessageState::Failed(e),
                SizeResult::Complete(amount) => MessageState::Complete(RedisResponse::Int(amount)),
            },
            MessageState::String(collector) => match collector.take(token) {
                StringCollectorResult::Incomplete(Ok(next)) => MessageState::String(next),
                StringCollectorResult::Incomplete(Err(e)) => MessageState::Failed(e),
                StringCollectorResult::Finished(buffer) => MessageState::Complete(
                    RedisResponse::String(buffer),
                ),
            },
            MessageState::Array(array) => match array.take(token) {
                ArrayCollectionResult::Incomplete(Ok(next)) => MessageState::Array(next),
                ArrayCollectionResult::Incomplete(Err(e)) => MessageState::Failed(e),
                ArrayCollectionResult::Finished(buffers) => MessageState::Complete(
                    RedisResponse::Array(buffers),
                ),
            },
            MessageState::Failed(e) => MessageState::Failed(e),
        }
    }
}

impl RedisResponse {
    /// Reads one response from the bytes: the first complete response, the failure if the input
    /// is rejected first, or `Empty` when the bytes run out before either.
    pub fn from_iter(tokens: &[u8]) -> (r: Self)
        requires
            parse_safe(MessageModel::Initial, tokens@),
        ensures
            r@ == parse_response(tokens@),
    {
        let mut state = MessageState::default();
        let mut i: usize = 0;
        assert(tokens@.skip(0) =~= tokens@);
        while i < tokens.len()
            invariant
                i <= tokens@.len(),
                !is_terminal(state@),
                parse_from(state@, tokens@.skip(i as int)) == parse_response(tokens@),
                parse_safe(state@, tokens@.skip(i as int)),
            decreases tokens@.len() - i,
        {
            let ghost rest = tokens@.skip(i as int);
            assert(rest[0] == tokens@[i as int]);
            assert(rest.drop_first() =~= tokens@.skip(i + 1));
            state = state.take(tokens[i]);
            i = i + 1;
            match state {
                MessageState::Complete(response) => {
                    return response;
                },
                MessageState::Failed(error) => {
                    return RedisResponse::Failed(error);
                },
                other => {
                    state = other;
                },
            }
        }
        RedisResponse::Empty
    }
}

} // verus!
