use vstd::prelude::*;
use crate::redis_reader::{
    initial_size, invalid_start, is_terminal, message_step, message_take_ok, parse_from, parse_response,
    parse_safe, size_step, size_take_ok, string_step, string_take_ok, ArrayModel, MessageModel,
    ResponseModel, SizeCollector, StringModel, StringOutcome,
};

verus! {

// ---------------------------------------------------------------------------------------------
// Encodings of the redis wire format, as the reader expects them.
// ---------------------------------------------------------------------------------------------

/// An ascii decimal digit.
pub open spec fn is_digit(b: u8) -> bool {
    48 <= b <= 57
}

/// A sequence made only of ascii decimal digits.
pub open spec fn all_digits(ds: Seq<u8>) -> bool {
    forall|i: int| 0 <= i < ds.len() ==> is_digit(#[trigger] ds[i])
}

/// The number that a sequence of decimal digits spells.
pub open spec fn decimal_value(ds: Seq<u8>) -> nat
    decreases ds.len(),
{
    if ds.len() == 0 {
        0
    } else {
        decimal_value(ds.drop_last()) * 10 + (ds.last() - 48) as nat
    }
}

/// The shortest decimal spelling of a natural number.
pub open spec fn decimal(n: nat) -> Seq<u8>
    decreases n,
{
    if n < 10 {
        seq![(n + 48) as u8]
    } else {
        decimal(n / 10).push((n % 10 + 48) as u8)
    }
}

/// The decimal spelling of an integer, with a leading `-` when it is negative.
pub open spec fn signed_decimal(n: int) -> Seq<u8> {
    if n < 0 {
        seq![45u8] + decimal((-n) as nat)
    } else {
        decimal(n as nat)
    }
}

/// The line terminator `\r\n`.
pub open spec fn crlf() -> Seq<u8> {
    seq![13u8, 10u8]
}

/// The wire form of an integer: `:<n>\r\n`.
pub open spec fn encode_integer(n: int) -> Seq<u8> {
    seq![58u8] + signed_decimal(n) + crlf()
}

/// The wire form of a bulk string: `$<len>\r\n<bytes>\r\n`.
pub open spec fn encode_bulk(b: Seq<u8>) -> Seq<u8> {
    seq![36u8] + decimal(b.len()) + crlf() + b + crlf()
}

/// The wire forms of several bulk strings, one after the other.
pub open spec fn encode_bulks(items: Seq<Seq<u8>>) -> Seq<u8>
    decreases items.len(),
{
    if items.len() == 0 {
        seq![]
    } else {
        encode_bulks(items.drop_last()) + encode_bulk(items.last())
    }
}

/// The wire form of an array of bulk strings: `*<count>\r\n` followed by the elements.
pub open spec fn encode_array(items: Seq<Seq<u8>>) -> Seq<u8> {
    seq![42u8] + decimal(items.len()) + crlf() + encode_bulks(items)
}

// ---------------------------------------------------------------------------------------------
// Running the reader over several bytes.
// ---------------------------------------------------------------------------------------------

/// The state the reader reaches after being fed `tokens` from `m`.
pub open spec fn run(m: MessageModel, tokens: Seq<u8>) -> MessageModel
    decreases tokens.len(),
{
    if tokens.len() == 0 {
        m
    } else {
        run(message_step(m, tokens[0]), tokens.drop_first())
    }
}

/// Every step on `tokens` from `m` stays within `i32` arithmetic and leaves the reader still
/// reading.
pub open spec fn run_open(m: MessageModel, tokens: Seq<u8>) -> bool
    decreases tokens.len(),
{
    if tokens.len() == 0 {
        true
    } else {
        let next = message_step(m, tokens[0]);
        &&& message_take_ok(m, tokens[0])
        &&& !is_terminal(next)
        &&& run_open(next, tokens.drop_first())
    }
}

proof fn lemma_run_concat(m: MessageModel, a: Seq<u8>, b: Seq<u8>)
    ensures
        run(m, a + b) == run(run(m, a), b),
        run_open(m, a) && run_open(run(m, a), b) ==> run_open(m, a + b),
        run_open(m, a) ==> parse_from(m, a + b) == parse_from(run(m, a), b),
        run_open(m, a) && parse_safe(run(m, a), b) ==> parse_safe(m, a + b),
    decreases a.len(),
{
    if a.len() == 0 {
        assert(a + b =~= b);
    } else {
        assert((a + b)[0] == a[0]);
        assert((a + b).drop_first() =~= a.drop_first() + b);
        lemma_run_concat(message_step(m, a[0]), a.drop_first(), b);
    }
}

proof fn lemma_run_push(m: MessageModel, a: Seq<u8>, t: u8)
    ensures
        run(m, a.push(t)) == message_step(run(m, a), t),
        run_open(m, a) && message_take_ok(run(m, a), t) && !is_terminal(
            message_step(run(m, a), t),
        ) ==> run_open(m, a.push(t)),
{
    lemma_run_concat(m, a, seq![t]);
    assert(a.push(t) =~= a + seq![t]);
    let x = run(m, a);
    let one = seq![t];
    assert(one[0] == t);
    assert(one.drop_first() =~= Seq::<u8>::empty());
    assert(run(x, one) == run(message_step(x, t), one.drop_first()));
    assert(run_open(message_step(x, t), one.drop_first()));
}

/// Feeding a stopped reader more bytes leaves the answer it gives unchanged.
proof fn lemma_parse_stops(m: MessageModel, t: u8, rest: Seq<u8>)
    requires
        message_take_ok(m, t),
        is_terminal(message_step(m, t)),
    ensures
        parse_safe(m, seq![t] + rest),
        parse_from(m, seq![t] + rest) == match message_step(m, t) {
            MessageModel::Complete(r) => r,
            MessageModel::Failed(e) => ResponseModel::Failed(e),
            _ => ResponseModel::Empty,
        },
{
    assert((seq![t] + rest)[0] == t);
}

// ---------------------------------------------------------------------------------------------
// Reading digits, payloads and terminators inside any surrounding state.
// ---------------------------------------------------------------------------------------------

/// A way of embedding a size collector into a reader state such that the reader follows the
/// collector step for step on digits.
pub open spec fn size_context(ctx: spec_fn(SizeCollector) -> MessageModel) -> bool {
    &&& forall|c: SizeCollector| !is_terminal(#[trigger] ctx(c))
    &&& forall|c: SizeCollector, t: u8|
        #![trigger message_step(ctx(c), t)]
        is_digit(t) ==> message_step(ctx(c), t) == ctx(
            size_step(c, t)->Incomplete_0,
        ) && message_take_ok(ctx(c), t) == size_take_ok(c, t)
}

/// A way of embedding a bulk string collector into a reader state such that the reader follows
/// the collector step for step while it keeps reading.
pub open spec fn string_context(ctx: spec_fn(StringModel) -> MessageModel) -> bool {
    &&& forall|s: StringModel| !is_terminal(#[trigger] ctx(s))
    &&& forall|s: StringModel, t: u8|
        #![trigger message_step(ctx(s), t)]
        string_step(s, t) is Incomplete ==> message_step(ctx(s), t) == ctx(
            string_step(s, t)->Incomplete_0,
        ) && message_take_ok(ctx(s), t) == string_take_ok(s, t)
}

proof fn lemma_decimal_value_grows(ds: Seq<u8>)
    requires
        ds.len() > 0,
    ensures
        decimal_value(ds.drop_last()) <= decimal_value(ds),
{
}

proof fn lemma_digits(ctx: spec_fn(SizeCollector) -> MessageModel, sign: i32, ds: Seq<u8>)
    requires
        size_context(ctx),
        all_digits(ds),
        decimal_value(ds) <= i32::MAX,
    ensures
        run_open(ctx(SizeCollector { size: 0, terminating: false, sign }), ds),
        run(ctx(SizeCollector { size: 0, terminating: false, sign }), ds) == ctx(
            SizeCollector { size: decimal_value(ds) as i32, terminating: false, sign },
        ),
    decreases ds.len(),
{
    let start = ctx(SizeCollector { size: 0, terminating: false, sign });
    if ds.len() > 0 {
        let p = ds.drop_last();
        let t = ds.last();
        lemma_decimal_value_grows(ds);
        assert(all_digits(p)) by {
            assert forall|i: int| 0 <= i < p.len() implies is_digit(#[trigger] p[i]) by {
                assert(p[i] == ds[i]);
            }
        }
        assert(is_digit(t)) by {
            assert(ds[ds.len() - 1] == t);
        }
        lemma_digits(ctx, sign, p);
        let c = SizeCollector { size: decimal_value(p) as i32, terminating: false, sign };
        assert(size_step(c, t) is Incomplete);
        assert(message_step(ctx(c), t) == ctx(size_step(c, t)->Incomplete_0));
        assert(size_step(c, t)->Incomplete_0 == SizeCollector {
            size: decimal_value(ds) as i32,
            terminating: false,
            sign,
        });
        lemma_run_push(start, p, t);
        assert(p.push(t) =~= ds);
    }
}

/// The collector context that sits inside a string collector context.
pub open spec fn sizing_in(ctx: spec_fn(StringModel) -> MessageModel) -> spec_fn(
    SizeCollector,
) -> MessageModel {
    |c: SizeCollector| ctx(StringModel::Sizing(c))
}

proof fn lemma_sizing_in(ctx: spec_fn(StringModel) -> MessageModel)
    requires
        string_context(ctx),
    ensures
        size_context(sizing_in(ctx)),
{
    let sctx = sizing_in(ctx);
    assert forall|c: SizeCollector| !is_terminal(#[trigger] sctx(c)) by {
        assert(sctx(c) == ctx(StringModel::Sizing(c)));
    }
    assert forall|c: SizeCollector, t: u8|
        #![trigger message_step(sctx(c), t)]
        is_digit(t) implies message_step(sctx(c), t) == sctx(size_step(c, t)->Incomplete_0)
            && message_take_ok(sctx(c), t) == size_take_ok(c, t) by {
        let s = StringModel::Sizing(c);
        assert(sctx(c) == ctx(s));
        assert(string_step(s, t) is Incomplete);
        assert(message_step(ctx(s), t) == ctx(string_step(s, t)->Incomplete_0));
        assert(sctx(size_step(c, t)->Incomplete_0) == ctx(string_step(s, t)->Incomplete_0));
    }
}

proof fn lemma_decimal(n: nat)
    ensures
        all_digits(decimal(n)),
        decimal_value(decimal(n)) == n,
        decimal(n).len() >= 1,
    decreases n,
{
    let ds = decimal(n);
    if n < 10 {
        assert(ds.drop_last() =~= Seq::<u8>::empty());
        assert(decimal_value(ds.drop_last()) == 0);
        assert(ds.last() == (n + 48) as u8);
        assert(decimal_value(ds) == n);
    } else {
        lemma_decimal(n / 10);
        let p = decimal(n / 10);
        assert(ds.drop_last() =~= p);
        assert(ds.last() == (n % 10 + 48) as u8);
        assert(all_digits(ds)) by {
            assert forall|i: int| 0 <= i < ds.len() implies is_digit(#[trigger] ds[i]) by {
                if i < p.len() {
                    assert(ds[i] == p[i]);
                }
            }
        }
        assert(decimal_value(ds) == (n / 10) * 10 + n % 10);
        assert((n / 10) * 10 + n % 10 == n) by (nonlinear_arith);
    }
}

proof fn lemma_payload(ctx: spec_fn(StringModel) -> MessageModel, total: i32, b: Seq<u8>)
    requires
        string_context(ctx),
        b.len() <= total,
        total < i32::MAX,
    ensures
        run_open(
            ctx(StringModel::Collecting { total_count: total, current_count: 0, items: seq![] }),
            b,
        ),
        run(ctx(StringModel::Collecting { total_count: total, current_count: 0, items: seq![] }), b)
            == ctx(
            StringModel::Collecting { total_count: total, current_count: b.len() as i32, items: b },
        ),
    decreases b.len(),
{
    let start = ctx(
        StringModel::Collecting { total_count: total, current_count: 0, items: seq![] },
    );
    if b.len() == 0 {
        assert(b =~= Seq::<u8>::empty());
    } else {
        let p = b.drop_last();
        let t = b.last();
        lemma_payload(ctx, total, p);
        let s = StringModel::Collecting {
            total_count: total,
            current_count: p.len() as i32,
            items: p,
        };
        assert(string_step(s, t) is Incomplete);
        assert(message_step(ctx(s), t) == ctx(string_step(s, t)->Incomplete_0));
        assert(p.push(t) =~= b);
        lemma_run_push(start, p, t);
    }
}

/// The bytes of a bulk string after its leading `$` and before its final line feed.
pub open spec fn bulk_body(b: Seq<u8>) -> Seq<u8> {
    decimal(b.len()) + crlf() + b + seq![13u8]
}

proof fn lemma_bulk_body(ctx: spec_fn(StringModel) -> MessageModel, b: Seq<u8>)
    requires
        string_context(ctx),
        b.len() < i32::MAX,
    ensures
        run_open(ctx(StringModel::Sizing(initial_size())), bulk_body(b)),
        run(ctx(StringModel::Sizing(initial_size())), bulk_body(b)) == ctx(
            StringModel::Collecting {
                total_count: b.len() as i32,
                current_count: (b.len() + 1) as i32,
                items: b,
            },
        ),
{
    let len = b.len() as i32;
    let start = ctx(StringModel::Sizing(initial_size()));
    let ds = decimal(b.len());
    lemma_decimal(b.len());
    lemma_sizing_in(ctx);
    lemma_digits(sizing_in(ctx), 1, ds);
    let sctx = sizing_in(ctx);
    assert(sctx(SizeCollector { size: 0, terminating: false, sign: 1 }) == start);
    let s1 = StringModel::Sizing(SizeCollector { size: len, terminating: false, sign: 1 });
    assert(sctx(SizeCollector { size: len, terminating: false, sign: 1 }) == ctx(s1));
    // the carriage return of the size line
    let s2 = StringModel::Sizing(SizeCollector { size: len, terminating: true, sign: 1 });
    assert(string_step(s1, 13u8) == StringOutcome::Incomplete(s2));
    assert(message_step(ctx(s1), 13u8) == ctx(string_step(s1, 13u8)->Incomplete_0));
    lemma_run_push(start, ds, 13u8);
    // the line feed of the size line
    let s3 = StringModel::Collecting { total_count: len, current_count: 0, items: seq![] };
    assert(string_step(s2, 10u8) == StringOutcome::Incomplete(s3));
    assert(message_step(ctx(s2), 10u8) == ctx(string_step(s2, 10u8)->Incomplete_0));
    lemma_run_push(start, ds.push(13u8), 10u8);
    let head = ds.push(13u8).push(10u8);
    assert(head =~= ds + crlf());
    // the payload
    lemma_payload(ctx, len, b);
    lemma_run_concat(start, head, b);
    // the carriage return after the payload
    let s4 = StringModel::Collecting { total_count: len, current_count: len, items: b };
    assert(b.len() as i32 == len);
    assert(string_step(s4, 13u8) is Incomplete);
    assert(message_step(ctx(s4), 13u8) == ctx(string_step(s4, 13u8)->Incomplete_0));
    lemma_run_push(start, head + b, 13u8);
    assert((head + b).push(13u8) =~= bulk_body(b));
}

/// The reader state for the top level integer.
pub open spec fn int_context() -> spec_fn(SizeCollector) -> MessageModel {
    |c: SizeCollector| MessageModel::Int(c)
}

/// The reader state for the top level bulk string.
pub open spec fn string_top_context() -> spec_fn(StringModel) -> MessageModel {
    |s: StringModel| MessageModel::String(s)
}

/// The reader state for the element count of an array.
pub open spec fn array_count_context() -> spec_fn(SizeCollector) -> MessageModel {
    |c: SizeCollector| MessageModel::Array(ArrayModel::Sizing(c))
}

/// The reader state for an element of an array.
pub open spec fn array_element_context(total: i32, current: i32, items: Seq<Seq<u8>>) -> spec_fn(
    StringModel,
) -> MessageModel {
    |s: StringModel|
        MessageModel::Array(
            ArrayModel::Collecting { total_count: total, current_count: current, head: s, items },
        )
}

proof fn lemma_contexts(total: i32, current: i32, items: Seq<Seq<u8>>)
    ensures
        size_context(int_context()),
        string_context(string_top_context()),
        size_context(array_count_context()),
        string_context(array_element_context(total, current, items)),
{
    let ictx = int_context();
    assert forall|c: SizeCollector| !is_terminal(#[trigger] ictx(c)) by {}
    assert forall|c: SizeCollector, t: u8|
        #![trigger message_step(ictx(c), t)]
        is_digit(t) implies message_step(ictx(c), t) == ictx(size_step(c, t)->Incomplete_0)
            && message_take_ok(ictx(c), t) == size_take_ok(c, t) by {}
    let sctx = string_top_context();
    assert forall|s: StringModel| !is_terminal(#[trigger] sctx(s)) by {}
    assert forall|s: StringModel, t: u8|
        #![trigger message_step(sctx(s), t)]
        string_step(s, t) is Incomplete implies message_step(sctx(s), t) == sctx(
            string_step(s, t)->Incomplete_0,
        ) && message_take_ok(sctx(s), t) == string_take_ok(s, t) by {}
    let actx = array_count_context();
    assert forall|c: SizeCollector| !is_terminal(#[trigger] actx(c)) by {}
    assert forall|c: SizeCollector, t: u8|
        #![trigger message_step(actx(c), t)]
        is_digit(t) implies message_step(actx(c), t) == actx(size_step(c, t)->Incomplete_0)
            && message_take_ok(actx(c), t) == size_take_ok(c, t) by {}
    let ectx = array_element_context(total, current, items);
    assert forall|s: StringModel| !is_terminal(#[trigger] ectx(s)) by {}
    assert forall|s: StringModel, t: u8|
        #![trigger message_step(ectx(s), t)]
        string_step(s, t) is Incomplete implies message_step(ectx(s), t) == ectx(
            string_step(s, t)->Incomplete_0,
        ) && message_take_ok(ectx(s), t) == string_take_ok(s, t) by {}
}

proof fn lemma_one(m: MessageModel, t: u8)
    ensures
        run(m, seq![t]) == message_step(m, t),
        message_take_ok(m, t) && !is_terminal(message_step(m, t)) ==> run_open(m, seq![t]),
{
    lemma_run_push(m, Seq::<u8>::empty(), t);
    assert(Seq::<u8>::empty().push(t) =~= seq![t]);
}

/// Reading a size line `<digits>\r` inside a size context, starting from a fresh collector with
/// the given sign.
proof fn lemma_size_line(ctx: spec_fn(SizeCollector) -> MessageModel, sign: i32, v: nat)
    requires
        size_context(ctx),
        v <= i32::MAX,
        forall|c: SizeCollector| #[trigger]
            message_step(ctx(c), 13u8) == ctx(
                SizeCollector { size: c.size, terminating: true, sign: c.sign },
            ) && message_take_ok(ctx(c), 13u8),
    ensures
        run_open(
            ctx(SizeCollector { size: 0, terminating: false, sign }),
            decimal(v).push(13u8),
        ),
        run(ctx(SizeCollector { size: 0, terminating: false, sign }), decimal(v).push(13u8))
            == ctx(SizeCollector { size: v as i32, terminating: true, sign }),
{
    lemma_decimal(v);
    lemma_digits(ctx, sign, decimal(v));
    let c = SizeCollector { size: v as i32, terminating: false, sign };
    assert(message_step(ctx(c), 13u8) == ctx(
        SizeCollector { size: v as i32, terminating: true, sign },
    ));
    assert(size_step(c, 13u8) is Incomplete);
    lemma_run_push(ctx(SizeCollector { size: 0, terminating: false, sign }), decimal(v), 13u8);
}

/// Integers round trip: reading the wire form of any integer the reader can hold gives that
/// integer back, and the bytes that follow it are never looked at.
pub proof fn law_integer_round_trip(n: int, rest: Seq<u8>)
    requires
        i32::MIN < n <= i32::MAX,
    ensures
        parse_safe(MessageModel::Initial, encode_integer(n) + rest),
        parse_response(encode_integer(n) + rest) == ResponseModel::Int(n as i32),
{
    let ictx = int_context();
    lemma_contexts(0, 0, seq![]);
    let sign: i32 = if n < 0 {
        -1i32
    } else {
        1
    };
    let v: nat = if n < 0 {
        (-n) as nat
    } else {
        n as nat
    };
    let head: Seq<u8> = if n < 0 {
        seq![58u8, 45u8]
    } else {
        seq![58u8]
    };
    let start = MessageModel::Int(SizeCollector { size: 0, terminating: false, sign });
    // the type byte, and the sign when there is one
    if n < 0 {
        lemma_one(MessageModel::Initial, 58u8);
        lemma_one(MessageModel::Int(initial_size()), 45u8);
        lemma_run_concat(MessageModel::Initial, seq![58u8], seq![45u8]);
        assert(seq![58u8] + seq![45u8] =~= head);
    } else {
        lemma_one(MessageModel::Initial, 58u8);
    }
    assert(run_open(MessageModel::Initial, head) && run(MessageModel::Initial, head) == start);
    // the digits and the carriage return
    assert forall|c: SizeCollector| #[trigger]
        message_step(ictx(c), 13u8) == ictx(
            SizeCollector { size: c.size, terminating: true, sign: c.sign },
        ) && message_take_ok(ictx(c), 13u8) by {}
    lemma_size_line(ictx, sign, v);
    assert(ictx(SizeCollector { size: 0, terminating: false, sign }) == start);
    let line = decimal(v).push(13u8);
    lemma_run_concat(MessageModel::Initial, head, line);
    // the line feed completes the integer
    let last = MessageModel::Int(SizeCollector { size: v as i32, terminating: true, sign });
    assert(ictx(SizeCollector { size: v as i32, terminating: true, sign }) == last);
    assert(message_step(last, 10u8) == MessageModel::Complete(ResponseModel::Int(n as i32)));
    lemma_parse_stops(last, 10u8, rest);
    lemma_run_concat(MessageModel::Initial, head + line, seq![10u8] + rest);
    assert(head + line + (seq![10u8] + rest) =~= encode_integer(n) + rest);
}

/// Bulk strings round trip: reading the wire form of any byte string gives those bytes back, and
/// the bytes that follow it are never looked at.
pub proof fn law_bulk_string_round_trip(b: Seq<u8>, rest: Seq<u8>)
    requires
        b.len() < i32::MAX,
    ensures
        parse_safe(MessageModel::Initial, encode_bulk(b) + rest),
        parse_response(encode_bulk(b) + rest) == ResponseModel::String(b),
{
    let sctx = string_top_context();
    lemma_contexts(0, 0, seq![]);
    lemma_one(MessageModel::Initial, 36u8);
    assert(sctx(StringModel::Sizing(initial_size())) == MessageModel::String(
        StringModel::Sizing(initial_size()),
    ));
    lemma_bulk_body(sctx, b);
    let body = bulk_body(b);
    lemma_run_concat(MessageModel::Initial, seq![36u8], body);
    let len = b.len() as i32;
    let last = MessageModel::String(
        StringModel::Collecting { total_count: len, current_count: (len + 1) as i32, items: b },
    );
    assert(sctx(StringModel::Collecting { total_count: len, current_count: (len + 1) as i32, items: b })
        == last);
    assert(message_step(last, 10u8) == MessageModel::Complete(ResponseModel::String(b)));
    lemma_parse_stops(last, 10u8, rest);
    lemma_run_concat(MessageModel::Initial, seq![36u8] + body, seq![10u8] + rest);
    assert(seq![36u8] + body + (seq![10u8] + rest) =~= encode_bulk(b) + rest);
}

/// The array state before the element at `current` is read.
pub open spec fn array_at(total: i32, current: i32, items: Seq<Seq<u8>>) -> MessageModel {
    MessageModel::Array(
        ArrayModel::Collecting {
            total_count: total,
            current_count: current,
            head: StringModel::Sizing(initial_size()),
            items,
        },
    )
}

/// The array state once the element at `current` has been read but for its final line feed.
pub open spec fn array_element_read(
    total: i32,
    current: i32,
    items: Seq<Seq<u8>>,
    b: Seq<u8>,
) -> MessageModel {
    MessageModel::Array(
        ArrayModel::Collecting {
            total_count: total,
            current_count: current,
            head: StringModel::Collecting {
                total_count: b.len() as i32,
                current_count: (b.len() + 1) as i32,
                items: b,
            },
            items,
        },
    )
}

proof fn lemma_array_element(total: i32, k: i32, prefix: Seq<Seq<u8>>, b: Seq<u8>)
    requires
        0 <= k < total,
        b.len() < i32::MAX,
    ensures
        run_open(array_at(total, k, prefix), seq![36u8] + bulk_body(b)),
        run(array_at(total, k, prefix), seq![36u8] + bulk_body(b)) == array_element_read(
            total,
            k,
            prefix,
            b,
        ),
        message_take_ok(array_element_read(total, k, prefix, b), 10u8),
        message_step(array_element_read(total, k, prefix, b), 10u8) == if k + 1 == total {
            MessageModel::Complete(ResponseModel::Array(prefix.push(b)))
        } else {
            array_at(total, (k + 1) as i32, prefix.push(b))
        },
{
    let ctx = array_element_context(total, k, prefix);
    lemma_contexts(total, k, prefix);
    let start = array_at(total, k, prefix);
    assert(ctx(StringModel::Sizing(initial_size())) == start);
    assert(string_step(StringModel::Sizing(initial_size()), 36u8) is Incomplete);
    assert(message_step(start, 36u8) == start);
    lemma_one(start, 36u8);
    lemma_bulk_body(ctx, b);
    lemma_run_concat(start, seq![36u8], bulk_body(b));
    let len = b.len() as i32;
    assert(ctx(StringModel::Collecting { total_count: len, current_count: (len + 1) as i32, items: b })
        == array_element_read(total, k, prefix, b));
}

proof fn lemma_array_items(items: Seq<Seq<u8>>, k: int)
    requires
        1 <= items.len() <= i32::MAX,
        0 <= k < items.len(),
        forall|i: int| 0 <= i < items.len() ==> (#[trigger] items[i]).len() < i32::MAX,
    ensures
        run_open(array_at(items.len() as i32, 0, seq![]), encode_bulks(items.take(k))),
        run(array_at(items.len() as i32, 0, seq![]), encode_bulks(items.take(k))) == array_at(
            items.len() as i32,
            k as i32,
            items.take(k),
        ),
    decreases k,
{
    let total = items.len() as i32;
    let start = array_at(total, 0, seq![]);
    if k == 0 {
        assert(items.take(0) =~= Seq::<Seq<u8>>::empty());
    } else {
        lemma_array_items(items, k - 1);
        let prefix = items.take(k - 1);
        let b = items[k - 1];
        lemma_array_element(total, (k - 1) as i32, prefix, b);
        let mid = array_at(total, (k - 1) as i32, prefix);
        let element = seq![36u8] + bulk_body(b);
        assert(prefix.push(b) =~= items.take(k));
        lemma_run_push(mid, element, 10u8);
        assert(element.push(10u8) =~= encode_bulk(b));
        assert(items.take(k).drop_last() =~= prefix);
        assert(encode_bulks(items.take(k)) == encode_bulks(prefix) + encode_bulk(b));
        lemma_run_concat(start, encode_bulks(prefix), encode_bulk(b));
    }
}

/// Arrays round trip: reading the wire form of any non-empty array of byte strings gives those
/// byte strings back, in order, and the bytes that follow it are never looked at.
pub proof fn law_array_round_trip(items: Seq<Seq<u8>>, rest: Seq<u8>)
    requires
        1 <= items.len() <= i32::MAX,
        forall|i: int| 0 <= i < items.len() ==> (#[trigger] items[i]).len() < i32::MAX,
    ensures
        parse_safe(MessageModel::Initial, encode_array(items) + rest),
        parse_response(encode_array(items) + rest) == ResponseModel::Array(items),
{
    let total = items.len() as i32;
    let n = items.len();
    let actx = array_count_context();
    lemma_contexts(0, 0, seq![]);
    // the type byte
    lemma_one(MessageModel::Initial, 42u8);
    assert(actx(initial_size()) == MessageModel::Array(ArrayModel::Sizing(initial_size())));
    // the count line
    assert forall|c: SizeCollector| #[trigger]
        message_step(actx(c), 13u8) == actx(
            SizeCollector { size: c.size, terminating: true, sign: c.sign },
        ) && message_take_ok(actx(c), 13u8) by {}
    lemma_size_line(actx, 1, n);
    let line = decimal(n).push(13u8);
    lemma_run_concat(MessageModel::Initial, seq![42u8], line);
    let counted = actx(SizeCollector { size: total, terminating: true, sign: 1 });
    let a0 = array_at(total, 0, seq![]);
    assert(message_step(counted, 10u8) == a0);
    lemma_run_push(MessageModel::Initial, seq![42u8] + line, 10u8);
    let header = (seq![42u8] + line).push(10u8);
    assert(header =~= seq![42u8] + decimal(n) + crlf());
    // every element but the last
    lemma_array_items(items, n - 1);
    let prefix = items.take(n - 1);
    let before_last = encode_bulks(prefix);
    lemma_run_concat(MessageModel::Initial, header, before_last);
    // the last element
    let b = items[n - 1];
    lemma_array_element(total, (n - 1) as i32, prefix, b);
    let element = seq![36u8] + bulk_body(b);
    lemma_run_concat(MessageModel::Initial, header + before_last, element);
    let last = array_element_read(total, (n - 1) as i32, prefix, b);
    assert(prefix.push(b) =~= items);
    lemma_parse_stops(last, 10u8, rest);
    lemma_run_concat(MessageModel::Initial, header + before_last + element, seq![10u8] + rest);
    assert(items.drop_last() =~= prefix);
    assert(encode_bulks(items) == before_last + encode_bulk(b));
    assert(element.push(10u8) =~= encode_bulk(b));
    assert(header + before_last + element + (seq![10u8] + rest) =~= encode_array(items) + rest);
}

/// An array whose count is zero or negative, such as the null array `*-1\r\n`, reads as an empty
/// array.
pub proof fn law_empty_array(n: int, rest: Seq<u8>)
    requires
        i32::MIN < n < 1,
    ensures
        parse_safe(MessageModel::Initial, seq![42u8] + signed_decimal(n) + crlf() + rest),
        parse_response(seq![42u8] + signed_decimal(n) + crlf() + rest) == ResponseModel::Array(
            seq![],
        ),
{
    let actx = array_count_context();
    lemma_contexts(0, 0, seq![]);
    let sign: i32 = if n < 0 {
        -1i32
    } else {
        1
    };
    let v: nat = if n < 0 {
        (-n) as nat
    } else {
        n as nat
    };
    let head: Seq<u8> = if n < 0 {
        seq![42u8, 45u8]
    } else {
        seq![42u8]
    };
    let start = actx(SizeCollector { size: 0, terminating: false, sign });
    if n < 0 {
        lemma_one(MessageModel::Initial, 42u8);
        lemma_one(MessageModel::Array(ArrayModel::Sizing(initial_size())), 45u8);
        lemma_run_concat(MessageModel::Initial, seq![42u8], seq![45u8]);
        assert(seq![42u8] + seq![45u8] =~= head);
    } else {
        lemma_one(MessageModel::Initial, 42u8);
    }
    assert(run_open(MessageModel::Initial, head) && run(MessageModel::Initial, head) == start);
    assert forall|c: SizeCollector| #[trigger]
        message_step(actx(c), 13u8) == actx(
            SizeCollector { size: c.size, terminating: true, sign: c.sign },
        ) && message_take_ok(actx(c), 13u8) by {}
    lemma_size_line(actx, sign, v);
    let line = decimal(v).push(13u8);
    lemma_run_concat(MessageModel::Initial, head, line);
    let last = actx(SizeCollector { size: v as i32, terminating: true, sign });
    assert(message_step(last, 10u8) == MessageModel::Complete(ResponseModel::Array(seq![])));
    lemma_parse_stops(last, 10u8, rest);
    lemma_run_concat(MessageModel::Initial, head + line, seq![10u8] + rest);
    assert(head + line + (seq![10u8] + rest) =~= seq![42u8] + signed_decimal(n) + crlf() + rest);
}

/// A message that does not start with one of the type bytes `*`, `:`, `$` or `-` is rejected,
/// whatever follows.
pub proof fn law_invalid_start(t: u8, rest: Seq<u8>)
    requires
        t != 42u8 && t != 58u8 && t != 36u8 && t != 45u8,
    ensures
        parse_safe(MessageModel::Initial, seq![t] + rest),
        parse_response(seq![t] + rest) == ResponseModel::Failed(invalid_start()),
{
    lemma_parse_stops(MessageModel::Initial, t, rest);
}

/// Whether the reader, fed `tokens` from `m`, stops on one of them: it completes a response or
/// rejects the input.
pub open spec fn stops_on(m: MessageModel, tokens: Seq<u8>) -> bool
    decreases tokens.len(),
{
    if tokens.len() == 0 {
        false
    } else {
        let next = message_step(m, tokens[0]);
        is_terminal(next) || stops_on(next, tokens.drop_first())
    }
}

proof fn lemma_prefix(m: MessageModel, s: Seq<u8>, t: Seq<u8>)
    requires
        !is_terminal(m),
    ensures
        stops_on(m, s) ==> parse_from(m, s + t) == parse_from(m, s),
        stops_on(m, s) && parse_safe(m, s) ==> parse_safe(m, s + t),
        (parse_from(m, s) is Empty) == !stops_on(m, s),
    decreases s.len(),
{
    if s.len() == 0 {
        assert(s + t =~= t);
    } else {
        let next = message_step(m, s[0]);
        assert((s + t)[0] == s[0]);
        assert((s + t).drop_first() =~= s.drop_first() + t);
        if !is_terminal(next) {
            lemma_prefix(next, s.drop_first(), t);
        }
    }
}

/// Reading stops at the byte that completes or rejects a response: when the bytes `s` already
/// hold one, whatever follows them is never read, and the response is never `Empty`; the
/// response is `Empty` exactly when the bytes run out first.
pub proof fn law_from_iter_prefix(s: Seq<u8>, t: Seq<u8>)
    ensures
        stops_on(MessageModel::Initial, s) ==> parse_response(s + t) == parse_response(s),
        stops_on(MessageModel::Initial, s) && parse_safe(MessageModel::Initial, s) ==> parse_safe(
            MessageModel::Initial,
            s + t,
        ),
        (parse_response(s) is Empty) == !stops_on(MessageModel::Initial, s),
{
    lemma_prefix(MessageModel::Initial, s, t);
}

} // verus!
