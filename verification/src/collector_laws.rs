//! What the size and bulk string collectors of the redis reader give when each is fed a whole
//! line or a whole bulk string on its own, one byte per call.

use vstd::prelude::*;
use crate::redis_reader::{
    initial_size, size_step, size_take_ok, string_step, string_take_ok, SizeCollector, SizeOutcome,
    StringModel, StringOutcome,
};
use crate::redis_reader_laws::{all_digits, crlf, decimal, decimal_value, is_digit};

verus! {

// ---------------------------------------------------------------------------------------------
// Feeding a collector several bytes.
// ---------------------------------------------------------------------------------------------

/// The size collector reached by feeding `tokens` to `c`, each byte to the collector the
/// previous one gave back.
pub open spec fn size_feed(c: SizeCollector, tokens: Seq<u8>) -> SizeCollector
    decreases tokens.len(),
{
    if tokens.len() == 0 {
        c
    } else {
        size_feed(size_step(c, tokens[0])->Incomplete_0, tokens.drop_first())
    }
}

/// Every byte of `tokens`, fed to `c` in turn, is accepted and leaves the collector incomplete.
pub open spec fn size_feed_open(c: SizeCollector, tokens: Seq<u8>) -> bool
    decreases tokens.len(),
{
    if tokens.len() == 0 {
        true
    } else {
        &&& size_take_ok(c, tokens[0])
        &&& size_step(c, tokens[0]) is Incomplete
        &&& size_feed_open(size_step(c, tokens[0])->Incomplete_0, tokens.drop_first())
    }
}

/// The bulk string collector reached by feeding `tokens` to `s`, each byte to the collector the
/// previous one gave back.
pub open spec fn string_feed(s: StringModel, tokens: Seq<u8>) -> StringModel
    decreases tokens.len(),
{
    if tokens.len() == 0 {
        s
    } else {
        string_feed(string_step(s, tokens[0])->Incomplete_0, tokens.drop_first())
    }
}

/// Every byte of `tokens`, fed to `s` in turn, is accepted and leaves the collector incomplete.
pub open spec fn string_feed_open(s: StringModel, tokens: Seq<u8>) -> bool
    decreases tokens.len(),
{
    if tokens.len() == 0 {
        true
    } else {
        &&& string_take_ok(s, tokens[0])
        &&& string_step(s, tokens[0]) is Incomplete
        &&& string_feed_open(string_step(s, tokens[0])->Incomplete_0, tokens.drop_first())
    }
}

proof fn lemma_size_feed_push(c: SizeCollector, a: Seq<u8>, t: u8)
    requires
        size_feed_open(c, a),
    ensures
        size_feed(c, a.push(t)) == size_step(size_feed(c, a), t)->Incomplete_0,
        size_feed_open(c, a.push(t)) == (size_take_ok(size_feed(c, a), t) && size_step(
            size_feed(c, a),
            t,
        ) is Incomplete),
    decreases a.len(),
{
    if a.len() == 0 {
        let one = a.push(t);
        let next = size_step(c, t)->Incomplete_0;
        assert(one[0] == t);
        assert(one.drop_first() =~= Seq::<u8>::empty());
        assert(size_feed(next, one.drop_first()) == next);
        assert(size_feed_open(next, one.drop_first()));
        assert(size_feed(c, one) == size_feed(next, one.drop_first()));
    } else {
        let next = size_step(c, a[0])->Incomplete_0;
        lemma_size_feed_push(next, a.drop_first(), t);
        assert(a.push(t)[0] == a[0]);
        assert(a.push(t).drop_first() =~= a.drop_first().push(t));
        assert(size_feed(c, a.push(t)) == size_feed(next, a.drop_first().push(t)));
        assert(size_feed(c, a) == size_feed(next, a.drop_first()));
    }
}

proof fn lemma_string_feed_push(s: StringModel, a: Seq<u8>, t: u8)
    requires
        string_feed_open(s, a),
    ensures
        string_feed(s, a.push(t)) == string_step(string_feed(s, a), t)->Incomplete_0,
        string_feed_open(s, a.push(t)) == (string_take_ok(string_feed(s, a), t) && string_step(
            string_feed(s, a),
            t,
        ) is Incomplete),
    decreases a.len(),
{
    if a.len() == 0 {
        let one = a.push(t);
        let next = string_step(s, t)->Incomplete_0;
        assert(one[0] == t);
        assert(one.drop_first() =~= Seq::<u8>::empty());
        assert(string_feed(next, one.drop_first()) == next);
        assert(string_feed_open(next, one.drop_first()));
        assert(string_feed(s, one) == string_feed(next, one.drop_first()));
    } else {
        let next = string_step(s, a[0])->Incomplete_0;
        lemma_string_feed_push(next, a.drop_first(), t);
        assert(a.push(t)[0] == a[0]);
        assert(a.push(t).drop_first() =~= a.drop_first().push(t));
        assert(string_feed(s, a.push(t)) == string_feed(next, a.drop_first().push(t)));
        assert(string_feed(s, a) == string_feed(next, a.drop_first()));
    }
}

// ---------------------------------------------------------------------------------------------
// The size collector.
// ---------------------------------------------------------------------------------------------

proof fn lemma_size_digits(sign: i32, ds: Seq<u8>)
    requires
        all_digits(ds),
        decimal_value(ds) <= i32::MAX,
    ensures
        size_feed_open(SizeCollector { size: 0, terminating: false, sign }, ds),
        size_feed(SizeCollector { size: 0, terminating: false, sign }, ds) == (SizeCollector {
            size: decimal_value(ds) as i32,
            terminating: false,
            sign,
        }),
    decreases ds.len(),
{
    let start = SizeCollector { size: 0, terminating: false, sign };
    if ds.len() > 0 {
        let p = ds.drop_last();
        let t = ds.last();
        assert(all_digits(p)) by {
            assert forall|i: int| 0 <= i < p.len() implies is_digit(#[trigger] p[i]) by {
                assert(p[i] == ds[i]);
            }
        }
        assert(is_digit(t)) by {
            assert(ds[ds.len() - 1] == t);
        }
        assert(decimal_value(p) <= decimal_value(ds));
        lemma_size_digits(sign, p);
        lemma_size_feed_push(start, p, t);
        assert(p.push(t) =~= ds);
    }
}

proof fn lemma_decimal_digits(n: nat)
    ensures
        all_digits(decimal(n)),
        decimal_value(decimal(n)) == n,
    decreases n,
{
    let ds = decimal(n);
    if n < 10 {
        assert(ds.drop_last() =~= Seq::<u8>::empty());
        assert(decimal_value(ds.drop_last()) == 0);
    } else {
        lemma_decimal_digits(n / 10);
        let p = decimal(n / 10);
        assert(ds.drop_last() =~= p);
        assert(all_digits(ds)) by {
            assert forall|i: int| 0 <= i < ds.len() implies is_digit(#[trigger] ds[i]) by {
                if i < p.len() {
                    assert(ds[i] == p[i]);
                }
            }
        }
        assert((n / 10) * 10 + n % 10 == n) by (nonlinear_arith);
    }
}

/// A size line up to its carriage return, without it: the digits of `v`, after a `-` when it is
/// negative.
pub open spec fn size_line(v: nat, negative: bool) -> Seq<u8> {
    if negative {
        seq![45u8] + decimal(v)
    } else {
        decimal(v)
    }
}

/// The collector that is left, before the closing line feed, after a size line has been fed.
pub open spec fn size_line_state(v: nat, negative: bool) -> SizeCollector {
    SizeCollector {
        size: v as i32,
        terminating: true,
        sign: if negative { -1i32 } else { 1i32 },
    }
}

proof fn lemma_size_line(v: nat, negative: bool)
    requires
        v <= i32::MAX,
    ensures
        size_feed_open(initial_size(), size_line(v, negative).push(13u8)),
        size_feed(initial_size(), size_line(v, negative).push(13u8)) == size_line_state(v, negative),
{
    let sign: i32 = if negative {
        -1i32
    } else {
        1i32
    };
    let start = SizeCollector { size: 0, terminating: false, sign };
    lemma_decimal_digits(v);
    lemma_size_digits(sign, decimal(v));
    let line = size_line(v, negative);
    if negative {
        assert(line[0] == 45u8);
        assert(line.drop_first() =~= decimal(v));
        assert(size_step(initial_size(), 45u8) == SizeOutcome::Incomplete(start));
        assert(size_feed_open(initial_size(), line));
        assert(size_feed(initial_size(), line) == size_feed(start, decimal(v)));
    } else {
        assert(initial_size() == start);
    }
    lemma_size_feed_push(initial_size(), line, 13u8);
}

/// A size line fed on its own, one byte per call from a fresh collector: every byte up to the
/// carriage return is accepted and leaves the collector incomplete, and the closing line feed is
/// accepted and completes it with the number the line spells, negated after a leading `-` (so
/// `-0` reads as zero).
pub proof fn law_size_collector(v: nat, negative: bool)
    requires
        v <= i32::MAX,
    ensures
        size_feed_open(initial_size(), size_line(v, negative).push(13u8)),
        size_take_ok(size_feed(initial_size(), size_line(v, negative).push(13u8)), 10u8),
        size_step(size_feed(initial_size(), size_line(v, negative).push(13u8)), 10u8)
            == SizeOutcome::Complete((if negative { -v } else { v as int }) as i32),
{
    lemma_size_line(v, negative);
}

// ---------------------------------------------------------------------------------------------
// The bulk string collector.
// ---------------------------------------------------------------------------------------------

proof fn lemma_sizing_follows(c: SizeCollector, ts: Seq<u8>)
    requires
        size_feed_open(c, ts),
        forall|i: int| 0 <= i < ts.len() ==> ts[i] != 36u8,
    ensures
        string_feed_open(StringModel::Sizing(c), ts),
        string_feed(StringModel::Sizing(c), ts) == StringModel::Sizing(size_feed(c, ts)),
    decreases ts.len(),
{
    if ts.len() > 0 {
        let rest = ts.drop_first();
        assert(ts[0] != 36u8);
        assert forall|i: int| 0 <= i < rest.len() implies rest[i] != 36u8 by {
            assert(rest[i] == ts[i + 1]);
        }
        lemma_sizing_follows(size_step(c, ts[0])->Incomplete_0, rest);
    }
}

proof fn lemma_payload_bytes(total: i32, b: Seq<u8>, j: int)
    requires
        b.len() == total,
        total < i32::MAX,
        0 <= j <= total,
    ensures
        string_feed_open(
            StringModel::Collecting { total_count: total, current_count: 0, items: seq![] },
            b.take(j),
        ),
        string_feed(
            StringModel::Collecting { total_count: total, current_count: 0, items: seq![] },
            b.take(j),
        ) == (StringModel::Collecting { total_count: total, current_count: j as i32, items: b.take(j) }),
    decreases j,
{
    let start = StringModel::Collecting { total_count: total, current_count: 0, items: seq![] };
    if j == 0 {
        assert(b.take(0) =~= Seq::<u8>::empty());
    } else {
        lemma_payload_bytes(total, b, j - 1);
        lemma_string_feed_push(start, b.take(j - 1), b[j - 1]);
        assert(b.take(j - 1).push(b[j - 1]) =~= b.take(j));
    }
}

/// A bulk string fed to its collector on its own, one byte per call, after its `$`: the size
/// line, the payload and the first byte after it are each accepted and leave the collector
/// incomplete, and the byte after that is accepted and finishes it with the payload. The two
/// bytes after the payload, whatever they are, are read but not kept.
pub proof fn law_string_collector(b: Seq<u8>, x: u8, y: u8)
    requires
        b.len() < i32::MAX,
    ensures
        string_feed_open(
            StringModel::Sizing(initial_size()),
            decimal(b.len()) + crlf() + b + seq![x],
        ),
        string_take_ok(
            string_feed(StringModel::Sizing(initial_size()), decimal(b.len()) + crlf() + b + seq![x]),
            y,
        ),
        string_step(
            string_feed(StringModel::Sizing(initial_size()), decimal(b.len()) + crlf() + b + seq![x]),
            y,
        ) == StringOutcome::Finished(b),
{
    let n = b.len() as int;
    let total = n as i32;
    let line = decimal(b.len()).push(13u8);
    lemma_size_line(b.len(), false);
    lemma_decimal_digits(b.len());
    assert forall|i: int| 0 <= i < line.len() implies line[i] != 36u8 by {
        if i < line.len() - 1 {
            assert(line[i] == decimal(b.len())[i]);
            assert(is_digit(decimal(b.len())[i]));
        }
    }
    let start = StringModel::Sizing(initial_size());
    lemma_sizing_follows(initial_size(), line);
    let c = size_line_state(b.len(), false);
    assert(string_feed(start, line) == StringModel::Sizing(c));
    // the line feed ends the size line
    let collecting = StringModel::Collecting { total_count: total, current_count: 0, items: seq![] };
    assert(c.size * c.sign == n);
    assert(string_step(StringModel::Sizing(c), 10u8) == StringOutcome::Incomplete(collecting));
    lemma_string_feed_push(start, line, 10u8);
    let head = line.push(10u8);
    assert(head =~= decimal(b.len()) + crlf());
    // the payload
    lemma_payload_bytes(total, b, n);
    assert(b.take(n) =~= b);
    lemma_string_feed_concat(start, head, b);
    let full = StringModel::Collecting { total_count: total, current_count: total, items: b };
    // the first byte after the payload is read and not kept
    lemma_string_feed_push(start, head + b, x);
    assert((head + b).push(x) =~= head + b + seq![x]);
    let after = StringModel::Collecting { total_count: total, current_count: (total + 1) as i32, items: b };
    assert(string_step(full, x) == StringOutcome::Incomplete(after));
}

proof fn lemma_string_feed_concat(s: StringModel, a: Seq<u8>, b: Seq<u8>)
    requires
        string_feed_open(s, a),
        string_feed_open(string_feed(s, a), b),
    ensures
        string_feed_open(s, a + b),
        string_feed(s, a + b) == string_feed(string_feed(s, a), b),
    decreases a.len(),
{
    if a.len() == 0 {
        assert(a + b =~= b);
    } else {
        assert((a + b)[0] == a[0]);
        assert((a + b).drop_first() =~= a.drop_first() + b);
        lemma_string_feed_concat(string_step(s, a[0])->Incomplete_0, a.drop_first(), b);
    }
}

} // verus!
