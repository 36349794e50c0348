use vstd::prelude::*;

verus! {

/// Appending one character to a string adds it at the end.
pub assume_specification[ std::string::String::push ](text: &mut std::string::String, ch: char)
    ensures
        final(text)@ == old(text)@.push(ch),
;

// ---------------------------------------------------------------------------------------------
// The model of the character-level reader that the firmware mock uses to read the response of a
// list pop: an array count line followed by bulk strings, each read up to its `\r\n`.
// ---------------------------------------------------------------------------------------------

/// Where the reader stands inside a bulk string.
pub enum LocationModel {
    /// Reading the length line; the length read so far.
    Sizing(usize),
    /// Reading the payload: the announced length, the characters read so far, and whether the
    /// last one was a carriage return.
    Reading(usize, Seq<char>, bool),
}

/// The abstract state of the reader.
pub enum MockModel {
    /// Nothing read yet.
    Initial,
    /// Reading the array count; the count so far, and whether the carriage return was seen.
    ArraySize(usize, bool),
    /// Reading bulk strings; where in the current one, and the strings read so far together with
    /// the announced array count.
    BulkString(LocationModel, Option<(Seq<Seq<char>>, usize)>),
    /// The input was rejected; the reason.
    Error(Seq<char>),
}

/// The value of a decimal digit character, and zero for any other character.
pub open spec fn digit_or_zero(c: char) -> nat {
    if '0' <= c && c <= '9' {
        (c as u32 - 48) as nat
    } else {
        0
    }
}

/// The reason given for a first character that starts no known message.
pub open spec fn invalid_starting_token(c: char) -> Seq<char> {
    "Invalid starting token '"@ + seq![c] + "'"@
}

/// The reason given for a character that does not fit the current state.
pub open spec fn invalid_token(c: char) -> Seq<char> {
    "Invalid token '"@ + seq![c] + "'"@
}

/// One step of the reader.
pub open spec fn mock_step(m: MockModel, c: char) -> MockModel {
    match m {
        MockModel::Initial => {
            if c == '*' {
                MockModel::ArraySize(0, false)
            } else if c == '$' {
                MockModel::BulkString(LocationModel::Sizing(0), None)
            } else {
                MockModel::Error(invalid_starting_token(c))
            }
        },
        MockModel::ArraySize(acc, seen_cr) => {
            if c == '\r' {
                MockModel::ArraySize(acc, true)
            } else if c == '\n' {
                MockModel::BulkString(LocationModel::Sizing(0), Some((seq![], acc)))
            } else if !seen_cr {
                MockModel::ArraySize((acc * 10 + digit_or_zero(c)) as usize, false)
            } else {
                MockModel::Error(invalid_token(c))
            }
        },
        MockModel::BulkString(location, Some((strings, count))) => match location {
            LocationModel::Sizing(size) => {
                if c == '$' {
                    MockModel::BulkString(LocationModel::Sizing(0), Some((strings, count)))
                } else if c == '\r' {
                    MockModel::BulkString(LocationModel::Sizing(size), Some((strings, count)))
                } else if c == '\n' {
                    MockModel::BulkString(
                        LocationModel::Reading(size, seq![], false),
                        Some((strings, count)),
                    )
                } else {
                    MockModel::BulkString(
                        LocationModel::Sizing((size * 10 + digit_or_zero(c)) as usize),
                        Some((strings, count)),
                    )
                }
            },
            LocationModel::Reading(size, buffer, seen_cr) => {
                if !seen_cr && c == '\r' {
                    MockModel::BulkString(
                        LocationModel::Reading(size, buffer.push(c), true),
                        Some((strings, count)),
                    )
                } else if seen_cr && c == '\n' {
                    MockModel::BulkString(
                        LocationModel::Sizing(0),
                        Some((strings.push(buffer.drop_last()), count)),
                    )
                } else {
                    MockModel::BulkString(
                        LocationModel::Reading(size, buffer.push(c), false),
                        Some((strings, count)),
                    )
                }
            },
        },
        MockModel::BulkString(_, None) => MockModel::Error(invalid_token(c)),
        MockModel::Error(e) => MockModel::Error(e),
    }
}

/// The characters on which a step stays within `usize` arithmetic and never drops a character
/// out of an empty buffer.
pub open spec fn mock_take_ok(m: MockModel, c: char) -> bool {
    match m {
        MockModel::ArraySize(acc, false) => {
            c == '\r' || c == '\n' || acc * 10 + digit_or_zero(c) <= usize::MAX
        },
        MockModel::BulkString(LocationModel::Sizing(size), Some(_)) => {
            c == '$' || c == '\r' || c == '\n' || size * 10 + digit_or_zero(c) <= usize::MAX
        },
        MockModel::BulkString(LocationModel::Reading(_, buffer, true), Some(_)) => {
            c == '\n' ==> buffer.len() > 0 && buffer.last() == '\r'
        },
        _ => true,
    }
}

// ---------------------------------------------------------------------------------------------
// The executable reader.
// ---------------------------------------------------------------------------------------------

/// Where the reader stands inside a bulk string.
#[derive(Debug, PartialEq)]
pub enum BulkStringLocation {
    /// Reading the length line; the length read so far.
    Sizing(usize),
    /// Reading the payload: the announced length, the characters read so far, and whether the
    /// last one was a carriage return.
    Reading(usize, String, bool),
}

impl View for BulkStringLocation {
    type V = LocationModel;

    open spec fn view(&self) -> LocationModel {
        match self {
            BulkStringLocation::Sizing(size) => LocationModel::Sizing(*size),
            BulkStringLocation::Reading(size, buffer, seen_cr) => LocationModel::Reading(
                *size,
                buffer@,
                *seen_cr,
            ),
        }
    }
}

/// The abstract value of a list of strings.
pub open spec fn strings_view(v: Seq<String>) -> Seq<Seq<char>> {
    v.map_values(|s: String| s@)
}

/// The character-level reader of a list pop response.
#[derive(Debug, PartialEq)]
pub enum MessageState {
    /// Nothing read yet.
    Initial,
    /// Reading the array count; the count so far, and whether the carriage return was seen.
    ArraySize(usize, bool),
    /// Reading bulk strings; where in the current one, and the strings read so far together with
    /// the announced array count.
    BulkString(BulkStringLocation, Option<(Vec<String>, usize)>),
    /// The input was rejected; the reason.
    Error(String),
}

impl View for MessageState {
    type V = MockModel;

    open spec fn view(&self) -> MockModel {
        match self {
            MessageState::Initial => MockModel::Initial,
            MessageState::ArraySize(acc, seen_cr) => MockModel::ArraySize(*acc, *seen_cr),
            MessageState::BulkString(location, None) => MockModel::BulkString(location@, None),
            MessageState::BulkString(location, Some((strings, count))) => MockModel::BulkString(
                location@,
                Some((strings_view(strings@), *count)),
            ),
            MessageState::Error(e) => MockModel::Error(e@),
        }
    }
}

impl Default for MessageState {
    fn default() -> (m: Self)
        ensures
            m@ == MockModel::Initial,
    {
        MessageState::Initial
    }
}

/// The value of a decimal digit character, and zero for any other character.
fn digit_value(c: char) -> (d: usize)
    ensures
        d == digit_or_zero(c),
{
    if '0' <= c && c <= '9' {
        (c as u32 - 48) as usize
    } else {
        0
    }
}

/// Builds the reason `<prefix>'<c>'` given for a rejected character.
fn rejection(prefix: &str, c: char) -> (reason: String)
    ensures
        reason@ == prefix@ + seq![c] + "'"@,
{
    let mut reason = String::from_str(prefix);
    reason.push(c);
    reason.append("'");
    reason
}

/// Whether `acc * 10 + digit` stays within `usize`.
fn fits_next_digit(acc: usize, digit: usize) -> (ok: bool)
    requires
        digit < 10,
    ensures
        ok == (acc * 10 + digit <= usize::MAX),
{
    acc <= (usize::MAX - digit) / 10
}

impl MessageState {
    /// Whether the reader may be fed this character: its arithmetic stays within `usize`, and a
    /// line feed that ends a bulk string follows the carriage return it drops.
    pub fn accepts(&self, c: char) -> (ok: bool)
        ensures
            ok == mock_take_ok(self@, c),
    {
        match self {
            MessageState::ArraySize(acc, false) => c == '\r' || c == '\n' || fits_next_digit(
                *acc,
                digit_value(c),
            ),
            MessageState::BulkString(BulkStringLocation::Sizing(size), Some(_)) => c == '$' || c
                == '\r' || c == '\n' || fits_next_digit(*size, digit_value(c)),
            MessageState::BulkString(BulkStringLocation::Reading(_, buffer, true), Some(_)) => {
                if c != '\n' {
                    true
                } else {
                    let length = buffer.unicode_len();
                    length > 0 && buffer.get_char(length - 1) == '\r'
                }
            },
            _ => true,
        }
    }

    /// Feeds one character to the reader.
    pub fn take(self, token: char) -> (next: Self)
        requires
            mock_take_ok(self@, token),
        ensures
            next@ == mock_step(self@, token),
    {
        match self {
            MessageState::Initial => {
                if token == '*' {
                    MessageState::ArraySize(0, false)
                } else if token == '$' {
                    MessageState::BulkString(BulkStringLocation::Sizing(0), None)
                } else {
                    MessageState::Error(rejection("Invalid starting token '", token))
                }
            },
            MessageState::ArraySize(acc, seen_cr) => {
                if token == '\r' {
                    MessageState::ArraySize(acc, true)
                } else if token == '\n' {
                    let strings: Vec<String> = Vec::new();
                    assert(strings_view(strings@) =~= Seq::<Seq<char>>::empty());
                    MessageState::BulkString(BulkStringLocation::Sizing(0), Some((strings, acc)))
                } else if !seen_cr {
                    MessageState::ArraySize(acc * 10 + digit_value(token), false)
                } else {
                    MessageState::Error(rejection("Invalid token '", token))
                }
            },
            MessageState::BulkString(location, Some((mut strings, count))) => match location {
                BulkStringLocation::Sizing(size) => {
                    if token == '$' {
                        MessageState::BulkString(
                            BulkStringLocation::Sizing(0),
                            Some((strings, count)),
                        )
                    } else if token == '\r' {
                        MessageState::BulkString(
                            BulkStringLocation::Sizing(size),
                            Some((strings, count)),
                        )
                    } else if token == '\n' {
                        MessageState::BulkString(
                            BulkStringLocation::Reading(size, String::new(), false),
                            Some((strings, count)),
                        )
                    } else {
                        MessageState::BulkString(
                            BulkStringLocation::Sizing(size * 10 + digit_value(token)),
                            Some((strings, count)),
                        )
                    }
                },
                BulkStringLocation::Reading(size, mut buffer, seen_cr) => {
                    if !seen_cr && token == '\r' {
                        buffer.push(token);
                        MessageState::BulkString(
                            BulkStringLocation::Reading(size, buffer, true),
                            Some((strings, count)),
                        )
                    } else if seen_cr && token == '\n' {
                        let length = buffer.as_str().unicode_len();
                        let kept = String::from_str(buffer.as_str().substring_char(0, length - 1));
                        assert(kept@ =~= buffer@.drop_last());
                        let ghost before = strings@;
                        let ghost kept_view = kept@;
                        strings.push(kept);
                        assert(strings_view(strings@) =~= strings_view(before).push(kept_view));
                        MessageState::BulkString(
                            BulkStringLocation::Sizing(0),
                            Some((strings, count)),
                        )
                    } else {
                        buffer.push(token);
                        MessageState::BulkString(
                            BulkStringLocation::Reading(size, buffer, false),
                            Some((strings, count)),
                        )
                    }
                },
            },
            MessageState::BulkString(_, None) => MessageState::Error(
                rejection("Invalid token '", token),
            ),
            MessageState::Error(e) => MessageState::Error(e),
        }
    }
}

// ---------------------------------------------------------------------------------------------
// What the reader is proved to do on a well formed list pop response.
// ---------------------------------------------------------------------------------------------

/// The state the reader reaches after being fed `cs` from `m`.
pub open spec fn mock_run(m: MockModel, cs: Seq<char>) -> MockModel
    decreases cs.len(),
{
    if cs.len() == 0 {
        m
    } else {
        mock_run(mock_step(m, cs[0]), cs.drop_first())
    }
}

/// Every step on `cs` from `m` stays within `usize` arithmetic.
pub open spec fn mock_run_ok(m: MockModel, cs: Seq<char>) -> bool
    decreases cs.len(),
{
    if cs.len() == 0 {
        true
    } else {
        mock_take_ok(m, cs[0]) && mock_run_ok(mock_step(m, cs[0]), cs.drop_first())
    }
}

/// The shortest decimal spelling of a natural number.
pub open spec fn decimal_chars(n: nat) -> Seq<char>
    decreases n,
{
    if n < 10 {
        seq![(n + 48) as char]
    } else {
        decimal_chars(n / 10).push((n % 10 + 48) as char)
    }
}

/// The line terminator `\r\n`.
pub open spec fn crlf_chars() -> Seq<char> {
    seq!['\r', '\n']
}

/// The wire form of a bulk string: `$<len>\r\n<text>\r\n`.
pub open spec fn encode_bulk_chars(text: Seq<char>) -> Seq<char> {
    seq!['$'] + decimal_chars(text.len()) + crlf_chars() + text + crlf_chars()
}

/// The wire forms of several bulk strings, one after the other.
pub open spec fn encode_bulks_chars(items: Seq<Seq<char>>) -> Seq<char>
    decreases items.len(),
{
    if items.len() == 0 {
        seq![]
    } else {
        encode_bulks_chars(items.drop_last()) + encode_bulk_chars(items.last())
    }
}

/// The wire form of an array of bulk strings: `*<count>\r\n` followed by the elements.
pub open spec fn encode_array_chars(items: Seq<Seq<char>>) -> Seq<char> {
    seq!['*'] + decimal_chars(items.len()) + crlf_chars() + encode_bulks_chars(items)
}

proof fn lemma_mock_run_concat(m: MockModel, a: Seq<char>, b: Seq<char>)
    ensures
        mock_run(m, a + b) == mock_run(mock_run(m, a), b),
        mock_run_ok(m, a) && mock_run_ok(mock_run(m, a), b) ==> mock_run_ok(m, a + b),
    decreases a.len(),
{
    if a.len() == 0 {
        assert(a + b =~= b);
    } else {
        assert((a + b)[0] == a[0]);
        assert((a + b).drop_first() =~= a.drop_first() + b);
        lemma_mock_run_concat(mock_step(m, a[0]), a.drop_first(), b);
    }
}

proof fn lemma_mock_run_push(m: MockModel, a: Seq<char>, c: char)
    ensures
        mock_run(m, a.push(c)) == mock_step(mock_run(m, a), c),
        mock_run_ok(m, a) && mock_take_ok(mock_run(m, a), c) ==> mock_run_ok(m, a.push(c)),
{
    lemma_mock_run_concat(m, a, seq![c]);
    assert(a.push(c) =~= a + seq![c]);
    let x = mock_run(m, a);
    let one = seq![c];
    assert(one[0] == c);
    assert(one.drop_first() =~= Seq::<char>::empty());
    assert(mock_run(x, one) == mock_run(mock_step(x, c), one.drop_first()));
    assert(mock_run_ok(mock_step(x, c), one.drop_first()));
}

proof fn lemma_digit_char(d: nat)
    requires
        d < 10,
    ensures
        digit_or_zero((d + 48) as char) == d,
        (d + 48) as char != '\r' && (d + 48) as char != '\n' && (d + 48) as char != '$',
{
}

proof fn lemma_mock_count(n: nat)
    requires
        n <= usize::MAX,
    ensures
        mock_run_ok(MockModel::ArraySize(0, false), decimal_chars(n)),
        mock_run(MockModel::ArraySize(0, false), decimal_chars(n)) == MockModel::ArraySize(
            n as usize,
            false,
        ),
    decreases n,
{
    let start = MockModel::ArraySize(0, false);
    if n < 10 {
        lemma_digit_char(n);
        lemma_mock_run_push(start, Seq::<char>::empty(), (n + 48) as char);
        assert(Seq::<char>::empty().push((n + 48) as char) =~= decimal_chars(n));
    } else {
        lemma_mock_count(n / 10);
        lemma_digit_char(n % 10);
        assert((n / 10) * 10 + n % 10 == n) by (nonlinear_arith);
        lemma_mock_run_push(start, decimal_chars(n / 10), (n % 10 + 48) as char);
    }
}

/// The reader state between bulk strings.
pub open spec fn mock_between(strings: Seq<Seq<char>>, count: usize) -> MockModel {
    MockModel::BulkString(LocationModel::Sizing(0), Some((strings, count)))
}

proof fn lemma_mock_size(n: nat, strings: Seq<Seq<char>>, count: usize)
    requires
        n <= usize::MAX,
    ensures
        mock_run_ok(mock_between(strings, count), decimal_chars(n)),
        mock_run(mock_between(strings, count), decimal_chars(n)) == MockModel::BulkString(
            LocationModel::Sizing(n as usize),
            Some((strings, count)),
        ),
    decreases n,
{
    let start = mock_between(strings, count);
    if n < 10 {
        lemma_digit_char(n);
        lemma_mock_run_push(start, Seq::<char>::empty(), (n + 48) as char);
        assert(Seq::<char>::empty().push((n + 48) as char) =~= decimal_chars(n));
    } else {
        lemma_mock_size(n / 10, strings, count);
        lemma_digit_char(n % 10);
        assert((n / 10) * 10 + n % 10 == n) by (nonlinear_arith);
        lemma_mock_run_push(start, decimal_chars(n / 10), (n % 10 + 48) as char);
    }
}

/// A text without carriage returns.
pub open spec fn no_carriage_return(text: Seq<char>) -> bool {
    forall|i: int| 0 <= i < text.len() ==> text[i] != '\r'
}

proof fn lemma_mock_text(size: usize, strings: Seq<Seq<char>>, count: usize, text: Seq<char>)
    requires
        no_carriage_return(text),
    ensures
        mock_run_ok(
            MockModel::BulkString(LocationModel::Reading(size, seq![], false), Some((strings, count))),
            text,
        ),
        mock_run(
            MockModel::BulkString(LocationModel::Reading(size, seq![], false), Some((strings, count))),
            text,
        ) == MockModel::BulkString(LocationModel::Reading(size, text, false), Some((strings, count))),
    decreases text.len(),
{
    let start = MockModel::BulkString(
        LocationModel::Reading(size, seq![], false),
        Some((strings, count)),
    );
    if text.len() == 0 {
        assert(text =~= Seq::<char>::empty());
    } else {
        let p = text.drop_last();
        assert(no_carriage_return(p)) by {
            assert forall|i: int| 0 <= i < p.len() implies p[i] != '\r' by {
                assert(p[i] == text[i]);
            }
        }
        assert(text.last() == text[text.len() - 1]);
        lemma_mock_text(size, strings, count, p);
        lemma_mock_run_push(start, p, text.last());
        assert(p.push(text.last()) =~= text);
    }
}

proof fn lemma_mock_bulk(strings: Seq<Seq<char>>, count: usize, text: Seq<char>)
    requires
        no_carriage_return(text),
        text.len() <= usize::MAX,
    ensures
        mock_run_ok(mock_between(strings, count), encode_bulk_chars(text)),
        mock_run(mock_between(strings, count), encode_bulk_chars(text)) == mock_between(
            strings.push(text),
            count,
        ),
{
    let start = mock_between(strings, count);
    let len = text.len() as usize;
    let pair = Some((strings, count));
    // the `$` leaves the reader where it was
    lemma_mock_run_push(start, Seq::<char>::empty(), '$');
    assert(Seq::<char>::empty().push('$') =~= seq!['$']);
    // the length line
    lemma_mock_size(text.len(), strings, count);
    lemma_mock_run_concat(start, seq!['$'], decimal_chars(text.len()));
    let a1 = seq!['$'] + decimal_chars(text.len());
    lemma_mock_run_push(start, a1, '\r');
    lemma_mock_run_push(start, a1.push('\r'), '\n');
    let a2 = a1.push('\r').push('\n');
    let reading = MockModel::BulkString(LocationModel::Reading(len, seq![], false), pair);
    assert(mock_run(start, a2) == reading);
    // the text
    lemma_mock_text(len, strings, count, text);
    lemma_mock_run_concat(start, a2, text);
    // the terminator
    let a3 = a2 + text;
    lemma_mock_run_push(start, a3, '\r');
    let full = MockModel::BulkString(LocationModel::Reading(len, text.push('\r'), true), pair);
    assert(mock_run(start, a3.push('\r')) == full);
    assert(text.push('\r').drop_last() =~= text);
    lemma_mock_run_push(start, a3.push('\r'), '\n');
    assert(a3.push('\r').push('\n') =~= encode_bulk_chars(text));
}

proof fn lemma_mock_bulks(items: Seq<Seq<char>>, count: usize)
    requires
        forall|i: int|
            0 <= i < items.len() ==> no_carriage_return(#[trigger] items[i]) && items[i].len()
                <= usize::MAX,
    ensures
        mock_run_ok(mock_between(seq![], count), encode_bulks_chars(items)),
        mock_run(mock_between(seq![], count), encode_bulks_chars(items)) == mock_between(
            items,
            count,
        ),
    decreases items.len(),
{
    if items.len() == 0 {
        assert(items =~= Seq::<Seq<char>>::empty());
    } else {
        let p = items.drop_last();
        let text = items.last();
        assert(text == items[items.len() - 1]);
        lemma_mock_bulks(p, count);
        lemma_mock_bulk(p, count, text);
        lemma_mock_run_concat(mock_between(seq![], count), encode_bulks_chars(p), encode_bulk_chars(text));
        assert(p.push(text) =~= items);
    }
}

/// Reading the response of a list pop: the wire form of an array of bulk strings without
/// carriage returns leaves the reader between bulk strings, holding every string in order
/// together with the announced count.
pub proof fn law_mock_array_round_trip(items: Seq<Seq<char>>)
    requires
        items.len() <= usize::MAX,
        forall|i: int|
            0 <= i < items.len() ==> no_carriage_return(#[trigger] items[i]) && items[i].len()
                <= usize::MAX,
    ensures
        mock_run_ok(MockModel::Initial, encode_array_chars(items)),
        mock_run(MockModel::Initial, encode_array_chars(items)) == MockModel::BulkString(
            LocationModel::Sizing(0),
            Some((items, items.len() as usize)),
        ),
{
    let n = items.len();
    lemma_mock_run_push(MockModel::Initial, Seq::<char>::empty(), '*');
    assert(Seq::<char>::empty().push('*') =~= seq!['*']);
    lemma_mock_count(n);
    lemma_mock_run_concat(MockModel::Initial, seq!['*'], decimal_chars(n));
    let a1 = seq!['*'] + decimal_chars(n);
    lemma_mock_run_push(MockModel::Initial, a1, '\r');
    lemma_mock_run_push(MockModel::Initial, a1.push('\r'), '\n');
    let a2 = a1.push('\r').push('\n');
    assert(mock_run(MockModel::Initial, a2) == mock_between(seq![], n as usize));
    lemma_mock_bulks(items, n as usize);
    lemma_mock_run_concat(MockModel::Initial, a2, encode_bulks_chars(items));
    assert(a2 + encode_bulks_chars(items) =~= encode_array_chars(items));
}

} // verus!
