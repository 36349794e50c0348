//! The html minifier that turns a page into the http response a device serves: every line is
//! trimmed, the lines are joined, double quotes become single quotes, and the result is wrapped
//! in a response with its length.

use vstd::prelude::*;
use crate::mock_reader::decimal_chars;
use crate::schema::texts_view;
use crate::text::{push_decimal, trim_leading_white_space, trim_trailing_white_space, trim_white_space};

verus! {

/// The status line of the response.
pub const STATUSLINE: &'static str = "HTTP/1.1 200 OK";

/// The content type header of the response.
pub const CONTENT_TYPE: &'static str = "Content-Type: text/html; charset=utf-8";

/// A text with every double quote replaced by a single quote.
pub open spec fn unquoted(text: Seq<char>) -> Seq<char> {
    text.map_values(|c: char| if c == '"' { '\'' } else { c })
}

/// A page's lines, each trimmed of its white space, joined, with double quotes made single.
pub open spec fn spec_minified(lines: Seq<Seq<char>>) -> Seq<char>
    decreases lines.len(),
{
    if lines.len() == 0 {
        seq![]
    } else {
        spec_minified(lines.drop_last()) + unquoted(
            trim_trailing_white_space(trim_leading_white_space(lines.last())),
        )
    }
}

/// Appends a text with every double quote replaced by a single quote.
fn push_unquoted(out: &mut String, text: &str)
    ensures
        final(out)@ == old(out)@ + unquoted(text@),
{
    let length = text.unicode_len();
    let ghost start = out@;
    let mut i: usize = 0;
    while i < length
        invariant
            i <= length,
            length == text@.len(),
            out@ == start + unquoted(text@.subrange(0, i as int)),
        decreases length - i,
    {
        let c = text.get_char(i);
        if c == '"' {
            out.push('\'');
        } else {
            out.push(c);
        }
        proof {
            assert(unquoted(text@.subrange(0, i + 1)) =~= unquoted(text@.subrange(0, i as int)).push(
                if c == '"' { '\'' } else { c },
            ));
        }
        i = i + 1;
    }
    proof {
        assert(text@.subrange(0, length as int) =~= text@);
    }
}

/// Minifies the lines of a page.
pub fn minify(lines: &Vec<String>) -> (minified: String)
    ensures
        minified@ == spec_minified(texts_view(lines@)),
{
    let mut out = String::new();
    let mut i: usize = 0;
    proof {
        assert(texts_view(lines@).take(0) =~= Seq::<Seq<char>>::empty());
    }
    while i < lines.len()
        invariant
            i <= lines.len(),
            out@ == spec_minified(texts_view(lines@).take(i as int)),
        decreases lines.len() - i,
    {
        let trimmed = trim_white_space(lines[i].as_str());
        push_unquoted(&mut out, trimmed.as_str());
        proof {
            let next = texts_view(lines@).take(i + 1);
            assert(next.drop_last() =~= texts_view(lines@).take(i as int));
            assert(next.last() == lines@[i as int]@);
        }
        i = i + 1;
    }
    proof {
        assert(texts_view(lines@).take(lines@.len() as int) =~= texts_view(lines@));
    }
    out
}

/// A minified page holds no double quote.
pub proof fn law_minified_pages_hold_no_double_quote(lines: Seq<Seq<char>>)
    ensures
        !spec_minified(lines).contains('"'),
    decreases lines.len(),
{
    if lines.len() > 0 {
        law_minified_pages_hold_no_double_quote(lines.drop_last());
        let head = spec_minified(lines.drop_last());
        let tail = unquoted(trim_trailing_white_space(trim_leading_white_space(lines.last())));
        assert forall|k: int| 0 <= k < (head + tail).len() implies (head + tail)[k] != '"' by {
            if k < head.len() {
                assert((head + tail)[k] == head[k]);
            } else {
                assert((head + tail)[k] == tail[k - head.len()]);
            }
        }
    }
}

/// The http response serving a body of `byte_length` bytes.
pub open spec fn spec_response(body: Seq<char>, byte_length: nat) -> Seq<char> {
    STATUSLINE@ + "\r\n"@ + CONTENT_TYPE@ + "\r\nContent-Length: "@ + decimal_chars(byte_length)
        + "\r\n\r\n"@ + body
}

/// Wraps a body in the http response that serves it; its length is counted in utf-8 bytes.
pub fn http_response(body: &str) -> (response: String)
    ensures
        response@ == spec_response(body@, body.len() as nat),
{
    let mut out = String::from_str(STATUSLINE);
    out.append("\r\n");
    out.append(CONTENT_TYPE);
    out.append("\r\nContent-Length: ");
    push_decimal(&mut out, body.len() as u64);
    out.append("\r\n\r\n");
    out.append(body);
    out
}

/// What the tool's arguments ask for: the file to read, and whether only the minified page is
/// written (a first argument `--html`, followed by the file) rather than the response.
pub open spec fn spec_target(args: Seq<Seq<char>>) -> (Option<Seq<char>>, bool) {
    if args.len() == 0 {
        (None, false)
    } else if args[0] == "--html"@ {
        (if args.len() > 1 { Some(args[1]) } else { None }, true)
    } else {
        (Some(args[0]), false)
    }
}

/// Reads the tool's arguments (those after the program's name).
pub fn target_arguments(args: &Vec<String>) -> (target: (Option<String>, bool))
    ensures
        (match target.0 {
            Some(t) => Some(t@),
            None => None,
        }, target.1) == spec_target(texts_view(args@)),
{
    if args.len() == 0 {
        return (None, false);
    }
    let html = String::from_str("--html");
    if args[0] == html {
        if args.len() > 1 {
            (Some(args[1].clone()), true)
        } else {
            (None, true)
        }
    } else {
        (Some(args[0].clone()), false)
    }
}

} // verus!
