//! JSON text for the handler's replies: a verified escaper for string
//! values and the exact bodies of the success and error responses.

use vstd::prelude::*;

verus! {

/// The lowercase hex digit for a nibble value.
pub open spec fn hex_digit(n: int) -> char {
    if n == 0 {
        '0'
    } else if n == 1 {
        '1'
    } else if n == 2 {
        '2'
    } else if n == 3 {
        '3'
    } else if n == 4 {
        '4'
    } else if n == 5 {
        '5'
    } else if n == 6 {
        '6'
    } else if n == 7 {
        '7'
    } else if n == 8 {
        '8'
    } else if n == 9 {
        '9'
    } else if n == 10 {
        'a'
    } else if n == 11 {
        'b'
    } else if n == 12 {
        'c'
    } else if n == 13 {
        'd'
    } else if n == 14 {
        'e'
    } else {
        'f'
    }
}

/// How one character appears inside a JSON string value: the quote and the
/// backslash get a backslash escape, control characters get their short
/// escape or a `\u00XX` form, and every other character stands as itself.
pub open spec fn json_escape_char(c: char) -> Seq<char> {
    if c == '"' {
        seq!['\\', '"']
    } else if c == '\\' {
        seq!['\\', '\\']
    } else if c == '\u{8}' {
        seq!['\\', 'b']
    } else if c == '\u{c}' {
        seq!['\\', 'f']
    } else if c == '\n' {
        seq!['\\', 'n']
    } else if c == '\r' {
        seq!['\\', 'r']
    } else if c == '\t' {
        seq!['\\', 't']
    } else if (c as u32) < 0x20 {
        seq!['\\', 'u', '0', '0', hex_digit(c as u32 as int / 16), hex_digit(c as u32 as int % 16)]
    } else {
        seq![c]
    }
}

/// A whole string value, escaped character by character.
pub open spec fn json_escaped(s: Seq<char>) -> Seq<char>
    decreases s.len(),
{
    if s.len() == 0 {
        Seq::empty()
    } else {
        json_escape_char(s[0]) + json_escaped(s.drop_first())
    }
}

/// A JSON string value: the escaped characters between double quotes.
pub open spec fn json_quoted(s: Seq<char>) -> Seq<char> {
    seq!['"'] + json_escaped(s) + seq!['"']
}

/// The body of an error reply: an object with the error code under
/// `error` and the human-readable text under `message`.
pub open spec fn error_body(code: Seq<char>, message: Seq<char>) -> Seq<char> {
    "{\"error\":"@ + json_quoted(code) + ",\"message\":"@ + json_quoted(message) + "}"@
}

/// The body of the success reply: an object with the fresh identifier
/// under `user_id` and the status text under `message`.
pub open spec fn success_body(user_id: Seq<char>, message: Seq<char>) -> Seq<char> {
    "{\"user_id\":"@ + json_quoted(user_id) + ",\"message\":"@ + json_quoted(message) + "}"@
}

/// Relies on `String::push`: it appends exactly the one character.
#[verifier::external_body]
fn push_char(s: &mut String, c: char)
    ensures
        final(s)@ == old(s)@.push(c),
{
    s.push(c);
}

fn hex_digit_char(n: u32) -> (c: char)
    requires
        n < 16,
    ensures
        c == hex_digit(n as int),
{
    if n == 0 {
        '0'
    } else if n == 1 {
        '1'
    } else if n == 2 {
        '2'
    } else if n == 3 {
        '3'
    } else if n == 4 {
        '4'
    } else if n == 5 {
        '5'
    } else if n == 6 {
        '6'
    } else if n == 7 {
        '7'
    } else if n == 8 {
        '8'
    } else if n == 9 {
        '9'
    } else if n == 10 {
        'a'
    } else if n == 11 {
        'b'
    } else if n == 12 {
        'c'
    } else if n == 13 {
        'd'
    } else if n == 14 {
        'e'
    } else {
        'f'
    }
}

fn push_escaped(out: &mut String, c: char)
    ensures
        final(out)@ == old(out)@ + json_escape_char(c),
{
    if c == '"' {
        out.append("\\\"");
        proof {
            reveal_strlit("\\\"");
            assert(final(out)@ =~= old(out)@ + json_escape_char(c));
        }
    } else if c == '\\' {
        out.append("\\\\");
        proof {
            reveal_strlit("\\\\");
            assert(final(out)@ =~= old(out)@ + json_escape_char(c));
        }
    } else if c == '\u{8}' {
        out.append("\\b");
        proof {
            reveal_strlit("\\b");
            assert(final(out)@ =~= old(out)@ + json_escape_char(c));
        }
    } else if c == '\u{c}' {
        out.append("\\f");
        proof {
            reveal_strlit("\\f");
            assert(final(out)@ =~= old(out)@ + json_escape_char(c));
        }
    } else if c == '\n' {
        out.append("\\n");
        proof {
            reveal_strlit("\\n");
            assert(final(out)@ =~= old(out)@ + json_escape_char(c));
        }
    } else if c == '\r' {
        out.append("\\r");
        proof {
            reveal_strlit("\\r");
            assert(final(out)@ =~= old(out)@ + json_escape_char(c));
        }
    } else if c == '\t' {
        out.append("\\t");
        proof {
            reveal_strlit("\\t");
            assert(final(out)@ =~= old(out)@ + json_escape_char(c));
        }
    } else if (c as u32) < 0x20 {
        out.append("\\u00");
        let v = c as u32;
        let hi = hex_digit_char(v / 16);
        let lo = hex_digit_char(v % 16);
        push_char(out, hi);
        push_char(out, lo);
        proof {
            reveal_strlit("\\u00");
            assert(final(out)@ =~= old(out)@ + json_escape_char(c));
        }
    } else {
        push_char(out, c);
        proof {
            assert(final(out)@ =~= old(out)@ + json_escape_char(c));
        }
    }
}

proof fn lemma_json_escaped_push(s: Seq<char>, c: char)
    ensures
        json_escaped(s.push(c)) == json_escaped(s) + json_escape_char(c),
    decreases s.len(),
{
    if s.len() == 0 {
        assert(s.push(c)[0] == c);
        assert(s.push(c).drop_first() =~= Seq::<char>::empty());
        assert(json_escaped(Seq::<char>::empty()) == Seq::<char>::empty());
        assert(json_escaped(s.push(c)) == json_escape_char(c) + json_escaped(
            s.push(c).drop_first(),
        ));
        assert(json_escaped(s.push(c)) =~= json_escaped(s) + json_escape_char(c));
    } else {
        assert(s.push(c)[0] == s[0]);
        assert(s.push(c).drop_first() =~= s.drop_first().push(c));
        lemma_json_escaped_push(s.drop_first(), c);
        assert(json_escaped(s.push(c)) == json_escape_char(s[0]) + json_escaped(
            s.drop_first().push(c),
        ));
        assert(json_escaped(s.push(c)) == json_escape_char(s[0]) + (json_escaped(s.drop_first())
            + json_escape_char(c)));
        assert(json_escape_char(s[0]) + (json_escaped(s.drop_first()) + json_escape_char(c)) =~= (
        json_escape_char(s[0]) + json_escaped(s.drop_first())) + json_escape_char(c));
        assert(json_escaped(s) == json_escape_char(s[0]) + json_escaped(s.drop_first()));
    }
}

/// Appends the JSON string form of `s`, quotes included, to `out`.
fn append_json_quoted(out: &mut String, s: &str)
    ensures
        final(out)@ == old(out)@ + json_quoted(s@),
{
    let ghost base: Seq<char> = out@;
    push_char(out, '"');
    let n = s.unicode_len();
    let mut i: usize = 0;
    proof {
        assert(s@.take(0) =~= Seq::<char>::empty());
        assert(out@ =~= base + seq!['"'] + json_escaped(s@.take(0)));
    }
    while i < n
        invariant
            n == s@.len(),
            i <= n,
            out@ == base + seq!['"'] + json_escaped(s@.take(i as int)),
        decreases n - i,
    {
        let c = s.get_char(i);
        push_escaped(out, c);
        proof {
            lemma_json_escaped_push(s@.take(i as int), c);
            assert(s@.take(i as int).push(c) =~= s@.take(i as int + 1));
            assert(out@ =~= base + seq!['"'] + json_escaped(s@.take(i as int + 1)));
        }
        i = i + 1;
    }
    push_char(out, '"');
    proof {
        assert(s@.take(n as int) =~= s@);
        assert(final(out)@ =~= base + json_quoted(s@));
    }
}

/// The JSON string form of `s`, as serde_json writes a string value.
pub fn json_quoted_text(s: &str) -> (r: String)
    ensures
        r@ == json_quoted(s@),
{
    let mut r = String::new();
    append_json_quoted(&mut r, s);
    proof {
        assert(r@ =~= json_quoted(s@));
    }
    r
}

/// Renders the error reply body for an error code and a message.
pub fn error_body_text(code: &str, message: &str) -> (r: String)
    ensures
        r@ == error_body(code@, message@),
{
    let mut r = String::new();
    r.append("{\"error\":");
    append_json_quoted(&mut r, code);
    r.append(",\"message\":");
    append_json_quoted(&mut r, message);
    r.append("}");
    proof {
        assert(r@ =~= error_body(code@, message@));
    }
    r
}

/// Renders the success reply body for a user identifier and a message.
pub fn success_body_text(user_id: &str, message: &str) -> (r: String)
    ensures
        r@ == success_body(user_id@, message@),
{
    let mut r = String::new();
    r.append("{\"user_id\":");
    append_json_quoted(&mut r, user_id);
    r.append(",\"message\":");
    append_json_quoted(&mut r, message);
    r.append("}");
    proof {
        assert(r@ =~= success_body(user_id@, message@));
    }
    r
}

} // verus!
