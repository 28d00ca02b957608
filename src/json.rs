use vstd::prelude::*;
use vstd::string::StrSliceExecFns;
use vstd::string::StringExecFns;

verus! {

/// The character that writes the digit `d` (below ten) in decimal.
pub open spec fn digit_char(d: nat) -> char {
    if d < 10 {
        ((48 + d) as u8) as char
    } else {
        '?'
    }
}

/// Decimal notation of `n`, most significant digit first, with no leading zeros.
pub open spec fn decimal(n: nat) -> Seq<char>
    decreases n,
{
    if n < 10 {
        seq![digit_char(n)]
    } else {
        decimal(n / 10).push(digit_char(n % 10))
    }
}

/// Relies on std's `String::push`: the character is appended at the end.
pub assume_specification[ String::push ](s: &mut String, ch: char)
    ensures
        final(s)@ == old(s)@.push(ch),
;

fn digit(d: u64) -> (c: char)
    requires
        d < 10,
    ensures
        c == digit_char(d as nat),
{
    ((48 + d) as u8) as char
}

/// Appends the decimal notation of `n` to `out`.
pub fn push_decimal(out: &mut String, n: u64)
    ensures
        final(out)@ == old(out)@ + decimal(n as nat),
    decreases n,
{
    if n >= 10 {
        push_decimal(out, n / 10);
    }
    out.push(digit(n % 10));
    assert(out@ =~= old(out)@ + decimal(n as nat));
}

/// The character that writes `d` (below sixteen) as a lower-case hexadecimal digit.
pub open spec fn hex_char(d: nat) -> char {
    if d < 10 {
        digit_char(d)
    } else if d < 16 {
        ((87 + d) as u8) as char
    } else {
        '?'
    }
}

/// Whether `c` is a control character, which JSON strings must not hold unescaped.
pub open spec fn is_control(c: char) -> bool {
    (c as u32) < 32
}

/// How one character is written inside a JSON string literal: a quote and a
/// backslash get a backslash before them, a control character becomes `\u00XX`,
/// every other character stands as itself.
pub open spec fn escaped_char(c: char) -> Seq<char> {
    if c == '"' {
        seq!['\\', '"']
    } else if c == '\\' {
        seq!['\\', '\\']
    } else if is_control(c) {
        seq!['\\', 'u', '0', '0', hex_char((c as u32 / 16) as nat), hex_char((c as u32 % 16) as nat)]
    } else {
        seq![c]
    }
}

/// The body of the JSON string literal for `s`: each character escaped in turn.
pub open spec fn escaped(s: Seq<char>) -> Seq<char>
    decreases s.len(),
{
    if s.len() == 0 {
        Seq::empty()
    } else {
        escaped(s.drop_last()) + escaped_char(s.last())
    }
}

/// The JSON string literal for `s`, quotes included.
pub open spec fn json_string(s: Seq<char>) -> Seq<char> {
    seq!['"'] + escaped(s) + seq!['"']
}

fn hex(d: u32) -> (c: char)
    requires
        d < 16,
    ensures
        c == hex_char(d as nat),
{
    if d < 10 {
        ((48 + d) as u8) as char
    } else {
        ((87 + d) as u8) as char
    }
}

fn push_escaped_char(out: &mut String, c: char)
    ensures
        final(out)@ == old(out)@ + escaped_char(c),
{
    if c == '"' {
        out.append("\\\"");
    } else if c == '\\' {
        out.append("\\\\");
    } else if (c as u32) < 32 {
        out.append("\\u00");
        out.push(hex(c as u32 / 16));
        out.push(hex(c as u32 % 16));
    } else {
        out.push(c);
    }
    proof {
        reveal_strlit("\\\"");
        reveal_strlit("\\\\");
        reveal_strlit("\\u00");
    }
    assert(out@ =~= old(out)@ + escaped_char(c));
}

/// Appends `s` to `out` as a JSON string literal, quotes included.
pub fn push_json_string(out: &mut String, s: &str)
    ensures
        final(out)@ == old(out)@ + json_string(s@),
{
    let ghost start = out@;
    out.push('"');
    let n = s.unicode_len();
    let mut i: usize = 0;
    while i < n
        invariant
            n == s@.len(),
            i <= n,
            out@ == start.push('"') + escaped(s@.subrange(0, i as int)),
        decreases n - i,
    {
        let c = s.get_char(i);
        push_escaped_char(out, c);
        proof {
            let next = s@.subrange(0, i + 1);
            assert(next.drop_last() =~= s@.subrange(0, i as int));
            assert(next.last() == c);
        }
        i = i + 1;
    }
    out.push('"');
    assert(s@.subrange(0, n as int) =~= s@);
    assert(out@ =~= old(out)@ + json_string(s@));
}

} // verus!

verus! {

/// Whether `c` is a hexadecimal digit, of either case.
pub open spec fn is_hex_digit(c: char) -> bool {
    let v = c as u32;
    (48 <= v <= 57) || (65 <= v <= 70) || (97 <= v <= 102)
}

/// Whether `c` may follow a backslash as a one-character escape in JSON.
pub open spec fn is_short_escape(c: char) -> bool {
    c == '"' || c == '\\' || c == '/' || c == 'b' || c == 'f' || c == 'n' || c == 'r' || c == 't'
}

/// Whether `t` may stand between the quotes of a JSON string literal: no bare
/// quote or control character, and every backslash starts a well-formed escape.
pub open spec fn is_json_string_body(t: Seq<char>) -> bool
    decreases t.len(),
{
    if t.len() == 0 {
        true
    } else if t[0] == '\\' {
        if t.len() >= 2 && is_short_escape(t[1]) {
            is_json_string_body(t.skip(2))
        } else if t.len() >= 6 && t[1] == 'u' && is_hex_digit(t[2]) && is_hex_digit(t[3])
            && is_hex_digit(t[4]) && is_hex_digit(t[5]) {
            is_json_string_body(t.skip(6))
        } else {
            false
        }
    } else {
        t[0] != '"' && !is_control(t[0]) && is_json_string_body(t.skip(1))
    }
}

proof fn lemma_body_concat(a: Seq<char>, b: Seq<char>)
    requires
        is_json_string_body(a),
        is_json_string_body(b),
    ensures
        is_json_string_body(a + b),
    decreases a.len(),
{
    if a.len() == 0 {
        assert(a + b =~= b);
    } else {
        let ab = a + b;
        assert(ab[0] == a[0]);
        if a[0] == '\\' {
            assert(ab[1] == a[1]);
            if a.len() >= 2 && is_short_escape(a[1]) {
                lemma_body_concat(a.skip(2), b);
                assert(ab.skip(2) =~= a.skip(2) + b);
            } else {
                assert(ab[2] == a[2] && ab[3] == a[3] && ab[4] == a[4] && ab[5] == a[5]);
                lemma_body_concat(a.skip(6), b);
                assert(ab.skip(6) =~= a.skip(6) + b);
            }
        } else {
            lemma_body_concat(a.skip(1), b);
            assert(ab.skip(1) =~= a.skip(1) + b);
        }
    }
}

proof fn lemma_escaped_char_body(c: char)
    ensures
        is_json_string_body(escaped_char(c)),
{
    let t = escaped_char(c);
    assert(is_json_string_body(Seq::<char>::empty()));
    if c == '"' || c == '\\' {
        assert(t.skip(2) =~= Seq::<char>::empty());
        assert(is_short_escape(t[1]));
    } else if is_control(c) {
        let hi = (c as u32 / 16) as nat;
        let lo = (c as u32 % 16) as nat;
        assert(hi < 2);
        assert(is_hex_digit(hex_char(hi)));
        assert(is_hex_digit(hex_char(lo)));
        assert(('0' as u32) == 48);
        assert(is_hex_digit(t[2]) && is_hex_digit(t[3]));
        assert(!is_short_escape(t[1]));
        assert(t.skip(6) =~= Seq::<char>::empty());
    } else {
        assert(t.skip(1) =~= Seq::<char>::empty());
    }
}

proof fn lemma_escaped_body(s: Seq<char>)
    ensures
        is_json_string_body(escaped(s)),
    decreases s.len(),
{
    if s.len() > 0 {
        lemma_escaped_body(s.drop_last());
        lemma_escaped_char_body(s.last());
        lemma_body_concat(escaped(s.drop_last()), escaped_char(s.last()));
    }
}

/// Whatever characters `s` holds, quotes and backslashes included, its JSON
/// string literal is well formed: a quote, a valid string body, a quote.
pub proof fn lemma_json_string_well_formed(s: Seq<char>)
    ensures
        json_string(s) == seq!['"'] + escaped(s) + seq!['"'],
        is_json_string_body(escaped(s)),
{
    lemma_escaped_body(s);
}

} // verus!
