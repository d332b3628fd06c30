//! JSON text assembly: escaping string contents, quoting, and joining
//! rendered pieces with commas. The spec functions here define, character by
//! character, the exact text every builder in this crate produces.

use vstd::prelude::*;
use vstd::string::StrSliceExecFns;
use vstd::string::StringExecFns;

verus! {

/// The lower-case hexadecimal digit for a value below sixteen.
pub open spec fn spec_hex_digit(n: int) -> char {
    if n == 0 {
        '0'
    } else if n == 1 {
        '1'
    } else if n == 2 {
        '2'
    } else if n == 3 {
        '3'
    } else if n == 4 {
        '4'
    } else if n == 5 {
        '5'
    } else if n == 6 {
        '6'
    } else if n == 7 {
        '7'
    } else if n == 8 {
        '8'
    } else if n == 9 {
        '9'
    } else if n == 10 {
        'a'
    } else if n == 11 {
        'b'
    } else if n == 12 {
        'c'
    } else if n == 13 {
        'd'
    } else if n == 14 {
        'e'
    } else {
        'f'
    }
}

/// How a single character appears inside a JSON string literal: quotes and
/// backslashes are escaped, common control characters get their short escape,
/// the remaining control characters get a `\u00XX` escape, and every other
/// character stands for itself.
pub open spec fn escaped_char(c: char) -> Seq<char> {
    if c == '"' {
        seq!['\\', '"']
    } else if c == '\\' {
        seq!['\\', '\\']
    } else if c == '\n' {
        seq!['\\', 'n']
    } else if c == '\r' {
        seq!['\\', 'r']
    } else if c == '\t' {
        seq!['\\', 't']
    } else if (c as u32) < 32 {
        seq!['\\', 'u', '0', '0', spec_hex_digit(c as u32 as int / 16), spec_hex_digit(
            c as u32 as int % 16,
        )]
    } else {
        seq![c]
    }
}

/// The body of a JSON string literal holding the characters of `s`.
pub open spec fn escaped(s: Seq<char>) -> Seq<char>
    decreases s.len(),
{
    if s.len() == 0 {
        Seq::empty()
    } else {
        escaped_char(s[0]) + escaped(s.skip(1))
    }
}

/// A complete JSON string literal holding the characters of `s`.
pub open spec fn quoted(s: Seq<char>) -> Seq<char> {
    seq!['"'] + escaped(s) + seq!['"']
}

/// The given pieces joined with a separator between each adjacent pair.
pub open spec fn joined(parts: Seq<Seq<char>>, sep: Seq<char>) -> Seq<char>
    decreases parts.len(),
{
    if parts.len() == 0 {
        Seq::empty()
    } else if parts.len() == 1 {
        parts[0]
    } else {
        parts[0] + sep + joined(parts.skip(1), sep)
    }
}

/// Each element rendered as a JSON string literal.
pub open spec fn quoted_all(elems: Seq<Seq<char>>) -> Seq<Seq<char>> {
    elems.map_values(|e: Seq<char>| quoted(e))
}

/// A JSON array of string literals, one per element of `elems`.
pub open spec fn string_array(elems: Seq<Seq<char>>) -> Seq<char> {
    seq!['['] + joined(quoted_all(elems), seq![',']) + seq![']']
}

/// Escaping a string processes it one character at a time.
pub proof fn lemma_escaped_push(s: Seq<char>, c: char)
    ensures
        escaped(s.push(c)) == escaped(s) + escaped_char(c),
    decreases s.len(),
{
    if s.len() == 0 {
        assert(s.push(c) =~= seq![c]);
        assert(s.push(c).skip(1) =~= Seq::<char>::empty());
        assert(escaped(s.push(c)) == escaped_char(c) + escaped(Seq::<char>::empty()));
        assert(escaped_char(c) + Seq::<char>::empty() =~= Seq::<char>::empty() + escaped_char(c));
    } else {
        assert(s.push(c).skip(1) =~= s.skip(1).push(c));
        lemma_escaped_push(s.skip(1), c);
        assert(s.push(c)[0] == s[0]);
        assert(escaped(s.push(c)) == escaped_char(s[0]) + (escaped(s.skip(1)) + escaped_char(c)));
        assert(escaped_char(s[0]) + (escaped(s.skip(1)) + escaped_char(c)) =~= (escaped_char(s[0])
            + escaped(s.skip(1))) + escaped_char(c));
    }
}

/// Joining pieces grows one piece at a time: appending a piece appends the
/// separator (unless the join was empty) and then the piece.
pub proof fn lemma_joined_push(parts: Seq<Seq<char>>, sep: Seq<char>, p: Seq<char>)
    ensures
        parts.len() == 0 ==> joined(parts.push(p), sep) == p,
        parts.len() > 0 ==> joined(parts.push(p), sep) == joined(parts, sep) + sep + p,
    decreases parts.len(),
{
    if parts.len() == 0 {
        assert(joined(parts.push(p), sep) == p);
    } else if parts.len() == 1 {
        assert(parts.push(p).skip(1) =~= seq![p]);
        assert(parts.push(p)[0] == parts[0]);
        assert(joined(seq![p], sep) == p);
        assert(joined(parts.push(p), sep) == parts[0] + sep + p);
    } else {
        assert(parts.push(p).skip(1) =~= parts.skip(1).push(p));
        lemma_joined_push(parts.skip(1), sep, p);
        assert(parts.push(p)[0] == parts[0]);
        assert(joined(parts.push(p), sep) == parts[0] + sep + (joined(parts.skip(1), sep) + sep
            + p));
        assert(parts[0] + sep + (joined(parts.skip(1), sep) + sep + p) =~= (parts[0] + sep + joined(
            parts.skip(1),
            sep,
        )) + sep + p);
    }
}

/// Whether `c` is a hexadecimal digit, as JSON admits after `\u`.
pub open spec fn is_hex_digit(c: char) -> bool {
    ('0' <= c && c <= '9') || ('a' <= c && c <= 'f') || ('A' <= c && c <= 'F')
}

/// Whether `s` is a legal body of a JSON string literal: no raw quote,
/// backslash or control character stands in it, and every backslash starts
/// one of the escapes the JSON grammar admits.
pub open spec fn valid_string_body(s: Seq<char>) -> bool
    decreases s.len(),
{
    if s.len() == 0 {
        true
    } else if s[0] == '\\' {
        if s.len() >= 2 && (s[1] == '"' || s[1] == '\\' || s[1] == '/' || s[1] == 'b' || s[1]
            == 'f' || s[1] == 'n' || s[1] == 'r' || s[1] == 't') {
            valid_string_body(s.skip(2))
        } else if s.len() >= 6 && s[1] == 'u' && is_hex_digit(s[2]) && is_hex_digit(s[3])
            && is_hex_digit(s[4]) && is_hex_digit(s[5]) {
            valid_string_body(s.skip(6))
        } else {
            false
        }
    } else {
        s[0] != '"' && s[0] as u32 >= 32 && valid_string_body(s.skip(1))
    }
}

/// Escaping produces a legal JSON string literal body, whatever the input:
/// the quoted form of any string parses back under the JSON grammar.
pub proof fn lemma_escaped_valid(s: Seq<char>)
    ensures
        valid_string_body(escaped(s)),
    decreases s.len(),
{
    if s.len() > 0 {
        lemma_escaped_valid(s.skip(1));
        let c = s[0];
        let e = escaped(s);
        let rest = escaped(s.skip(1));
        if c == '"' || c == '\\' || c == '\n' || c == '\r' || c == '\t' {
            assert(e.skip(2) =~= rest);
        } else if (c as u32) < 32 {
            assert(e.skip(6) =~= rest);
            assert(is_hex_digit(spec_hex_digit(c as u32 as int / 16)));
            assert(is_hex_digit(spec_hex_digit(c as u32 as int % 16)));
        } else {
            assert(e.skip(1) =~= rest);
        }
    }
}

/// Whether the needle `n` occurs in `h` starting at position `i`.
pub open spec fn occurs_at(h: Seq<char>, n: Seq<char>, i: int) -> bool {
    0 <= i && i + n.len() <= h.len() && h.subrange(i, i + n.len()) == n
}

/// Whether the needle `n` occurs anywhere in `h`.
pub open spec fn occurs(h: Seq<char>, n: Seq<char>) -> bool {
    exists|i: int| occurs_at(h, n, i)
}

/// An occurrence in the right part of a concatenation is an occurrence in
/// the whole, shifted by the left part's length.
pub proof fn lemma_occurs_at_shift(a: Seq<char>, b: Seq<char>, n: Seq<char>, i: int)
    requires
        occurs_at(b, n, i),
    ensures
        occurs_at(a + b, n, a.len() + i),
{
    assert((a + b).subrange(a.len() + i, a.len() + i + n.len()) =~= b.subrange(i, i + n.len()));
}

/// An occurrence in a string is an occurrence in any extension of it.
pub proof fn lemma_occurs_at_extend(h: Seq<char>, t: Seq<char>, n: Seq<char>, i: int)
    requires
        occurs_at(h, n, i),
    ensures
        occurs_at(h + t, n, i),
{
    assert((h + t).subrange(i, i + n.len()) =~= h.subrange(i, i + n.len()));
}

/// A prefix of an occurring needle occurs at the same position.
pub proof fn lemma_occurs_at_prefix(h: Seq<char>, n: Seq<char>, p: Seq<char>, i: int)
    requires
        occurs_at(h, n, i),
        p.len() <= n.len(),
        n.subrange(0, p.len() as int) == p,
    ensures
        occurs_at(h, p, i),
{
    assert(h.subrange(i, i + p.len()) =~= n.subrange(0, p.len() as int));
}

/// Every piece of a join occurs in the joined string.
pub proof fn lemma_joined_part_occurs(parts: Seq<Seq<char>>, sep: Seq<char>, j: int) -> (i: int)
    requires
        0 <= j < parts.len(),
    ensures
        occurs_at(joined(parts, sep), parts[j], i),
    decreases parts.len(),
{
    if j == 0 {
        assert(joined(parts, sep).subrange(0, parts[0].len() as int) =~= parts[0]);
        0
    } else {
        let i0 = lemma_joined_part_occurs(parts.skip(1), sep, j - 1);
        assert(parts[0] + sep + joined(parts.skip(1), sep) =~= (parts[0] + sep) + joined(
            parts.skip(1),
            sep,
        ));
        lemma_occurs_at_shift(parts[0] + sep, joined(parts.skip(1), sep), parts.skip(1)[j - 1], i0);
        parts[0].len() + sep.len() + i0
    }
}

/// Relies on `String::push` of std: appends the given character to the end
/// of the string.
#[verifier::external_body]
pub(crate) fn push_char(s: &mut String, c: char)
    ensures
        final(s)@ == old(s)@.push(c),
{
    s.push(c);
}

/// The lower-case hexadecimal digit for a value below sixteen.
pub fn hex_digit(n: u32) -> (c: char)
    requires
        n < 16,
    ensures
        c == spec_hex_digit(n as int),
{
    if n == 0 {
        '0'
    } else if n == 1 {
        '1'
    } else if n == 2 {
        '2'
    } else if n == 3 {
        '3'
    } else if n == 4 {
        '4'
    } else if n == 5 {
        '5'
    } else if n == 6 {
        '6'
    } else if n == 7 {
        '7'
    } else if n == 8 {
        '8'
    } else if n == 9 {
        '9'
    } else if n == 10 {
        'a'
    } else if n == 11 {
        'b'
    } else if n == 12 {
        'c'
    } else if n == 13 {
        'd'
    } else if n == 14 {
        'e'
    } else {
        'f'
    }
}

/// Appends the escaped form of one character to `out`.
fn push_escaped_char(out: &mut String, c: char)
    ensures
        final(out)@ == old(out)@ + escaped_char(c),
{
    if c == '"' {
        out.append("\\\"");
        proof {
            reveal_strlit("\\\"");
            assert(old(out)@ + "\\\""@ =~= old(out)@ + escaped_char(c));
        }
    } else if c == '\\' {
        out.append("\\\\");
        proof {
            reveal_strlit("\\\\");
            assert(old(out)@ + "\\\\"@ =~= old(out)@ + escaped_char(c));
        }
    } else if c == '\n' {
        out.append("\\n");
        proof {
            reveal_strlit("\\n");
            assert(old(out)@ + "\\n"@ =~= old(out)@ + escaped_char(c));
        }
    } else if c == '\r' {
        out.append("\\r");
        proof {
            reveal_strlit("\\r");
            assert(old(out)@ + "\\r"@ =~= old(out)@ + escaped_char(c));
        }
    } else if c == '\t' {
        out.append("\\t");
        proof {
            reveal_strlit("\\t");
            assert(old(out)@ + "\\t"@ =~= old(out)@ + escaped_char(c));
        }
    } else if (c as u32) < 32 {
        let code: u32 = c as u32;
        out.append("\\u00");
        push_char(out, hex_digit(code / 16));
        push_char(out, hex_digit(code % 16));
        proof {
            reveal_strlit("\\u00");
            assert(old(out)@ + "\\u00"@ + seq![spec_hex_digit(code as int / 16)] + seq![
                spec_hex_digit(code as int % 16),
            ] =~= old(out)@ + escaped_char(c));
        }
    } else {
        push_char(out, c);
        proof {
            assert(old(out)@.push(c) =~= old(out)@ + escaped_char(c));
        }
    }
}

/// Appends the escaped body of a JSON string literal holding `s` to `out`.
pub fn push_escaped(out: &mut String, s: &str)
    ensures
        final(out)@ == old(out)@ + escaped(s@),
{
    let n = s.unicode_len();
    let mut i: usize = 0;
    while i < n
        invariant
            i <= n,
            n == s@.len(),
            out@ == old(out)@ + escaped(s@.take(i as int)),
        decreases n - i,
    {
        let c = s.get_char(i);
        push_escaped_char(out, c);
        proof {
            lemma_escaped_push(s@.take(i as int), c);
            assert(s@.take(i as int).push(c) =~= s@.take(i as int + 1));
        }
        i = i + 1;
    }
    proof {
        assert(s@.take(n as int) =~= s@);
    }
}

/// Appends a complete JSON string literal holding `s` to `out`.
pub fn push_quoted(out: &mut String, s: &str)
    ensures
        final(out)@ == old(out)@ + quoted(s@),
{
    out.append("\"");
    push_escaped(out, s);
    out.append("\"");
    proof {
        reveal_strlit("\"");
        assert(old(out)@ + "\""@ + escaped(s@) + "\""@ =~= old(out)@ + quoted(s@));
    }
}

/// Appends a JSON array of string literals, one per element of `elems`, to
/// `out`.
pub fn push_string_array(out: &mut String, elems: &Vec<String>)
    ensures
        final(out)@ == old(out)@ + string_array(elems.deep_view()),
{
    out.append("[");
    let ghost dv = elems.deep_view();
    proof {
        reveal_strlit("[");
        assert(dv.take(0) =~= Seq::<Seq<char>>::empty());
        assert(quoted_all(dv.take(0)) =~= Seq::<Seq<char>>::empty());
        assert(out@ =~= old(out)@ + seq!['['] + joined(quoted_all(dv.take(0)), seq![',']));
    }
    let mut i: usize = 0;
    while i < elems.len()
        invariant
            i <= elems.len(),
            dv == elems.deep_view(),
            dv.len() == elems.len(),
            out@ == old(out)@ + seq!['['] + joined(quoted_all(dv.take(i as int)), seq![',']),
        decreases elems.len() - i,
    {
        if i > 0 {
            out.append(",");
            proof {
                reveal_strlit(",");
                assert(","@ =~= seq![',']);
            }
        }
        push_quoted(out, elems[i].as_str());
        proof {
            assert(elems[i as int]@ == dv[i as int]);
            lemma_joined_push(quoted_all(dv.take(i as int)), seq![','], quoted(dv[i as int]));
            assert(quoted_all(dv.take(i as int)).push(quoted(dv[i as int])) =~= quoted_all(
                dv.take(i as int + 1),
            ));
            assert(out@ =~= old(out)@ + seq!['['] + joined(
                quoted_all(dv.take(i as int + 1)),
                seq![','],
            ));
        }
        i = i + 1;
    }
    out.append("]");
    proof {
        reveal_strlit("[");
        reveal_strlit("]");
        assert(dv.take(elems.len() as int) =~= dv);
        assert(out@ =~= old(out)@ + string_array(elems.deep_view()));
    }
}

} // verus!
