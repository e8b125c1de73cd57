//! Character-level string utilities: building strings one character at a
//! time, turning a `&str` into its character sequence, and the decimal
//! rendering of 32-bit identifiers.

use vstd::prelude::*;

verus! {

/// Relies on `String::push`: appends exactly one character to the string.
#[verifier::external_body]
pub fn push_char(s: &mut String, c: char)
    ensures
        final(s)@ == old(s)@.push(c),
{
    s.push(c);
}

/// The characters of a string slice, as a vector.
pub fn to_char_vec(s: &str) -> (v: Vec<char>)
    ensures
        v@ == s@,
{
    let n: usize = s.unicode_len();
    let mut v: Vec<char> = Vec::new();
    let mut i: usize = 0;
    while i < n
        invariant
            i <= n,
            n == s@.len(),
            v@ == s@.take(i as int),
        decreases n - i,
    {
        let c = s.get_char(i);
        v.push(c);
        i = i + 1;
        proof {
            assert(v@ =~= s@.take(i as int));
        }
    }
    proof {
        assert(s@.take(n as int) =~= s@);
    }
    v
}

/// The decimal digit character for a value below ten.
pub open spec fn spec_digit(d: int) -> char {
    ((48 + d) as u8) as char
}

/// The decimal rendering of a non-negative integer, most significant digit
/// first, with no leading zeros.
pub open spec fn spec_dec(n: int) -> Seq<char>
    decreases n,
{
    if n < 10 {
        seq![spec_digit(n)]
    } else {
        spec_dec(n / 10).push(spec_digit(n % 10))
    }
}

/// Appends the decimal rendering of `n` to `out`.
pub fn push_u32_dec(out: &mut String, n: u32)
    ensures
        final(out)@ == old(out)@ + spec_dec(n as int),
    decreases n,
{
    if n < 10 {
        let d: u8 = 48 + (n as u8);
        push_char(out, d as char);
        proof {
            assert(out@ =~= old(out)@ + spec_dec(n as int));
        }
    } else {
        push_u32_dec(out, n / 10);
        let d: u8 = 48 + ((n % 10) as u8);
        push_char(out, d as char);
        proof {
            assert(out@ =~= old(out)@ + spec_dec(n as int));
        }
    }
}

/// The decimal rendering of `n`, as a fresh string.
pub fn u32_to_dec(n: u32) -> (r: String)
    ensures
        r@ == spec_dec(n as int),
{
    let mut s = String::new();
    push_u32_dec(&mut s, n);
    proof {
        assert(s@ =~= spec_dec(n as int));
    }
    s
}

/// Replaces each of the first `i` characters of `s` by its expansion under
/// `f` and concatenates the results.
pub open spec fn expand_prefix(f: spec_fn(char) -> Seq<char>, s: Seq<char>, i: int) -> Seq<char>
    decreases i,
{
    if i <= 0 {
        Seq::empty()
    } else {
        expand_prefix(f, s, i - 1) + f(s[i - 1])
    }
}

/// The whole of `s`, each character expanded under `f`.
pub open spec fn expand(f: spec_fn(char) -> Seq<char>, s: Seq<char>) -> Seq<char> {
    expand_prefix(f, s, s.len() as int)
}

/// The widget-expression escaping of one character: the two quote characters
/// become HTML entities, everything else stands as it is.
pub open spec fn hexator_char(c: char) -> Seq<char> {
    if c == '"' {
        seq!['&', '#', '3', '4', ';']
    } else if c == '\'' {
        seq!['&', '#', '3', '9', ';']
    } else {
        seq![c]
    }
}

/// The widget-expression escaping of a string.
pub open spec fn spec_hexator(s: Seq<char>) -> Seq<char> {
    expand(|c: char| hexator_char(c), s)
}

/// The lowercase hexadecimal digit for a value below sixteen.
pub open spec fn spec_hex_digit(d: int) -> char {
    if d < 10 {
        spec_digit(d)
    } else {
        ((87 + d) as u8) as char
    }
}

/// The JSON string escaping of one character: quote and backslash get a
/// backslash, the named control characters their short forms, the remaining
/// control characters a `\u00..` sequence, and everything else stands.
pub open spec fn json_escape_char(c: char) -> Seq<char> {
    if c == '"' {
        seq!['\\', '"']
    } else if c == '\\' {
        seq!['\\', '\\']
    } else if c == '\u{8}' {
        seq!['\\', 'b']
    } else if c == '\t' {
        seq!['\\', 't']
    } else if c == '\n' {
        seq!['\\', 'n']
    } else if c == '\u{c}' {
        seq!['\\', 'f']
    } else if c == '\r' {
        seq!['\\', 'r']
    } else if (c as u32) < 32 {
        seq!['\\', 'u', '0', '0', spec_hex_digit((c as u32) as int / 16), spec_hex_digit((c as u32) as int % 16)]
    } else {
        seq![c]
    }
}

/// The JSON string escaping of a string.
pub open spec fn spec_json_escape(s: Seq<char>) -> Seq<char> {
    expand(|c: char| json_escape_char(c), s)
}

/// Newline replacement for renderer variables: a newline becomes `<br>`.
pub open spec fn nl_br_char(c: char) -> Seq<char> {
    if c == '\n' {
        seq!['<', 'b', 'r', '>']
    } else {
        seq![c]
    }
}

/// A string with every newline replaced by `<br>`.
pub open spec fn spec_nl_br(s: Seq<char>) -> Seq<char> {
    expand(|c: char| nl_br_char(c), s)
}

/// Appends the widget-expression escaping of `s` to `out`.
pub fn push_hexator(out: &mut String, s: &str)
    ensures
        final(out)@ == old(out)@ + spec_hexator(s@),
{
    let cs = to_char_vec(s);
    let mut i: usize = 0;
    while i < cs.len()
        invariant
            i <= cs@.len(),
            cs@ == s@,
            out@ == old(out)@ + expand_prefix(|c: char| hexator_char(c), s@, i as int),
        decreases cs@.len() - i,
    {
        let c = cs[i];
        if c == '"' {
            out.append("&#34;");
            proof {
                reveal_strlit("&#34;");
                assert("&#34;"@ =~= hexator_char(c));
            }
        } else if c == '\'' {
            out.append("&#39;");
            proof {
                reveal_strlit("&#39;");
                assert("&#39;"@ =~= hexator_char(c));
            }
        } else {
            push_char(out, c);
            proof {
                assert(seq![c] =~= hexator_char(c));
            }
        }
        i = i + 1;
        proof {
            assert(out@ =~= old(out)@ + expand_prefix(|c: char| hexator_char(c), s@, i as int));
        }
    }
}

/// Appends the JSON string escaping of `s` to `out`.
pub fn push_json_escaped(out: &mut String, s: &str)
    ensures
        final(out)@ == old(out)@ + spec_json_escape(s@),
{
    let cs = to_char_vec(s);
    let mut i: usize = 0;
    while i < cs.len()
        invariant
            i <= cs@.len(),
            cs@ == s@,
            out@ == old(out)@ + expand_prefix(|c: char| json_escape_char(c), s@, i as int),
        decreases cs@.len() - i,
    {
        let c = cs[i];
        if c == '"' {
            out.append("\\\"");
            proof {
                reveal_strlit("\\\"");
                assert("\\\""@ =~= json_escape_char(c));
            }
        } else if c == '\\' {
            out.append("\\\\");
            proof {
                reveal_strlit("\\\\");
                assert("\\\\"@ =~= json_escape_char(c));
            }
        } else if c == '\u{8}' {
            out.append("\\b");
            proof {
                reveal_strlit("\\b");
                assert("\\b"@ =~= json_escape_char(c));
            }
        } else if c == '\t' {
            out.append("\\t");
            proof {
                reveal_strlit("\\t");
                assert("\\t"@ =~= json_escape_char(c));
            }
        } else if c == '\n' {
            out.append("\\n");
            proof {
                reveal_strlit("\\n");
                assert("\\n"@ =~= json_escape_char(c));
            }
        } else if c == '\u{c}' {
            out.append("\\f");
            proof {
                reveal_strlit("\\f");
                assert("\\f"@ =~= json_escape_char(c));
            }
        } else if c == '\r' {
            out.append("\\r");
            proof {
                reveal_strlit("\\r");
                assert("\\r"@ =~= json_escape_char(c));
            }
        } else if (c as u32) < 32 {
            out.append("\\u00");
            let v: u32 = c as u32;
            let hi: u32 = v / 16;
            let lo: u32 = v % 16;
            let hic: u8 = if hi < 10 {
                48 + (hi as u8)
            } else {
                87 + (hi as u8)
            };
            let loc: u8 = if lo < 10 {
                48 + (lo as u8)
            } else {
                87 + (lo as u8)
            };
            push_char(out, hic as char);
            push_char(out, loc as char);
            proof {
                reveal_strlit("\\u00");
                assert(hic as char == spec_hex_digit(v as int / 16));
                assert(loc as char == spec_hex_digit(v as int % 16));
                assert("\\u00"@.push(hic as char).push(loc as char) =~= json_escape_char(c));
            }
        } else {
            push_char(out, c);
            proof {
                assert(seq![c] =~= json_escape_char(c));
            }
        }
        i = i + 1;
        proof {
            assert(out@ =~= old(out)@ + expand_prefix(
                |c: char| json_escape_char(c),
                s@,
                i as int,
            ));
        }
    }
}

/// Appends `s` with every newline replaced by `<br>` to `out`.
pub fn push_nl_br(out: &mut String, s: &str)
    ensures
        final(out)@ == old(out)@ + spec_nl_br(s@),
{
    let cs = to_char_vec(s);
    let mut i: usize = 0;
    while i < cs.len()
        invariant
            i <= cs@.len(),
            cs@ == s@,
            out@ == old(out)@ + expand_prefix(|c: char| nl_br_char(c), s@, i as int),
        decreases cs@.len() - i,
    {
        let c = cs[i];
        if c == '\n' {
            out.append("<br>");
            proof {
                reveal_strlit("<br>");
                assert("<br>"@ =~= nl_br_char(c));
            }
        } else {
            push_char(out, c);
            proof {
                assert(seq![c] =~= nl_br_char(c));
            }
        }
        i = i + 1;
        proof {
            assert(out@ =~= old(out)@ + expand_prefix(|c: char| nl_br_char(c), s@, i as int));
        }
    }
}

/// `needle` occurs in `haystack` as a contiguous run.
pub open spec fn contains_seq(haystack: Seq<char>, needle: Seq<char>) -> bool {
    exists|k: int|
        0 <= k && k + needle.len() <= haystack.len() && #[trigger] haystack.subrange(
            k,
            k + needle.len() as int,
        ) == needle
}

/// Whether `needle` occurs in `haystack` as a contiguous run of characters.
pub fn contains_str(haystack: &str, needle: &str) -> (r: bool)
    ensures
        r == contains_seq(haystack@, needle@),
{
    let h = to_char_vec(haystack);
    let n = to_char_vec(needle);
    if n.len() > h.len() {
        proof {
            assert(!contains_seq(haystack@, needle@));
        }
        return false;
    }
    if n.len() == 0 {
        proof {
            assert(haystack@.subrange(0, 0 + needle@.len() as int) =~= needle@);
            assert(contains_seq(haystack@, needle@));
        }
        return true;
    }
    let mut k: usize = 0;
    while k <= h.len() - n.len()
        invariant
            h@ == haystack@,
            n@ == needle@,
            h@.len() <= usize::MAX,
            1 <= n@.len() <= h@.len(),
            k <= h@.len() - n@.len() + 1,
            forall|q: int|
                0 <= q < k ==> #[trigger] h@.subrange(q, q + n@.len() as int) != n@,
        decreases h@.len() - n@.len() + 1 - k,
    {
        let mut j: usize = 0;
        let mut matched = true;
        while j < n.len() && matched
            invariant
                h@ == haystack@,
                n@ == needle@,
                h@.len() <= usize::MAX,
                k + n@.len() <= h@.len(),
                j <= n@.len(),
                matched ==> h@.subrange(k as int, k as int + j as int) =~= n@.subrange(0, j as int),
                !matched ==> h@.subrange(k as int, k as int + n@.len() as int) != n@,
            decreases n@.len() - j + (if matched { 1int } else { 0int }),
        {
            if h[k + j] != n[j] {
                matched = false;
                proof {
                    let full = h@.subrange(k as int, k as int + n@.len() as int);
                    assert(full[j as int] == h@[k + j]);
                    assert(full != n@);
                }
            } else {
                j = j + 1;
                proof {
                    assert(h@.subrange(k as int, k as int + j as int) =~= n@.subrange(0, j as int));
                }
            }
        }
        if matched && j == n.len() {
            proof {
                assert(n@.subrange(0, n@.len() as int) =~= n@);
                assert(h@.subrange(k as int, k as int + n@.len() as int) == n@);
            }
            return true;
        }
        proof {
            assert(h@.subrange(k as int, k as int + n@.len() as int) != n@);
        }
        k = k + 1;
    }
    proof {
        assert(!contains_seq(haystack@, needle@));
    }
    false
}

} // verus!
