//! Character-level specifications of the texts the service produces: decimal
//! rendering of integers, JSON string escaping, the Prometheus text
//! exposition format, and the identifier rules the metrics library enforces.

use vstd::prelude::*;

verus! {

// ---------------------------------------------------------------------------
// Decimal digits
// ---------------------------------------------------------------------------

/// The character for one decimal digit.
pub open spec fn digit_char(d: int) -> char
    recommends
        0 <= d < 10,
{
    if d == 0 {
        '0'
    } else if d == 1 {
        '1'
    } else if d == 2 {
        '2'
    } else if d == 3 {
        '3'
    } else if d == 4 {
        '4'
    } else if d == 5 {
        '5'
    } else if d == 6 {
        '6'
    } else if d == 7 {
        '7'
    } else if d == 8 {
        '8'
    } else {
        '9'
    }
}

/// The usual decimal rendering of a non-negative integer, no leading zeros.
pub open spec fn nat_to_decimal(v: int) -> Seq<char>
    recommends
        v >= 0,
    decreases v,
{
    if v <= 9 {
        seq![digit_char(v)]
    } else {
        nat_to_decimal(v / 10).push(digit_char(v % 10))
    }
}

/// The decimal rendering of an integer, with `-` for negative values.
pub open spec fn int_to_decimal(v: int) -> Seq<char> {
    if v < 0 {
        seq!['-'] + nat_to_decimal(-v)
    } else {
        nat_to_decimal(v)
    }
}

/// Whether `c` is an ASCII decimal digit.
pub open spec fn is_dec_digit(c: char) -> bool {
    48 <= c as int <= 57
}

/// The numeric value of an ASCII decimal digit.
pub open spec fn digit_val(c: char) -> int {
    c as int - 48
}

/// Whether every character of `s` is an ASCII decimal digit.
pub open spec fn digits_only(s: Seq<char>) -> bool {
    forall|i: int| 0 <= i < s.len() ==> is_dec_digit(#[trigger] s[i])
}

/// The value of a sequence of decimal digits, most significant first.
pub open spec fn dec_val(s: Seq<char>) -> int
    decreases s.len(),
{
    if s.len() == 0 {
        0
    } else {
        10 * dec_val(s.drop_last()) + digit_val(s.last())
    }
}

pub proof fn lemma_dec_val_nonneg(s: Seq<char>)
    requires
        digits_only(s),
    ensures
        dec_val(s) >= 0,
    decreases s.len(),
{
    if s.len() > 0 {
        assert(digits_only(s.drop_last()));
        lemma_dec_val_nonneg(s.drop_last());
    }
}

/// A digit string is worth at least as much as any of its prefixes.
pub proof fn lemma_dec_val_prefix(s: Seq<char>, j: int)
    requires
        digits_only(s),
        0 <= j <= s.len(),
    ensures
        dec_val(s.take(j)) <= dec_val(s),
    decreases s.len() - j,
{
    if j < s.len() {
        assert(s.take(j + 1).drop_last() =~= s.take(j));
        assert(digits_only(s.take(j)));
        lemma_dec_val_nonneg(s.take(j));
        assert(dec_val(s.take(j + 1)) == 10 * dec_val(s.take(j)) + digit_val(s[j]));
        lemma_dec_val_prefix(s, j + 1);
    } else {
        assert(s.take(j) =~= s);
    }
}

// ---------------------------------------------------------------------------
// JSON string escaping
// ---------------------------------------------------------------------------

/// The lowercase hexadecimal character for one nibble.
pub open spec fn hex_char(d: int) -> char
    recommends
        0 <= d < 16,
{
    if d < 10 {
        digit_char(d)
    } else if d == 10 {
        'a'
    } else if d == 11 {
        'b'
    } else if d == 12 {
        'c'
    } else if d == 13 {
        'd'
    } else if d == 14 {
        'e'
    } else {
        'f'
    }
}

/// How one character appears inside a JSON string literal: quotes and
/// backslashes are escaped, control characters use the short escapes where
/// JSON has them and `\u00xx` otherwise.
pub open spec fn json_escape_char(c: char) -> Seq<char> {
    if c == '"' {
        seq!['\\', '"']
    } else if c == '\\' {
        seq!['\\', '\\']
    } else if c == '\n' {
        seq!['\\', 'n']
    } else if c == '\r' {
        seq!['\\', 'r']
    } else if c == '\t' {
        seq!['\\', 't']
    } else if (c as int) < 32 {
        seq!['\\', 'u', '0', '0', hex_char(c as int / 16), hex_char(c as int % 16)]
    } else {
        seq![c]
    }
}

/// A whole string escaped for use inside a JSON string literal.
pub open spec fn json_escape(s: Seq<char>) -> Seq<char>
    decreases s.len(),
{
    if s.len() == 0 {
        Seq::empty()
    } else {
        json_escape(s.drop_last()) + json_escape_char(s.last())
    }
}

/// The health endpoint's JSON body for a given environment name.
pub open spec fn health_body(env: Seq<char>) -> Seq<char> {
    "{\"status\":\"success\",\"message\":\""@ + json_escape(env) + "\"}"@
}

/// The health body names the environment faithfully: for all environment
/// names, equal bodies mean equal names, so the JSON `message` field read
/// back from the body is exactly the configured `env`.
pub proof fn lemma_health_body_determines_env(a: Seq<char>, b: Seq<char>)
    requires
        health_body(a) == health_body(b),
    ensures
        a == b,
{
    let p = "{\"status\":\"success\",\"message\":\""@;
    let s = "\"}"@;
    let ea = json_escape(a);
    let eb = json_escape(b);
    assert((p + ea + s).len() == p.len() + ea.len() + s.len());
    assert((p + eb + s).len() == p.len() + eb.len() + s.len());
    assert(ea.len() == eb.len());
    assert(ea =~= (p + ea + s).subrange(p.len() as int, (p.len() + ea.len()) as int));
    assert(eb =~= (p + eb + s).subrange(p.len() as int, (p.len() + eb.len()) as int));
    assert(ea == eb);
    lemma_json_escape_injective(a, b);
}

/// The characters that do not stand for themselves in a JSON string
/// literal.
pub open spec fn is_json_special(c: char) -> bool {
    c == '"' || c == '\\' || (c as int) < 32
}

/// Escaping can also be read off from the front: the first character's
/// escape, then the escape of the rest.
pub proof fn lemma_json_escape_left(s: Seq<char>)
    requires
        s.len() > 0,
    ensures
        json_escape(s) == json_escape_char(s[0]) + json_escape(s.skip(1)),
    decreases s.len(),
{
    if s.len() == 1 {
        assert(s.drop_last().len() == 0);
        assert(s.skip(1).len() == 0);
        assert(json_escape(s) == json_escape(s.drop_last()) + json_escape_char(s.last()));
        assert(json_escape(s.drop_last()) =~= Seq::<char>::empty());
        assert(json_escape(s.skip(1)) =~= Seq::<char>::empty());
        assert(s.last() == s[0]);
        assert(json_escape(s) =~= json_escape_char(s[0]) + json_escape(s.skip(1)));
    } else {
        lemma_json_escape_left(s.drop_last());
        assert(s.drop_last()[0] == s[0]);
        assert(s.drop_last().skip(1) =~= s.skip(1).drop_last());
        assert(s.skip(1).last() == s.last());
        assert(json_escape(s.skip(1)) == json_escape(s.skip(1).drop_last()) + json_escape_char(
            s.skip(1).last(),
        ));
        assert(json_escape(s) =~= json_escape_char(s[0]) + json_escape(s.skip(1)));
    }
}

/// The sixteen hexadecimal digit characters are pairwise distinct.
proof fn lemma_hex_char_injective(x: int, y: int)
    requires
        0 <= x < 16,
        0 <= y < 16,
        hex_char(x) == hex_char(y),
    ensures
        x == y,
{
}

/// Escaping loses nothing: two strings with the same escaped form are the
/// same string.
#[verifier::rlimit(60)]
pub proof fn lemma_json_escape_injective(a: Seq<char>, b: Seq<char>)
    requires
        json_escape(a) == json_escape(b),
    ensures
        a == b,
    decreases a.len(),
{
    if a.len() == 0 && b.len() == 0 {
        assert(a =~= b);
    } else if a.len() == 0 {
        lemma_json_escape_left(b);
        assert(json_escape(b).len() >= json_escape_char(b[0]).len());
        assert(false);
    } else if b.len() == 0 {
        lemma_json_escape_left(a);
        assert(json_escape(a).len() >= json_escape_char(a[0]).len());
        assert(false);
    } else {
        lemma_json_escape_left(a);
        lemma_json_escape_left(b);
        let ea = json_escape_char(a[0]);
        let eb = json_escape_char(b[0]);
        assert(json_escape(a)[0] == ea[0]);
        assert(json_escape(b)[0] == eb[0]);
        if !is_json_special(a[0]) && !is_json_special(b[0]) {
            assert(a[0] == b[0]);
        } else if is_json_special(a[0]) && is_json_special(b[0]) {
            assert(json_escape(a)[1] == ea[1]);
            assert(json_escape(b)[1] == eb[1]);
            assert(ea[1] == eb[1]);
            if ea[1] == 'u' {
                // Both are `\u00xx` forms; the two hexadecimal digits fix
                // the character.
                assert(a[0] != '"' && a[0] != '\\' && a[0] != '\n' && a[0] != '\r' && a[0]
                    != '\t') by {
                    assert(seq!['\\', '"'][1] == '"');
                    assert(seq!['\\', '\\'][1] == '\\');
                    assert(seq!['\\', 'n'][1] == 'n');
                    assert(seq!['\\', 'r'][1] == 'r');
                    assert(seq!['\\', 't'][1] == 't');
                }
                assert(b[0] != '"' && b[0] != '\\' && b[0] != '\n' && b[0] != '\r' && b[0]
                    != '\t') by {
                    assert(seq!['\\', '"'][1] == '"');
                    assert(seq!['\\', '\\'][1] == '\\');
                    assert(seq!['\\', 'n'][1] == 'n');
                    assert(seq!['\\', 'r'][1] == 'r');
                    assert(seq!['\\', 't'][1] == 't');
                }
                assert((a[0] as int) < 32 && (b[0] as int) < 32);
                vstd::utf8::char_is_scalar(a[0]);
                vstd::utf8::char_u32_cast(a[0], a[0] as u32);
                vstd::utf8::char_is_scalar(b[0]);
                vstd::utf8::char_u32_cast(b[0], b[0] as u32);
                assert(0 <= (a[0] as int) && 0 <= (b[0] as int));
                assert(ea.len() == 6 && eb.len() == 6);
                assert(ea[4] == hex_char(a[0] as int / 16) && ea[5] == hex_char(a[0] as int % 16));
                assert(eb[4] == hex_char(b[0] as int / 16) && eb[5] == hex_char(b[0] as int % 16));
                assert(json_escape(a)[4] == ea[4] && json_escape(a)[5] == ea[5]);
                assert(json_escape(b)[4] == eb[4] && json_escape(b)[5] == eb[5]);
                assert(hex_char(a[0] as int / 16) == hex_char(b[0] as int / 16));
                assert(hex_char(a[0] as int % 16) == hex_char(b[0] as int % 16));
                lemma_hex_char_injective(a[0] as int / 16, b[0] as int / 16);
                lemma_hex_char_injective(a[0] as int % 16, b[0] as int % 16);
                assert(a[0] as int == b[0] as int);
                assert(a[0] == b[0]);
            } else {
                // The short forms `\"`, `\\`, `\n`, `\r`, `\t` have
                // pairwise distinct second characters.
                assert(a[0] == b[0]);
            }
        } else {
            // One side starts with a backslash, the other with a character
            // that is not one.
            assert(false);
        }
        assert(ea == eb);
        assert(json_escape(a.skip(1)) =~= json_escape(a).skip(ea.len() as int));
        assert(json_escape(b.skip(1)) =~= json_escape(b).skip(eb.len() as int));
        lemma_json_escape_injective(a.skip(1), b.skip(1));
        assert(a =~= seq![a[0]] + a.skip(1));
        assert(b =~= seq![b[0]] + b.skip(1));
        assert(a =~= b);
    }
}

// ---------------------------------------------------------------------------
// Prometheus text exposition format
// ---------------------------------------------------------------------------

/// How one character appears in exposition text: backslashes and newlines are
/// escaped everywhere, double quotes only inside label values.
pub open spec fn prom_escape_char(c: char, quote: bool) -> Seq<char> {
    if c == '\\' {
        seq!['\\', '\\']
    } else if c == '\n' {
        seq!['\\', 'n']
    } else if c == '"' && quote {
        seq!['\\', '"']
    } else {
        seq![c]
    }
}

/// A whole string escaped for exposition text.
pub open spec fn prom_escape(s: Seq<char>, quote: bool) -> Seq<char>
    decreases s.len(),
{
    if s.len() == 0 {
        Seq::empty()
    } else {
        prom_escape(s.drop_last(), quote) + prom_escape_char(s.last(), quote)
    }
}

/// One `name="value"` label pair in exposition text.
pub open spec fn label_pair_text(p: (Seq<char>, Seq<char>)) -> Seq<char> {
    p.0 + "=\""@ + prom_escape(p.1, true) + "\""@
}

/// Comma-separated label pairs, as they stand between the braces of a sample
/// line.
pub open spec fn label_list_text(labels: Seq<(Seq<char>, Seq<char>)>) -> Seq<char>
    decreases labels.len(),
{
    if labels.len() == 0 {
        Seq::empty()
    } else if labels.len() == 1 {
        label_pair_text(labels[0])
    } else {
        label_list_text(labels.drop_last()) + seq![','] + label_pair_text(labels.last())
    }
}

/// The full exposition text for a single gauge family: a `# HELP` line when
/// the help string is not empty, the `# TYPE` line, and one sample line with
/// the labels in braces and the already-rendered value after a space.
pub open spec fn exposition_text(
    name: Seq<char>,
    help: Seq<char>,
    labels: Seq<(Seq<char>, Seq<char>)>,
    val_text: Seq<char>,
) -> Seq<char> {
    (if help.len() > 0 {
        "# HELP "@ + name + " "@ + prom_escape(help, false) + "\n"@
    } else {
        Seq::empty()
    }) + "# TYPE "@ + name + " gauge\n"@ + name + (if labels.len() > 0 {
        "{"@ + label_list_text(labels) + "}"@
    } else {
        Seq::empty()
    }) + " "@ + val_text + "\n"@
}

// ---------------------------------------------------------------------------
// Identifier rules of the metrics library
// ---------------------------------------------------------------------------

/// Characters allowed anywhere in a label name: ASCII letters and `_`.
pub open spec fn is_label_name_char(c: char) -> bool {
    (97 <= c as int <= 122) || (65 <= c as int <= 90) || c == '_'
}

/// Characters allowed anywhere in a metric name: label characters and `:`.
pub open spec fn is_metric_name_char(c: char) -> bool {
    is_label_name_char(c) || c == ':'
}

/// A valid metric name: `[a-zA-Z_:][a-zA-Z0-9_:]*`.
pub open spec fn is_valid_metric_name(s: Seq<char>) -> bool {
    s.len() > 0 && is_metric_name_char(s[0]) && (forall|i: int|
        1 <= i < s.len() ==> is_metric_name_char(#[trigger] s[i]) || is_dec_digit(s[i]))
}

/// A valid label name: `[a-zA-Z_][a-zA-Z0-9_]*`.
pub open spec fn is_valid_label_name(s: Seq<char>) -> bool {
    s.len() > 0 && is_label_name_char(s[0]) && (forall|i: int|
        1 <= i < s.len() ==> is_label_name_char(#[trigger] s[i]) || is_dec_digit(s[i]))
}

// ---------------------------------------------------------------------------
// Executable helpers
// ---------------------------------------------------------------------------

/// Relies on `String::push`: appends exactly the one character.
#[verifier::external_body]
pub(crate) fn push_char(s: &mut String, c: char)
    ensures
        final(s)@ == old(s)@.push(c),
{
    s.push(c);
}

/// Relies on `str`'s `PartialEq`: two string slices compare equal exactly
/// when their character sequences do.
#[verifier::external_body]
pub(crate) fn str_eq(a: &str, b: &str) -> (r: bool)
    ensures
        r == (a@ == b@),
{
    a == b
}

/// The lowercase hexadecimal character for one nibble.
pub fn hex_char_exec(d: u8) -> (c: char)
    requires
        d < 16,
    ensures
        c == hex_char(d as int),
{
    if d == 0 {
        '0'
    } else if d == 1 {
        '1'
    } else if d == 2 {
        '2'
    } else if d == 3 {
        '3'
    } else if d == 4 {
        '4'
    } else if d == 5 {
        '5'
    } else if d == 6 {
        '6'
    } else if d == 7 {
        '7'
    } else if d == 8 {
        '8'
    } else if d == 9 {
        '9'
    } else if d == 10 {
        'a'
    } else if d == 11 {
        'b'
    } else if d == 12 {
        'c'
    } else if d == 13 {
        'd'
    } else if d == 14 {
        'e'
    } else {
        'f'
    }
}

/// Appends `s`, escaped as inside a JSON string literal, to `out`.
pub fn append_json_escaped(out: &mut String, s: &str)
    ensures
        final(out)@ == old(out)@ + json_escape(s@),
{
    let n = s.unicode_len();
    let mut i: usize = 0;
    while i < n
        invariant
            i <= n,
            n == s@.len(),
            out@ == old(out)@ + json_escape(s@.take(i as int)),
        decreases n - i,
    {
        let c = s.get_char(i);
        if c == '"' {
            out.append("\\\"");
            proof {
                reveal_strlit("\\\"");
                assert(("\\\"")@ =~= json_escape_char(c));
            }
        } else if c == '\\' {
            out.append("\\\\");
            proof {
                reveal_strlit("\\\\");
                assert(("\\\\")@ =~= json_escape_char(c));
            }
        } else if c == '\n' {
            out.append("\\n");
            proof {
                reveal_strlit("\\n");
                assert(("\\n")@ =~= json_escape_char(c));
            }
        } else if c == '\r' {
            out.append("\\r");
            proof {
                reveal_strlit("\\r");
                assert(("\\r")@ =~= json_escape_char(c));
            }
        } else if c == '\t' {
            out.append("\\t");
            proof {
                reveal_strlit("\\t");
                assert(("\\t")@ =~= json_escape_char(c));
            }
        } else if (c as u32) < 32 {
            out.append("\\u00");
            let code: u32 = c as u32;
            push_char(out, hex_char_exec((code / 16) as u8));
            push_char(out, hex_char_exec((code % 16) as u8));
            proof {
                reveal_strlit("\\u00");
                assert(("\\u00")@ + seq![hex_char(c as int / 16), hex_char(c as int % 16)]
                    =~= json_escape_char(c));
            }
        } else {
            push_char(out, c);
            proof {
                assert(seq![c] =~= json_escape_char(c));
            }
        }
        proof {
            assert(s@.take(i as int + 1).drop_last() =~= s@.take(i as int));
            assert(s@.take(i as int + 1).last() == s@[i as int]);
            assert(out@ =~= old(out)@ + json_escape(s@.take(i as int + 1)));
        }
        i = i + 1;
    }
    proof {
        assert(s@.take(n as int) =~= s@);
    }
}

} // verus!
