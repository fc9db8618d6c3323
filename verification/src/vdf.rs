//! Rendering primitives for the client's key/value config file format.
//!
//! The format is a nested key/value document: every key and every value is
//! wrapped in double quotes, a key and its value are separated by a tab, and
//! nested blocks are wrapped in braces, one tab of indentation per level.
//! Booleans render as `"1"` / `"0"`, numbers in plain decimal, and durations
//! as decimal seconds. String values escape backslash, newline, tab and the
//! double quote; any other control character cannot be encoded at all.

use vstd::prelude::*;
use vstd::string::{StrSliceExecFns, StringExecFns};

verus! {

/// Relies on std's `String::push`: appends exactly one character at the end.
pub assume_specification[ String::push ](s: &mut String, ch: char)
    ensures
        final(s)@ == old(s)@.push(ch),
;

/// The decimal digit character for `d` (meaningful for `d < 10`).
pub open spec fn digit_char(d: nat) -> char {
    ((48 + d) as u8) as char
}

/// The decimal representation of `n`, most significant digit first.
pub open spec fn dec_rep(n: nat) -> Seq<char>
    decreases n,
{
    if n < 10 {
        seq![digit_char(n)]
    } else {
        dec_rep(n / 10).push(digit_char(n % 10))
    }
}

/// Whether the config file format can encode `c` inside a quoted string.
///
/// Backslash, newline, tab and the double quote are encoded through escape
/// sequences; any other character below the space is not representable.
pub open spec fn encodable_char(c: char) -> bool {
    c == '\n' || c == '\t' || c as u32 >= 32
}

/// Whether every character of `s` can be encoded inside a quoted string.
pub open spec fn encodable(s: Seq<char>) -> bool {
    forall|i: int| 0 <= i < s.len() ==> encodable_char(#[trigger] s[i])
}

/// The escape sequence that encodes `c` inside a quoted string.
pub open spec fn escape_char(c: char) -> Seq<char> {
    if c == '\\' {
        seq!['\\', '\\']
    } else if c == '\n' {
        seq!['\\', 'n']
    } else if c == '\t' {
        seq!['\\', 't']
    } else if c == '"' {
        seq!['\\', '"']
    } else {
        seq![c]
    }
}

/// The escaped form of `s`, character by character.
pub open spec fn escape_str(s: Seq<char>) -> Seq<char>
    decreases s.len(),
{
    if s.len() == 0 {
        Seq::empty()
    } else {
        escape_str(s.drop_last()) + escape_char(s.last())
    }
}

/// `s` wrapped in double quotes.
pub open spec fn quoted(s: Seq<char>) -> Seq<char> {
    seq!['"'] + s + seq!['"']
}

/// One `"key"<tab>"value"` line at the given indentation.
pub open spec fn kv_line(indent: Seq<char>, key: Seq<char>, val: Seq<char>) -> Seq<char> {
    indent + quoted(key) + seq!['\t'] + quoted(val) + seq!['\n']
}

/// The `"key"` line opening a nested block one level deep, with its brace.
pub open spec fn block_open(key: Seq<char>) -> Seq<char> {
    seq!['\t'] + quoted(key) + seq!['\n', '\t', '{', '\n']
}

/// The line closing a nested block one level deep.
pub open spec fn block_close() -> Seq<char> {
    seq!['\t', '}', '\n']
}

/// The config file format's rendering of a boolean value.
pub open spec fn bool_rep(b: bool) -> Seq<char> {
    seq![(if b { '1' } else { '0' })]
}

/// `ms` milliseconds rendered as decimal seconds, with the shortest fraction.
pub open spec fn secs_rep(ms: nat) -> Seq<char> {
    if ms % 1000 == 0 {
        dec_rep(ms / 1000)
    } else {
        dec_rep(ms / 1000) + seq!['.'] + frac_rep(ms % 1000)
    }
}

/// The fractional digits for `r` thousandths (meaningful for `0 < r < 1000`):
/// three digits with leading zeros kept and trailing zeros trimmed.
pub open spec fn frac_rep(r: nat) -> Seq<char> {
    if r % 10 != 0 {
        seq![digit_char(r / 100), digit_char((r / 10) % 10), digit_char(r % 10)]
    } else if (r / 10) % 10 != 0 {
        seq![digit_char(r / 100), digit_char((r / 10) % 10)]
    } else {
        seq![digit_char(r / 100)]
    }
}

/// Shifting one concatenation step: appending `c` to `a + b` appends it to
/// the `b` part.
pub proof fn lemma_concat_shift(a: Seq<char>, b: Seq<char>, c: Seq<char>)
    ensures
        (a + b) + c == a + (b + c),
{
    assert((a + b) + c =~= a + (b + c));
}

/// Append one decimal digit character.
fn push_digit(out: &mut String, d: u64)
    requires
        d < 10,
    ensures
        final(out)@ == old(out)@.push(digit_char(d as nat)),
{
    let b: u8 = 48 + (d as u8);
    out.push(b as char);
}

/// Append the decimal representation of `n`.
pub fn push_u64(out: &mut String, n: u64)
    ensures
        final(out)@ == old(out)@ + dec_rep(n as nat),
    decreases n,
{
    if n >= 10 {
        push_u64(out, n / 10);
    }
    push_digit(out, n % 10);
    proof {
        assert(final(out)@ =~= old(out)@ + dec_rep(n as nat));
    }
}

/// Append `ms` milliseconds as decimal seconds.
pub fn push_secs(out: &mut String, ms: u64)
    ensures
        final(out)@ == old(out)@ + secs_rep(ms as nat),
{
    push_u64(out, ms / 1000);
    let r = ms % 1000;
    if r != 0 {
        out.push('.');
        push_digit(out, r / 100);
        if r % 10 != 0 {
            push_digit(out, (r / 10) % 10);
            push_digit(out, r % 10);
        } else if (r / 10) % 10 != 0 {
            push_digit(out, (r / 10) % 10);
        }
        assert(final(out)@ =~= old(out)@ + secs_rep(ms as nat));
    } else {
        assert(final(out)@ =~= old(out)@ + secs_rep(ms as nat));
    }
}

/// Whether the config file format can encode every character of `s`.
pub fn str_encodable(s: &str) -> (b: bool)
    ensures
        b == encodable(s@),
{
    let len = s.unicode_len();
    let mut i: usize = 0;
    while i < len
        invariant
            i <= len,
            len == s@.len(),
            forall|j: int| 0 <= j < i ==> encodable_char(#[trigger] s@[j]),
        decreases len - i,
    {
        let c = s.get_char(i);
        if !(c == '\n' || c == '\t' || c as u32 >= 32) {
            return false;
        }
        i = i + 1;
    }
    true
}

/// Append the escaped form of `s`.
pub fn push_escaped(out: &mut String, s: &str)
    ensures
        final(out)@ == old(out)@ + escape_str(s@),
{
    let len = s.unicode_len();
    let mut i: usize = 0;
    while i < len
        invariant
            i <= len,
            len == s@.len(),
            out@ == old(out)@ + escape_str(s@.take(i as int)),
        decreases len - i,
    {
        let c = s.get_char(i);
        if c == '\\' {
            out.push('\\');
            out.push('\\');
        } else if c == '\n' {
            out.push('\\');
            out.push('n');
        } else if c == '\t' {
            out.push('\\');
            out.push('t');
        } else if c == '"' {
            out.push('\\');
            out.push('"');
        } else {
            out.push(c);
        }
        proof {
            assert(s@.take(i + 1).drop_last() =~= s@.take(i as int));
            assert(s@.take(i + 1).last() == s@[i as int]);
            assert(out@ =~= old(out)@ + escape_str(s@.take(i + 1)));
        }
        i = i + 1;
    }
    proof {
        assert(s@.take(len as int) =~= s@);
    }
}

/// Append `s` wrapped in double quotes, without escaping.
pub fn push_quoted_raw(out: &mut String, s: &str)
    ensures
        final(out)@ == old(out)@ + quoted(s@),
{
    out.push('"');
    out.append(s);
    out.push('"');
    assert(final(out)@ =~= old(out)@ + quoted(s@));
}

/// Append `s` wrapped in double quotes, escaping its characters.
pub fn push_quoted_escaped(out: &mut String, s: &str)
    ensures
        final(out)@ == old(out)@ + quoted(escape_str(s@)),
{
    out.push('"');
    push_escaped(out, s);
    out.push('"');
    assert(final(out)@ =~= old(out)@ + quoted(escape_str(s@)));
}

/// Append a `"key"<tab>"value"` line with an escaped string value.
pub fn push_kv_str(out: &mut String, indent: &str, key: &str, val: &str)
    ensures
        final(out)@ == old(out)@ + kv_line(indent@, key@, escape_str(val@)),
{
    out.append(indent);
    push_quoted_raw(out, key);
    out.push('\t');
    push_quoted_escaped(out, val);
    out.push('\n');
    assert(final(out)@ =~= old(out)@ + kv_line(indent@, key@, escape_str(val@)));
}

/// Append a `"key"<tab>"value"` line, escaping both the key and the value.
pub fn push_kv_pair(out: &mut String, indent: &str, key: &str, val: &str)
    ensures
        final(out)@ == old(out)@ + kv_line(indent@, escape_str(key@), escape_str(val@)),
{
    out.append(indent);
    push_quoted_escaped(out, key);
    out.push('\t');
    push_quoted_escaped(out, val);
    out.push('\n');
    assert(final(out)@ =~= old(out)@ + kv_line(indent@, escape_str(key@), escape_str(val@)));
}

/// Append a `"key"<tab>"value"` line with a decimal value.
pub fn push_kv_u64(out: &mut String, indent: &str, key: &str, val: u64)
    ensures
        final(out)@ == old(out)@ + kv_line(indent@, key@, dec_rep(val as nat)),
{
    out.append(indent);
    push_quoted_raw(out, key);
    out.push('\t');
    out.push('"');
    push_u64(out, val);
    out.push('"');
    out.push('\n');
    assert(final(out)@ =~= old(out)@ + kv_line(indent@, key@, dec_rep(val as nat)));
}

/// Append a `"key"<tab>"value"` line with a decimal-seconds value.
pub fn push_kv_secs(out: &mut String, indent: &str, key: &str, ms: u64)
    ensures
        final(out)@ == old(out)@ + kv_line(indent@, key@, secs_rep(ms as nat)),
{
    out.append(indent);
    push_quoted_raw(out, key);
    out.push('\t');
    out.push('"');
    push_secs(out, ms);
    out.push('"');
    out.push('\n');
    assert(final(out)@ =~= old(out)@ + kv_line(indent@, key@, secs_rep(ms as nat)));
}

/// Append a `"key"<tab>"value"` line with a boolean value.
pub fn push_kv_bool(out: &mut String, indent: &str, key: &str, val: bool)
    ensures
        final(out)@ == old(out)@ + kv_line(indent@, key@, bool_rep(val)),
{
    out.append(indent);
    push_quoted_raw(out, key);
    out.push('\t');
    out.push('"');
    if val {
        out.push('1');
    } else {
        out.push('0');
    }
    out.push('"');
    out.push('\n');
    assert(final(out)@ =~= old(out)@ + kv_line(indent@, key@, bool_rep(val)));
}

/// Append the opening of a nested block one level deep.
pub fn push_block_open(out: &mut String, key: &str)
    ensures
        final(out)@ == old(out)@ + block_open(key@),
{
    out.push('\t');
    push_quoted_raw(out, key);
    out.push('\n');
    out.push('\t');
    out.push('{');
    out.push('\n');
    assert(final(out)@ =~= old(out)@ + block_open(key@));
}

/// Append the closing of a nested block one level deep.
pub fn push_block_close(out: &mut String)
    ensures
        final(out)@ == old(out)@ + block_close(),
{
    out.push('\t');
    out.push('}');
    out.push('\n');
    assert(final(out)@ =~= old(out)@ + block_close());
}

} // verus!
