//! Escaping of control characters and truncation of cell text.
use vstd::prelude::*;
use vstd::utf8::encode_utf8;

use crate::text::{push_char, push_str};

verus! {

/// The control characters that are written as a visible escape sequence.
pub open spec fn is_meta_char(c: char) -> bool {
    c == '\n' || c == '\r' || c == '\t' || c == '\x07' || c == '\x08' || c == '\x0b'
        || c == '\x0c'
}

/// The letter that names a control character in its escape sequence.
pub open spec fn meta_letter(c: char) -> char {
    if c == '\n' {
        'n'
    } else if c == '\r' {
        'r'
    } else if c == '\t' {
        't'
    } else if c == '\x07' {
        'a'
    } else if c == '\x08' {
        'b'
    } else if c == '\x0b' {
        'v'
    } else {
        'f'
    }
}

/// What one character becomes: a control character turns into two
/// backslashes followed by its letter, any other character stays.
pub open spec fn escape_char(c: char) -> Seq<char> {
    if is_meta_char(c) {
        seq!['\\', '\\', meta_letter(c)]
    } else {
        seq![c]
    }
}

/// The escaped form of a character sequence: each character escaped in turn.
pub open spec fn escaped(s: Seq<char>) -> Seq<char>
    decreases s.len(),
{
    if s.len() == 0 {
        seq![]
    } else {
        escaped(s.drop_last()) + escape_char(s.last())
    }
}

/// Whether a sequence holds any control character that escaping rewrites.
pub open spec fn has_meta_char(s: Seq<char>) -> bool {
    exists|i: int| 0 <= i < s.len() && is_meta_char(#[trigger] s[i])
}

/// Escapes the control characters `\n`, `\r`, `\t`, BEL, BS, VT and FF in `s`
/// as a double backslash followed by the letter `n`, `r`, `t`, `a`, `b`, `v`
/// or `f`; every other character is copied unchanged.
pub fn escape_meta_characters(s: &str) -> (res: String)
    ensures
        res@ == escaped(s@),
{
    let mut out = String::new();
    proof {
        vstd::string::axiom_spec_iter(s);
    }
    assert(s@.take(0) =~= Seq::<char>::empty());
    for c in iter: s.chars()
        invariant
            iter.seq() == s@,
            out@ == escaped(s@.take(iter.index() as int)),
    {
        if c == '\n' || c == '\r' || c == '\t' || c == '\x07' || c == '\x08' || c == '\x0b'
            || c == '\x0c' {
            let letter = if c == '\n' {
                'n'
            } else if c == '\r' {
                'r'
            } else if c == '\t' {
                't'
            } else if c == '\x07' {
                'a'
            } else if c == '\x08' {
                'b'
            } else if c == '\x0b' {
                'v'
            } else {
                'f'
            };
            push_char(&mut out, '\\');
            push_char(&mut out, '\\');
            push_char(&mut out, letter);
        } else {
            push_char(&mut out, c);
        }
        assert(s@.take(iter.index() + 1).drop_last() =~= s@.take(iter.index() as int));
    }
    assert(s@.take(s@.len() as int) =~= s@);
    out
}

/// The first `k` characters of `s`, or all of `s` when it is shorter.
pub open spec fn char_prefix(s: Seq<char>, k: int) -> Seq<char> {
    if k < s.len() {
        s.take(k)
    } else {
        s
    }
}

/// The number of bytes of the UTF-8 encoding of `s`.
pub open spec fn utf8_len(s: Seq<char>) -> nat {
    encode_utf8(s).len()
}

/// The truncated form of `s` for a limit of `n` bytes: unchanged when `n` is 0
/// or the encoding of `s` takes at most `n` bytes; otherwise its first `n`
/// characters when `n < 4`, and else its first `n - 3` characters followed by
/// `"..."`.
pub open spec fn truncated(s: Seq<char>, n: nat) -> Seq<char> {
    if n == 0 || utf8_len(s) <= n {
        s
    } else if n < 4 {
        char_prefix(s, n as int)
    } else {
        char_prefix(s, n - 3) + seq!['.', '.', '.']
    }
}

/// Shortens `s` when its UTF-8 encoding is longer than `n` bytes (a limit of 0
/// means no limit); see [`truncated`].
pub fn truncate_string(s: &str, n: usize) -> (res: String)
    ensures
        res@ == truncated(s@, n as nat),
{
    let byte_len = s.as_bytes().len();
    if n == 0 || byte_len <= n {
        s.to_owned()
    } else {
        let count = s.unicode_len();
        if n < 4 {
            let k = if n < count {
                n
            } else {
                count
            };
            let out = s.substring_char(0, k).to_owned();
            assert(s@.subrange(0, k as int) == char_prefix(s@, n as int));
            out
        } else {
            let k = if n - 3 < count {
                n - 3
            } else {
                count
            };
            let mut out = s.substring_char(0, k).to_owned();
            let dots = "...";
            proof {
                reveal_strlit("...");
            }
            push_str(&mut out, dots);
            assert(s@.subrange(0, k as int) == char_prefix(s@, n - 3));
            out
        }
    }
}

/// Escaping leaves a sequence without control characters unchanged.
pub proof fn lemma_escaped_plain(s: Seq<char>)
    requires
        !has_meta_char(s),
    ensures
        escaped(s) == s,
    decreases s.len(),
{
    if s.len() > 0 {
        assert(!is_meta_char(s[s.len() - 1]));
        assert forall|i: int| 0 <= i < s.drop_last().len() implies !is_meta_char(
            #[trigger] s.drop_last()[i],
        ) by {
            assert(s.drop_last()[i] == s[i]);
        }
        lemma_escaped_plain(s.drop_last());
        assert(s.drop_last() + seq![s.last()] =~= s);
    }
}

/// The escaped form of any sequence holds no control character.
pub proof fn lemma_escaped_has_no_meta(s: Seq<char>)
    ensures
        !has_meta_char(escaped(s)),
    decreases s.len(),
{
    if s.len() > 0 {
        lemma_escaped_has_no_meta(s.drop_last());
        let prev = escaped(s.drop_last());
        let tail = escape_char(s.last());
        assert forall|i: int| 0 <= i < (prev + tail).len() implies !is_meta_char(
            #[trigger] (prev + tail)[i],
        ) by {
            if i < prev.len() {
                assert((prev + tail)[i] == prev[i]);
            } else {
                assert((prev + tail)[i] == tail[i - prev.len()]);
            }
        }
    }
}

/// Law: escaping is idempotent, since its output holds no control character.
pub proof fn law_escape_idempotent(s: Seq<char>)
    ensures
        escaped(escaped(s)) == escaped(s),
        !has_meta_char(escaped(s)),
{
    lemma_escaped_has_no_meta(s);
    lemma_escaped_plain(escaped(s));
}

/// Escaping keeps a sequence exactly when it holds no control character.
pub proof fn law_escape_identity_iff_plain(s: Seq<char>)
    ensures
        escaped(s) == s <==> !has_meta_char(s),
{
    if !has_meta_char(s) {
        lemma_escaped_plain(s);
    } else {
        lemma_escaped_has_no_meta(s);
    }
}

/// Every character takes at least one byte in UTF-8.
pub proof fn lemma_chars_le_utf8_len(s: Seq<char>)
    ensures
        s.len() <= utf8_len(s),
    decreases s.len(),
{
    if s.len() > 0 {
        lemma_chars_le_utf8_len(s.drop_first());
        assert(encode_utf8(s) == vstd::utf8::encode_scalar(s[0] as u32) + encode_utf8(
            s.drop_first(),
        ));
    }
}

/// Law: with a positive limit `n`, the truncated text has at most `n`
/// characters, and it is a prefix of the input, followed by `"..."` exactly
/// when the input was cut with a limit of 4 or more.
pub proof fn law_truncate_bounded(s: Seq<char>, n: nat)
    requires
        n > 0,
    ensures
        truncated(s, n).len() <= n,
        utf8_len(s) <= n ==> truncated(s, n) == s,
        utf8_len(s) > n && n < 4 ==> truncated(s, n).is_prefix_of(s),
        utf8_len(s) > n && n >= 4 ==> truncated(s, n) == char_prefix(s, n - 3) + seq![
            '.',
            '.',
            '.',
        ] && char_prefix(s, n - 3).is_prefix_of(s),
{
    lemma_chars_le_utf8_len(s);
    if utf8_len(s) > n {
        if n < 4 {
            assert(char_prefix(s, n as int).is_prefix_of(s));
        } else {
            assert(char_prefix(s, n - 3).is_prefix_of(s));
        }
    }
}

/// Law: a limit of 0 leaves the text unchanged.
pub proof fn law_truncate_zero_limit(s: Seq<char>)
    ensures
        truncated(s, 0) == s,
{
}

} // verus!
