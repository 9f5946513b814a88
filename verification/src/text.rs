//! Character-sequence helpers shared by the renderers: joining, decimal
//! numerals and padding.
use vstd::prelude::*;

verus! {

/// Appends one character to a `String`.
///
/// Calls `String::push`, which std documents as appending the given `char`
/// to the end of the string.
#[verifier::external_body]
pub(crate) fn push_char(s: &mut String, c: char)
    ensures
        final(s)@ == old(s)@.push(c),
{
    s.push(c);
}

/// Appends a string slice to a `String`.
pub(crate) fn push_str(s: &mut String, t: &str)
    ensures
        final(s)@ == old(s)@ + t@,
{
    s.append(t);
}

/// The pieces of `list` with `sep` between each two neighbours.
pub open spec fn seq_join(list: Seq<Seq<char>>, sep: Seq<char>) -> Seq<char>
    decreases list.len(),
{
    if list.len() == 0 {
        Seq::empty()
    } else if list.len() == 1 {
        list[0]
    } else {
        seq_join(list.drop_last(), sep) + sep + list.last()
    }
}

/// Joins `list` with `sep`, as `[String]::join` does.
pub fn join_strings(list: &Vec<String>, sep: &str) -> (res: String)
    ensures
        res@ == seq_join(list.deep_view(), sep@),
{
    let mut res = String::new();
    let ghost pieces = list.deep_view();
    assert(pieces.take(0) =~= Seq::<Seq<char>>::empty());
    let mut i: usize = 0;
    while i < list.len()
        invariant
            0 <= i <= list.len(),
            pieces == list.deep_view(),
            pieces.len() == list.len(),
            res@ == seq_join(pieces.take(i as int), sep@),
        decreases list.len() - i,
    {
        assert(pieces[i as int] == list[i as int]@);
        if i != 0 {
            push_str(&mut res, sep);
        }
        push_str(&mut res, list[i].as_str());
        assert(pieces.take(i + 1).drop_last() =~= pieces.take(i as int));
        i = i + 1;
    }
    assert(pieces.take(list.len() as int) =~= pieces);
    res
}

/// The character of a decimal digit.
pub open spec fn digit_char(d: nat) -> char {
    (48 + d) as char
}

/// The decimal numeral of `n`, without leading zeros.
pub open spec fn decimal(n: nat) -> Seq<char>
    decreases n,
{
    if n < 10 {
        seq![digit_char(n)]
    } else {
        decimal(n / 10).push(digit_char(n % 10))
    }
}

/// Appends the decimal numeral of `n` and returns how many characters that
/// numeral has.
pub(crate) fn push_decimal(s: &mut String, n: usize) -> (count: usize)
    ensures
        final(s)@ == old(s)@ + decimal(n as nat),
        count == decimal(n as nat).len(),
        1 <= count <= 20,
    decreases n,
{
    let mut count: usize = 0;
    if n >= 10 {
        count = push_decimal(s, n / 10);
    }
    let d = (n % 10) as u8;
    let c = (48u8 + d) as char;
    push_char(s, c);
    assert(decimal(n as nat) == if n < 10 {
        seq![digit_char(n as nat)]
    } else {
        decimal((n / 10) as nat).push(digit_char((n % 10) as nat))
    });
    proof {
        reveal_with_fuel(pow10, 21);
        assert(pow10(20) == 100_000_000_000_000_000_000nat);
        lemma_decimal_len(n as nat, 20);
    }
    count + 1
}

/// Ten to the power `k`.
pub open spec fn pow10(k: nat) -> nat
    decreases k,
{
    if k == 0 {
        1
    } else {
        10 * pow10((k - 1) as nat)
    }
}

/// A number below `10^k` has a decimal numeral of at most `k` digits.
proof fn lemma_decimal_len(n: nat, k: nat)
    requires
        1 <= k,
        n < pow10(k),
    ensures
        1 <= decimal(n).len() <= k,
    decreases n,
{
    if n >= 10 {
        assert(k >= 2) by {
            if k == 1 {
                assert(pow10(1) == 10 * pow10(0));
            }
        }
        let k1 = (k - 1) as nat;
        assert(pow10(k) == 10 * pow10(k1));
        assert(n / 10 < pow10(k1)) by (nonlinear_arith)
            requires
                n < 10 * pow10(k1),
        ;
        lemma_decimal_len(n / 10, k1);
    }
}

/// `s` followed by copies of `c` up to a total of `width` characters; `s`
/// itself when it already has `width` characters or more.
pub open spec fn pad_right(s: Seq<char>, c: char, width: nat) -> Seq<char> {
    if s.len() >= width {
        s
    } else {
        s + Seq::new((width - s.len()) as nat, |_i: int| c)
    }
}

/// Appends `count` copies of `c`.
pub(crate) fn push_repeated(s: &mut String, c: char, count: usize)
    ensures
        final(s)@ == old(s)@ + Seq::new(count as nat, |_i: int| c),
{
    let mut i: usize = 0;
    while i < count
        invariant
            0 <= i <= count,
            s@ == old(s)@ + Seq::new(i as nat, |_i: int| c),
        decreases count - i,
    {
        push_char(s, c);
        assert(s@ =~= old(s)@ + Seq::new((i + 1) as nat, |_i: int| c));
        i = i + 1;
    }
}

} // verus!
