use vstd::prelude::*;

verus! {

/// The lower-case hexadecimal digit for `d`, which must be below 16.
pub open spec fn hex_digit(d: nat) -> char {
    if d < 10 {
        ((48 + d) as u8) as char
    } else {
        ((87 + d) as u8) as char
    }
}

/// The lower-case hexadecimal representation of `n`, without a prefix and
/// without leading zeros (zero is written `0`).
pub open spec fn lower_hex(n: nat) -> Seq<char>
    decreases n,
{
    if n < 16 {
        seq![hex_digit(n)]
    } else {
        lower_hex(n / 16).push(hex_digit(n % 16))
    }
}

/// The value of a lower-case hexadecimal digit character: `'0'..='9'` are
/// 0 to 9, `'a'..='f'` are 10 to 15; any other character has no value (-1).
pub open spec fn hex_char_value(c: char) -> int {
    if '0' <= c && c <= '9' {
        c as int - '0' as int
    } else if 'a' <= c && c <= 'f' {
        c as int - 'a' as int + 10
    } else {
        -1
    }
}

/// The number a string of hexadecimal digits denotes, most significant
/// digit first.
pub open spec fn hex_numeral_value(s: Seq<char>) -> int
    decreases s.len(),
{
    if s.len() == 0 {
        0
    } else {
        hex_numeral_value(s.drop_last()) * 16 + hex_char_value(s.last())
    }
}

/// `s` is the base-16 numeral of `n`: a non-empty string of lower-case
/// hexadecimal digits that denotes `n`, with no leading zero unless `n` is 0.
pub open spec fn is_hex_numeral_of(s: Seq<char>, n: nat) -> bool {
    &&& s.len() > 0
    &&& forall|i: int| 0 <= i < s.len() ==> 0 <= #[trigger] hex_char_value(s[i]) < 16
    &&& hex_numeral_value(s) == n
    &&& (s[0] == '0' ==> s.len() == 1)
}

/// The hexadecimal digits, in order of value.
pub open spec fn hex_digits() -> Seq<char> {
    seq!['0', '1', '2', '3', '4', '5', '6', '7', '8', '9', 'a', 'b', 'c', 'd', 'e', 'f']
}

/// Each digit below 16 is written with the matching character of
/// `0123456789abcdef`, and that character reads back as the digit.
pub proof fn lemma_hex_digit_table(d: nat)
    requires
        d < 16,
    ensures
        hex_digit(d) == hex_digits()[d as int],
        hex_char_value(hex_digit(d)) == d,
{
    assert(hex_digits()[0] == '0' && hex_digits()[1] == '1' && hex_digits()[2] == '2' && hex_digits()[3] == '3');
    assert(hex_digits()[4] == '4' && hex_digits()[5] == '5' && hex_digits()[6] == '6' && hex_digits()[7] == '7');
    assert(hex_digits()[8] == '8' && hex_digits()[9] == '9' && hex_digits()[10] == 'a' && hex_digits()[11] == 'b');
    assert(hex_digits()[12] == 'c' && hex_digits()[13] == 'd' && hex_digits()[14] == 'e' && hex_digits()[15] == 'f');
}

/// `lower_hex(n)` is the base-16 numeral of `n`, for every `n`.
pub proof fn lemma_lower_hex_numeral(n: nat)
    ensures
        is_hex_numeral_of(lower_hex(n), n),
    decreases n,
{
    let s = lower_hex(n);
    if n < 16 {
        lemma_hex_digit_table(n);
        assert(s.drop_last() =~= Seq::<char>::empty());
        assert(hex_numeral_value(Seq::<char>::empty()) == 0);
        assert(hex_numeral_value(s) == n);
        if s[0] == '0' {
            assert(s.len() == 1);
        }
    } else {
        let q = n / 16;
        let r = n % 16;
        lemma_lower_hex_numeral(q);
        lemma_hex_digit_table(r);
        let p = lower_hex(q);
        assert(s.drop_last() =~= p);
        assert(s.last() == hex_digit(r));
        assert(hex_numeral_value(s) == q * 16 + r);
        vstd::arithmetic::div_mod::lemma_fundamental_div_mod(n as int, 16);
        assert forall|i: int| 0 <= i < s.len() implies 0 <= #[trigger] hex_char_value(s[i]) < 16 by {
            if i < p.len() {
                assert(s[i] == p[i]);
            }
        }
        assert(s[0] == p[0]);
        if p[0] == '0' {
            assert(p.len() == 1);
            assert(p.drop_last() =~= Seq::<char>::empty());
            assert(hex_numeral_value(Seq::<char>::empty()) == 0);
            lemma_hex_digit_table(0);
            assert(hex_char_value(p[0]) == 0);
            assert(hex_numeral_value(p) == 0);
            assert(false);
        }
    }
}

/// `t` is two base-16 numerals, of `first` and then of `second`, joined by
/// a colon.
pub open spec fn reads_as_hex_pair(t: Seq<char>, first: nat, second: nat) -> bool {
    exists|k: int|
        0 <= k < t.len() && #[trigger] t[k] == ':' && is_hex_numeral_of(t.subrange(0, k), first)
            && is_hex_numeral_of(t.subrange(k + 1, t.len() as int), second)
}

/// Joining the numerals of two numbers with a colon reads back as those two
/// numbers.
pub proof fn lemma_hex_pair_reads_back(first: nat, second: nat)
    ensures
        reads_as_hex_pair(lower_hex(first) + seq![':'] + lower_hex(second), first, second),
{
    let a = lower_hex(first);
    let b = lower_hex(second);
    let t = a + seq![':'] + b;
    lemma_lower_hex_numeral(first);
    lemma_lower_hex_numeral(second);
    let k = a.len() as int;
    assert(t.subrange(0, k) =~= a);
    assert(t.subrange(k + 1, t.len() as int) =~= b);
    assert(t[k] == ':');
}

/// Appends one character to a string; wraps `String::push`.
#[verifier::external_body]
pub(crate) fn push_char(s: &mut String, c: char)
    ensures
        final(s)@ == old(s)@.push(c),
{
    s.push(c);
}

/// The character of a hexadecimal digit.
fn hex_digit_char(d: u8) -> (c: char)
    requires
        d < 16,
    ensures
        c == hex_digit(d as nat),
{
    if d < 10 {
        (48 + d) as char
    } else {
        (87 + d) as char
    }
}

/// Appends the lower-case hexadecimal representation of `n` to `out`.
pub fn push_lower_hex(out: &mut String, n: u16)
    ensures
        final(out)@ == old(out)@ + lower_hex(n as nat),
    decreases n,
{
    if n >= 16 {
        push_lower_hex(out, n / 16);
    }
    let ghost mid = out@;
    push_char(out, hex_digit_char((n % 16) as u8));
    assert(old(out)@ + lower_hex(n as nat) =~= mid.push(hex_digit((n % 16) as nat)));
}

} // verus!
