//! Decimal and hexadecimal text of small unsigned integers, written the way
//! Rust's `Display` (`{}`) and `LowerHex` (`{:x}`) formats write them: no
//! leading zeros, lower-case hexadecimal digits.

use vstd::prelude::*;

verus! {

/// The digit character for a value below sixteen (`'0'..='9'`, then `'a'..='f'`).
pub open spec fn digit_char(d: int) -> char {
    seq!['0', '1', '2', '3', '4', '5', '6', '7', '8', '9', 'a', 'b', 'c', 'd', 'e', 'f'][d]
}

/// Decimal text of `n`, most significant digit first, without leading zeros.
pub open spec fn decimal_text(n: nat) -> Seq<char>
    decreases n,
{
    if n < 10 {
        seq![digit_char(n as int)]
    } else {
        decimal_text(n / 10).push(digit_char((n % 10) as int))
    }
}

/// Lower-case hexadecimal text of `n`, most significant digit first, without leading zeros.
pub open spec fn hex_text(n: nat) -> Seq<char>
    decreases n,
{
    if n < 16 {
        seq![digit_char(n as int)]
    } else {
        hex_text(n / 16).push(digit_char((n % 16) as int))
    }
}

/// Appends the digit character of `d` to `out`.
pub fn push_digit(out: &mut String, d: u16)
    requires
        d < 16,
    ensures
        final(out)@ == old(out)@.push(digit_char(d as int)),
{
    let s: &str = if d == 0 {
        "0"
    } else if d == 1 {
        "1"
    } else if d == 2 {
        "2"
    } else if d == 3 {
        "3"
    } else if d == 4 {
        "4"
    } else if d == 5 {
        "5"
    } else if d == 6 {
        "6"
    } else if d == 7 {
        "7"
    } else if d == 8 {
        "8"
    } else if d == 9 {
        "9"
    } else if d == 10 {
        "a"
    } else if d == 11 {
        "b"
    } else if d == 12 {
        "c"
    } else if d == 13 {
        "d"
    } else if d == 14 {
        "e"
    } else {
        "f"
    };
    proof {
        reveal_strlit("0");
        reveal_strlit("1");
        reveal_strlit("2");
        reveal_strlit("3");
        reveal_strlit("4");
        reveal_strlit("5");
        reveal_strlit("6");
        reveal_strlit("7");
        reveal_strlit("8");
        reveal_strlit("9");
        reveal_strlit("a");
        reveal_strlit("b");
        reveal_strlit("c");
        reveal_strlit("d");
        reveal_strlit("e");
        reveal_strlit("f");
        assert(s@ =~= seq![digit_char(d as int)]);
    }
    out.append(s);
}

/// Appends the decimal text of `n` to `out`.
pub fn push_decimal_u8(out: &mut String, n: u8)
    ensures
        final(out)@ == old(out)@ + decimal_text(n as nat),
{
    proof {
        reveal_with_fuel(decimal_text, 3);
    }
    if n >= 100 {
        push_digit(out, (n / 100) as u16);
    }
    if n >= 10 {
        push_digit(out, ((n / 10) % 10) as u16);
    }
    push_digit(out, (n % 10) as u16);
    proof {
        let nn = n as nat;
        if nn >= 100 {
            assert(decimal_text(nn / 100) == seq![digit_char((nn / 100) as int)]);
            assert(decimal_text(nn / 10) == decimal_text(nn / 100).push(
                digit_char(((nn / 10) % 10) as int),
            ));
        } else if nn >= 10 {
            assert(decimal_text(nn / 10) == seq![digit_char((nn / 10) as int)]);
        }
    }
}

/// Appends the lower-case hexadecimal text of `n` to `out`.
pub fn push_hex_u16(out: &mut String, n: u16)
    ensures
        final(out)@ == old(out)@ + hex_text(n as nat),
{
    proof {
        reveal_with_fuel(hex_text, 4);
    }
    if n >= 0x1000 {
        push_digit(out, n / 0x1000);
    }
    if n >= 0x100 {
        push_digit(out, (n / 0x100) % 16);
    }
    if n >= 0x10 {
        push_digit(out, (n / 0x10) % 16);
    }
    push_digit(out, n % 16);
    proof {
        let nn = n as nat;
        if nn >= 0x1000 {
            assert(hex_text(nn / 0x1000) == seq![digit_char((nn / 0x1000) as int)]);
            assert(nn / 0x100 / 16 == nn / 0x1000);
            assert(hex_text(nn / 0x100) == hex_text(nn / 0x1000).push(
                digit_char(((nn / 0x100) % 16) as int),
            ));
            assert(nn / 0x10 / 16 == nn / 0x100);
            assert(hex_text(nn / 0x10) == hex_text(nn / 0x100).push(
                digit_char(((nn / 0x10) % 16) as int),
            ));
        } else if nn >= 0x100 {
            assert(hex_text(nn / 0x100) == seq![digit_char((nn / 0x100) as int)]);
            assert(nn / 0x10 / 16 == nn / 0x100);
            assert(hex_text(nn / 0x10) == hex_text(nn / 0x100).push(
                digit_char(((nn / 0x10) % 16) as int),
            ));
        } else if nn >= 0x10 {
            assert(hex_text(nn / 0x10) == seq![digit_char((nn / 0x10) as int)]);
        }
    }
}

/// The value of a digit character, or -1 for a character that is no digit.
pub open spec fn digit_value(c: char) -> int {
    if '0' <= c && c <= '9' {
        c as int - '0' as int
    } else if 'a' <= c && c <= 'f' {
        c as int - 'a' as int + 10
    } else {
        -1
    }
}

/// The number a text of digits denotes in base `base`, most significant digit first.
pub open spec fn numeral_value(t: Seq<char>, base: int) -> int
    decreases t.len(),
{
    if t.len() == 0 {
        0
    } else {
        base * numeral_value(t.drop_last(), base) + digit_value(t.last())
    }
}

/// Every character of the text is a digit of base `base`.
pub open spec fn all_digits_below(t: Seq<char>, base: int) -> bool {
    forall|i: int| 0 <= i < t.len() ==> 0 <= #[trigger] digit_value(t[i]) < base
}

/// The digit character of `d` has value `d`.
pub proof fn lemma_digit_char_value(d: int)
    requires
        0 <= d < 16,
    ensures
        digit_value(digit_char(d)) == d,
{
    let s = seq!['0', '1', '2', '3', '4', '5', '6', '7', '8', '9', 'a', 'b', 'c', 'd', 'e', 'f'];
    assert(digit_char(d) == s[d]);
    if d == 0 { assert(s[0] == '0'); } else if d == 1 { assert(s[1] == '1'); }
    else if d == 2 { assert(s[2] == '2'); } else if d == 3 { assert(s[3] == '3'); }
    else if d == 4 { assert(s[4] == '4'); } else if d == 5 { assert(s[5] == '5'); }
    else if d == 6 { assert(s[6] == '6'); } else if d == 7 { assert(s[7] == '7'); }
    else if d == 8 { assert(s[8] == '8'); } else if d == 9 { assert(s[9] == '9'); }
    else if d == 10 { assert(s[10] == 'a'); } else if d == 11 { assert(s[11] == 'b'); }
    else if d == 12 { assert(s[12] == 'c'); } else if d == 13 { assert(s[13] == 'd'); }
    else if d == 14 { assert(s[14] == 'e'); } else { assert(s[15] == 'f'); }
}

/// The hexadecimal text of `n` is a numeral for `n`: it is non-empty, every
/// character is a hexadecimal digit, read in base 16 it gives back `n`, and it
/// starts with `0` only when `n` is zero.
pub proof fn lemma_hex_text_is_numeral(n: nat)
    ensures
        hex_text(n).len() >= 1,
        all_digits_below(hex_text(n), 16),
        numeral_value(hex_text(n), 16) == n,
        hex_text(n)[0] == '0' ==> n == 0,
    decreases n,
{
    if n < 16 {
        lemma_digit_char_value(n as int);
        let t = hex_text(n);
        assert(t.drop_last() =~= Seq::<char>::empty());
        assert(numeral_value(t, 16) == 16 * numeral_value(t.drop_last(), 16) + digit_value(t.last()));
        assert(numeral_value(t.drop_last(), 16) == 0);
    } else {
        lemma_hex_text_is_numeral(n / 16);
        lemma_digit_char_value((n % 16) as int);
        let t = hex_text(n);
        assert(t.drop_last() =~= hex_text(n / 16));
        assert(t[0] == hex_text(n / 16)[0]);
        assert(t.last() == digit_char((n % 16) as int));
        assert(numeral_value(t, 16) == 16 * numeral_value(t.drop_last(), 16) + digit_value(t.last()));
        assert(n == 16 * (n / 16) + n % 16);
        assert forall|i: int| 0 <= i < t.len() implies 0 <= #[trigger] digit_value(t[i]) < 16 by {
            if i < t.len() - 1 {
                assert(t[i] == hex_text(n / 16)[i]);
            }
        }
    }
}

/// The decimal text of `n` is a numeral for `n`: it is non-empty, every
/// character is a decimal digit, read in base 10 it gives back `n`, and it
/// starts with `0` only when `n` is zero.
pub proof fn lemma_decimal_text_is_numeral(n: nat)
    ensures
        decimal_text(n).len() >= 1,
        all_digits_below(decimal_text(n), 10),
        numeral_value(decimal_text(n), 10) == n,
        decimal_text(n)[0] == '0' ==> n == 0,
    decreases n,
{
    if n < 10 {
        lemma_digit_char_value(n as int);
        let t = decimal_text(n);
        assert(t.drop_last() =~= Seq::<char>::empty());
        assert(numeral_value(t, 10) == 10 * numeral_value(t.drop_last(), 10) + digit_value(t.last()));
        assert(numeral_value(t.drop_last(), 10) == 0);
    } else {
        lemma_decimal_text_is_numeral(n / 10);
        lemma_digit_char_value((n % 10) as int);
        let t = decimal_text(n);
        assert(t.drop_last() =~= decimal_text(n / 10));
        assert(t[0] == decimal_text(n / 10)[0]);
        assert(t.last() == digit_char((n % 10) as int));
        assert(numeral_value(t, 10) == 10 * numeral_value(t.drop_last(), 10) + digit_value(t.last()));
        assert(n == 10 * (n / 10) + n % 10);
        assert forall|i: int| 0 <= i < t.len() implies 0 <= #[trigger] digit_value(t[i]) < 10 by {
            if i < t.len() - 1 {
                assert(t[i] == decimal_text(n / 10)[i]);
            }
        }
    }
}

} // verus!
