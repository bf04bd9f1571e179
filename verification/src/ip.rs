//! IP addresses as plain octets and segments, and their textual form.
//!
//! The text is the one Rust's standard library writes for `std::net::IpAddr`:
//! dotted decimal for IPv4; for IPv6, `::ffff:` followed by the dotted IPv4
//! text when the address is IPv4-mapped, and otherwise the eight segments in
//! lower-case hexadecimal separated by `:`, with the first of the longest runs
//! of two or more zero segments written as `::`.

use vstd::prelude::*;
use crate::text::{
    decimal_text,
    hex_text,
    push_decimal_u8,
    push_hex_u16,
    digit_value,
    numeral_value,
    all_digits_below,
    lemma_hex_text_is_numeral,
    lemma_decimal_text_is_numeral,
};

verus! {

broadcast use vstd::array::group_array_axioms;

/// An IPv4 address (four octets) or an IPv6 address (eight 16-bit segments),
/// most significant first.
#[derive(Clone, Copy, Debug, PartialEq, Eq, Hash)]
pub enum IpAddress {
    V4([u8; 4]),
    V6([u16; 8]),
}

/// Dotted decimal text of four octets.
pub open spec fn ipv4_text(o: Seq<u8>) -> Seq<char> {
    decimal_text(o[0] as nat) + seq!['.'] + decimal_text(o[1] as nat) + seq!['.']
        + decimal_text(o[2] as nat) + seq!['.'] + decimal_text(o[3] as nat)
}

/// The hexadecimal text of each segment, separated by `:`.
pub open spec fn hex_groups(s: Seq<u16>) -> Seq<char>
    decreases s.len(),
{
    if s.len() == 0 {
        seq![]
    } else if s.len() == 1 {
        hex_text(s[0] as nat)
    } else {
        hex_groups(s.drop_last()) + seq![':'] + hex_text(s.last() as nat)
    }
}

/// Whether eight segments are of the form `::ffff:a.b.c.d`.
pub open spec fn is_ipv4_mapped(s: Seq<u16>) -> bool {
    &&& s[0] == 0
    &&& s[1] == 0
    &&& s[2] == 0
    &&& s[3] == 0
    &&& s[4] == 0
    &&& s[5] == 0xffff
}

/// The four octets that an IPv4-mapped address carries in its last two segments.
pub open spec fn mapped_octets(s: Seq<u16>) -> Seq<u8> {
    seq![(s[6] / 256) as u8, (s[6] % 256) as u8, (s[7] / 256) as u8, (s[7] % 256) as u8]
}

/// Segments `start .. start + len` all exist and are zero.
pub open spec fn is_zero_run(s: Seq<u16>, start: int, len: int) -> bool {
    &&& 0 <= start
    &&& 0 <= len
    &&& start + len <= s.len()
    &&& forall|k: int| start <= k < start + len ==> s[k] == 0
}

/// `start .. start + len` is a longest run of zero segments, and no run of that
/// length starts earlier (so `len == 0` forces `start == 0`).
pub open spec fn is_first_longest_zero_run(s: Seq<u16>, start: int, len: int) -> bool {
    &&& is_zero_run(s, start, len)
    &&& forall|st: int, l: int| #[trigger] is_zero_run(s, st, l) ==> l <= len
    &&& forall|st: int| 0 <= st < start ==> !#[trigger] is_zero_run(s, st, len)
}

/// The first longest run of zero segments, as (start, length).
pub open spec fn longest_zero_run(s: Seq<u16>) -> (int, int) {
    choose|st: int, l: int| is_first_longest_zero_run(s, st, l)
}

/// Text of an IPv6 address given by its eight segments.
pub open spec fn ipv6_text(s: Seq<u16>) -> Seq<char> {
    if is_ipv4_mapped(s) {
        seq![':', ':', 'f', 'f', 'f', 'f', ':'] + ipv4_text(mapped_octets(s))
    } else {
        let run = longest_zero_run(s);
        if run.1 > 1 {
            hex_groups(s.subrange(0, run.0)) + seq![':', ':'] + hex_groups(
                s.subrange(run.0 + run.1, s.len() as int),
            )
        } else {
            hex_groups(s)
        }
    }
}

/// Text of an IP address.
pub open spec fn ip_text(a: IpAddress) -> Seq<char> {
    match a {
        IpAddress::V4(o) => ipv4_text(o@),
        IpAddress::V6(s) => ipv6_text(s@),
    }
}

/// There is only one first longest run of zero segments.
pub proof fn lemma_first_longest_zero_run_unique(s: Seq<u16>, a: int, b: int, c: int, d: int)
    requires
        is_first_longest_zero_run(s, a, b),
        is_first_longest_zero_run(s, c, d),
    ensures
        a == c,
        b == d,
{
    assert(is_zero_run(s, c, d));
    assert(is_zero_run(s, a, b));
    assert(b == d);
    if a < c {
        assert(!is_zero_run(s, a, d));
    }
    if c < a {
        assert(!is_zero_run(s, c, b));
    }
}

/// Every sequence of segments has a first longest run of zero segments, and
/// `longest_zero_run` is it.
pub proof fn lemma_longest_zero_run_is_first_longest(s: Seq<u16>, start: int, len: int)
    requires
        is_first_longest_zero_run(s, start, len),
    ensures
        longest_zero_run(s) == (start, len),
{
    let run = longest_zero_run(s);
    assert(is_first_longest_zero_run(s, run.0, run.1));
    lemma_first_longest_zero_run_unique(s, start, len, run.0, run.1);
}

fn push_literal(out: &mut String, lit: &str)
    ensures
        final(out)@ == old(out)@ + lit@,
{
    out.append(lit);
}

fn push_dot(out: &mut String)
    ensures
        final(out)@ == old(out)@ + seq!['.'],
{
    proof {
        reveal_strlit(".");
        assert("."@ =~= seq!['.']);
    }
    push_literal(out, ".");
}

fn push_colon(out: &mut String)
    ensures
        final(out)@ == old(out)@ + seq![':'],
{
    proof {
        reveal_strlit(":");
        assert(":"@ =~= seq![':']);
    }
    push_literal(out, ":");
}

fn push_ipv4(out: &mut String, o: &[u8; 4])
    ensures
        final(out)@ == old(out)@ + ipv4_text(o@),
{
    let ghost start = out@;
    push_decimal_u8(out, o[0]);
    push_dot(out);
    push_decimal_u8(out, o[1]);
    push_dot(out);
    push_decimal_u8(out, o[2]);
    push_dot(out);
    push_decimal_u8(out, o[3]);
    assert(out@ =~= start + ipv4_text(o@));
}

/// Appends the hexadecimal text of segments `from .. to`, separated by `:`.
fn push_hex_groups(out: &mut String, s: &[u16; 8], from: usize, to: usize)
    requires
        from <= to <= 8,
    ensures
        final(out)@ == old(out)@ + hex_groups(s@.subrange(from as int, to as int)),
{
    let ghost start = out@;
    let mut k: usize = from;
    assert(s@.subrange(from as int, from as int) =~= Seq::<u16>::empty());
    assert(out@ =~= start + hex_groups(s@.subrange(from as int, k as int)));
    while k < to
        invariant
            from <= k <= to <= 8,
            s@.len() == 8,
            out@ == start + hex_groups(s@.subrange(from as int, k as int)),
        decreases to - k,
    {
        let ghost before = out@;
        if k > from {
            push_colon(out);
        }
        push_hex_u16(out, s[k]);
        proof {
            let sub = s@.subrange(from as int, k + 1);
            assert(sub.drop_last() =~= s@.subrange(from as int, k as int));
            assert(sub.last() == s@[k as int]);
            if k == from {
                assert(sub.len() == 1);
                assert(sub[0] == s@[k as int]);
                assert(out@ =~= start + hex_groups(sub));
            } else {
                assert(out@ =~= start + hex_groups(sub));
            }
        }
        k = k + 1;
    }
}

/// Finds the first longest run of zero segments.
fn first_longest_zero_run(s: &[u16; 8]) -> (r: (usize, usize))
    ensures
        is_first_longest_zero_run(s@, r.0 as int, r.1 as int),
{
    let mut best_start: usize = 0;
    let mut best_len: usize = 0;
    let mut cur_start: usize = 0;
    let mut cur_len: usize = 0;
    let mut i: usize = 0;
    while i < 8
        invariant
            s@.len() == 8,
            i <= 8,
            cur_start + cur_len == i,
            forall|k: int| cur_start <= k < i ==> s@[k] == 0,
            cur_start == 0 || s@[cur_start - 1] != 0,
            is_zero_run(s@, best_start as int, best_len as int),
            best_start + best_len <= i,
            forall|st: int, l: int| #[trigger] is_zero_run(s@, st, l) && st + l <= i ==> l <= best_len,
            forall|st: int| 0 <= st < best_start ==> !#[trigger] is_zero_run(s@, st, best_len as int),
        decreases 8 - i,
    {
        let ghost old_best_start = best_start;
        let ghost old_best_len = best_len;
        let ghost old_cur_start = cur_start;
        if s[i] == 0 {
            cur_len = cur_len + 1;
            if cur_len > best_len {
                best_start = cur_start;
                best_len = cur_len;
            }
            proof {
                assert forall|st: int, l: int|
                    #[trigger] is_zero_run(s@, st, l) && st + l <= i + 1 implies l <= best_len by {
                    if st + l == i + 1 && l > 0 && st < old_cur_start {
                        assert(s@[old_cur_start - 1] == 0);
                    }
                    if st + l <= i {
                        assert(l <= old_best_len);
                    }
                }
                if best_len != old_best_len {
                    assert forall|st: int| 0 <= st < best_start implies !#[trigger] is_zero_run(
                        s@,
                        st,
                        best_len as int,
                    ) by {
                        if is_zero_run(s@, st, best_len as int) {
                            assert(st + best_len <= i);
                            assert(best_len <= old_best_len);
                        }
                    }
                }
            }
        } else {
            cur_start = i + 1;
            cur_len = 0;
            proof {
                assert forall|st: int, l: int|
                    #[trigger] is_zero_run(s@, st, l) && st + l <= i + 1 implies l <= best_len by {
                    if st + l == i + 1 && l > 0 {
                        assert(s@[i as int] == 0);
                    }
                }
            }
        }
        i = i + 1;
    }
    (best_start, best_len)
}

fn ipv6_string(s: &[u16; 8]) -> (res: String)
    ensures
        res@ == ipv6_text(s@),
{
    let mut out = String::new();
    if s[0] == 0 && s[1] == 0 && s[2] == 0 && s[3] == 0 && s[4] == 0 && s[5] == 0xffff {
        proof {
            reveal_strlit("::ffff:");
            assert("::ffff:"@ =~= seq![':', ':', 'f', 'f', 'f', 'f', ':']);
        }
        push_literal(&mut out, "::ffff:");
        let o: [u8; 4] = [(s[6] / 256) as u8, (s[6] % 256) as u8, (s[7] / 256) as u8, (s[7] % 256) as u8];
        assert(o@ =~= mapped_octets(s@));
        push_ipv4(&mut out, &o);
        assert(out@ =~= ipv6_text(s@));
    } else {
        let (start, len) = first_longest_zero_run(s);
        proof {
            lemma_longest_zero_run_is_first_longest(s@, start as int, len as int);
        }
        if len > 1 {
            push_hex_groups(&mut out, s, 0, start);
            push_colon(&mut out);
            push_colon(&mut out);
            push_hex_groups(&mut out, s, start + len, 8);
            assert(out@ =~= ipv6_text(s@));
        } else {
            push_hex_groups(&mut out, s, 0, 8);
            assert(s@.subrange(0, 8) =~= s@);
            assert(out@ =~= ipv6_text(s@));
        }
    }
    out
}

impl IpAddress {
    /// The unspecified IPv4 address `0.0.0.0`.
    pub open spec fn spec_unspecified_v4() -> IpAddress {
        IpAddress::V4([0u8, 0u8, 0u8, 0u8])
    }

    /// The textual form of the address, as `std::net::IpAddr` displays it.
    pub fn to_string(&self) -> (res: String)
        ensures
            res@ == ip_text(*self),
    {
        match self {
            IpAddress::V4(o) => {
                let mut out = String::new();
                push_ipv4(&mut out, o);
                assert(out@ =~= ipv4_text(o@));
                out
            },
            IpAddress::V6(s) => ipv6_string(s),
        }
    }
}

/// Segments as integers.
pub open spec fn seg_values(s: Seq<u16>) -> Seq<int> {
    s.map_values(|x: u16| x as int)
}

/// Octets as integers.
pub open spec fn octet_values(o: Seq<u8>) -> Seq<int> {
    o.map_values(|x: u8| x as int)
}

/// The pieces of a text between occurrences of `sep` (one more piece than there
/// are separators; pieces may be empty).
pub open spec fn split_at_char(t: Seq<char>, sep: char) -> Seq<Seq<char>>
    decreases t.len(),
{
    if t.len() == 0 {
        seq![Seq::<char>::empty()]
    } else if t.last() == sep {
        split_at_char(t.drop_last(), sep).push(Seq::<char>::empty())
    } else {
        let p = split_at_char(t.drop_last(), sep);
        p.update(p.len() - 1, p[p.len() - 1].push(t.last()))
    }
}

/// The text does not hold `sep`.
pub open spec fn free_of(t: Seq<char>, sep: char) -> bool {
    forall|i: int| 0 <= i < t.len() ==> t[i] != sep
}

/// The text is the numerals of `values` in base `base`, separated by `sep`: each
/// piece is a non-empty run of digits that reads back as the value at its place.
/// No values means no text.
pub open spec fn reads_back(t: Seq<char>, sep: char, base: int, values: Seq<int>) -> bool {
    if values.len() == 0 {
        t.len() == 0
    } else {
        let pieces = split_at_char(t, sep);
        &&& pieces.len() == values.len()
        &&& forall|i: int|
            0 <= i < values.len() ==> {
                &&& (#[trigger] pieces[i]).len() > 0
                &&& all_digits_below(pieces[i], base)
                &&& numeral_value(pieces[i], base) == values[i]
            }
    }
}

proof fn lemma_split_len(t: Seq<char>, sep: char)
    ensures
        split_at_char(t, sep).len() >= 1,
    decreases t.len(),
{
    if t.len() > 0 {
        lemma_split_len(t.drop_last(), sep);
    }
}

/// A text free of the separator is one piece.
proof fn lemma_split_free(b: Seq<char>, sep: char)
    requires
        free_of(b, sep),
    ensures
        split_at_char(b, sep) =~= seq![b],
    decreases b.len(),
{
    if b.len() > 0 {
        assert(free_of(b.drop_last(), sep));
        lemma_split_free(b.drop_last(), sep);
        assert(b[b.len() - 1] != sep);
        let p = split_at_char(b.drop_last(), sep);
        assert(p =~= seq![b.drop_last()]);
        assert(split_at_char(b, sep) == p.update(p.len() - 1, p[p.len() - 1].push(b.last())));
        assert(b.drop_last().push(b.last()) =~= b);
    } else {
        assert(b =~= Seq::<char>::empty());
    }
}

/// Appending a separator and a separator-free text appends one piece.
proof fn lemma_split_append(a: Seq<char>, b: Seq<char>, sep: char)
    requires
        free_of(b, sep),
    ensures
        split_at_char(a + seq![sep] + b, sep) =~= split_at_char(a, sep).push(b),
    decreases b.len(),
{
    let t = a + seq![sep] + b;
    if b.len() == 0 {
        assert(t.drop_last() =~= a);
        assert(t.last() == sep);
        assert(split_at_char(t, sep) == split_at_char(a, sep).push(Seq::<char>::empty()));
        assert(b =~= Seq::<char>::empty());
    } else {
        assert(t.drop_last() =~= a + seq![sep] + b.drop_last());
        assert(free_of(b.drop_last(), sep));
        lemma_split_append(a, b.drop_last(), sep);
        lemma_split_len(a, sep);
        assert(b[b.len() - 1] != sep);
        assert(t.last() == b.last());
        let p = split_at_char(t.drop_last(), sep);
        assert(p =~= split_at_char(a, sep).push(b.drop_last()));
        assert(split_at_char(t, sep) == p.update(p.len() - 1, p[p.len() - 1].push(t.last())));
        assert(b.drop_last().push(b.last()) =~= b);
    }
}

proof fn lemma_digits_free_of(t: Seq<char>, base: int, sep: char)
    requires
        all_digits_below(t, base),
        digit_value(sep) == -1,
    ensures
        free_of(t, sep),
{
    assert forall|i: int| 0 <= i < t.len() implies t[i] != sep by {
        assert(0 <= digit_value(t[i]));
    }
}

/// The hexadecimal groups of segments read back, split at `:`, as the segments.
pub proof fn lemma_hex_groups_read_back(s: Seq<u16>)
    ensures
        reads_back(hex_groups(s), ':', 16, seg_values(s)),
    decreases s.len(),
{
    let vals = seg_values(s);
    if s.len() == 0 {
    } else if s.len() == 1 {
        lemma_hex_text_is_numeral(s[0] as nat);
        assert(digit_value(':') == -1);
        lemma_digits_free_of(hex_text(s[0] as nat), 16, ':');
        lemma_split_free(hex_text(s[0] as nat), ':');
    } else {
        lemma_hex_groups_read_back(s.drop_last());
        lemma_hex_text_is_numeral(s.last() as nat);
        assert(digit_value(':') == -1);
        let last = hex_text(s.last() as nat);
        lemma_digits_free_of(last, 16, ':');
        lemma_split_append(hex_groups(s.drop_last()), last, ':');
        let prev = split_at_char(hex_groups(s.drop_last()), ':');
        let pieces = split_at_char(hex_groups(s), ':');
        assert(pieces =~= prev.push(last));
        let pvals = seg_values(s.drop_last());
        assert forall|i: int| 0 <= i < vals.len() implies {
            &&& (#[trigger] pieces[i]).len() > 0
            &&& all_digits_below(pieces[i], 16)
            &&& numeral_value(pieces[i], 16) == vals[i]
        } by {
            if i < vals.len() - 1 {
                assert(pieces[i] == prev[i]);
                assert(pvals[i] == vals[i]);
                assert(prev[i].len() > 0 && all_digits_below(prev[i], 16) && numeral_value(prev[i], 16) == pvals[i]);
            } else {
                assert(pieces[i] == last);
            }
        }
    }
}

/// Dotted decimal text reads back, split at `.`, as the four octets.
pub proof fn lemma_ipv4_text_reads_back(o: Seq<u8>)
    requires
        o.len() == 4,
    ensures
        reads_back(ipv4_text(o), '.', 10, octet_values(o)),
{
    let d0 = decimal_text(o[0] as nat);
    let d1 = decimal_text(o[1] as nat);
    let d2 = decimal_text(o[2] as nat);
    let d3 = decimal_text(o[3] as nat);
    lemma_decimal_text_is_numeral(o[0] as nat);
    lemma_decimal_text_is_numeral(o[1] as nat);
    lemma_decimal_text_is_numeral(o[2] as nat);
    lemma_decimal_text_is_numeral(o[3] as nat);
    assert(digit_value('.') == -1);
    lemma_digits_free_of(d0, 10, '.');
    lemma_digits_free_of(d1, 10, '.');
    lemma_digits_free_of(d2, 10, '.');
    lemma_digits_free_of(d3, 10, '.');
    lemma_split_free(d0, '.');
    lemma_split_append(d0, d1, '.');
    lemma_split_append(d0 + seq!['.'] + d1, d2, '.');
    lemma_split_append(d0 + seq!['.'] + d1 + seq!['.'] + d2, d3, '.');
    let pieces = split_at_char(ipv4_text(o), '.');
    assert(pieces =~= seq![d0, d1, d2, d3]);
    let vals = octet_values(o);
    assert forall|i: int| 0 <= i < vals.len() implies {
        &&& (#[trigger] pieces[i]).len() > 0
        &&& all_digits_below(pieces[i], 10)
        &&& numeral_value(pieces[i], 10) == vals[i]
    } by {
        if i == 0 {
        } else if i == 1 {
        } else if i == 2 {
        } else {
        }
    }
}

/// IPv6 text reads back as the address. An IPv4-mapped address is `::ffff:`
/// followed by dotted decimal octets whose pairs make the last two segments.
/// Otherwise, where the first longest run of zero segments has at most one
/// segment, the text is the eight segments in hexadecimal between `:`; where it
/// is longer, the text is the segments before the run, then `::`, then the
/// segments after it, each part in hexadecimal between `:`.
pub proof fn lemma_ipv6_text_reads_back(s: Seq<u16>, start: int, len: int)
    requires
        s.len() == 8,
        is_first_longest_zero_run(s, start, len),
    ensures
        is_ipv4_mapped(s) ==> exists|rest: Seq<char>| {
            &&& ipv6_text(s) == seq![':', ':', 'f', 'f', 'f', 'f', ':'] + rest
            &&& exists|o: Seq<int>| {
                &&& #[trigger] reads_back(rest, '.', 10, o)
                &&& o.len() == 4
                &&& 256 * o[0] + o[1] == s[6]
                &&& 256 * o[2] + o[3] == s[7]
            }
        },
        !is_ipv4_mapped(s) && len <= 1 ==> reads_back(
            ipv6_text(s),
            ':',
            16,
            seg_values(s),
        ),
        !is_ipv4_mapped(s) && len > 1 ==> exists|before: Seq<char>, after: Seq<char>| {
            &&& ipv6_text(s) == before + seq![':', ':'] + after
            &&& #[trigger] reads_back(
                before,
                ':',
                16,
                seg_values(s.subrange(0, start)),
            )
            &&& #[trigger] reads_back(
                after,
                ':',
                16,
                seg_values(s.subrange(start + len, 8)),
            )
        },
{
    lemma_longest_zero_run_is_first_longest(s, start, len);
    if is_ipv4_mapped(s) {
        let o = mapped_octets(s);
        lemma_ipv4_text_reads_back(o);
        let ov = octet_values(o);
        assert(256 * ov[0] + ov[1] == s[6]);
        assert(256 * ov[2] + ov[3] == s[7]);
        assert(reads_back(ipv4_text(o), '.', 10, ov));
        let rest = ipv4_text(o);
        assert(ipv6_text(s) == seq![':', ':', 'f', 'f', 'f', 'f', ':'] + rest);
    } else if len <= 1 {
        lemma_hex_groups_read_back(s);
    } else {
        lemma_hex_groups_read_back(s.subrange(0, start));
        lemma_hex_groups_read_back(s.subrange(start + len, 8));
        let before = hex_groups(s.subrange(0, start));
        let after = hex_groups(s.subrange(start + len, 8));
        assert(ipv6_text(s) == before + seq![':', ':'] + after);
    }
}

} // verus!
