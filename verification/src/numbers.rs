//! Reading and writing numbers and IPv4 addresses as text, with the grammar
//! that Rust's `from_str` / `from_str_radix` / `Display` use for them.
use vstd::prelude::*;
use crate::text::{chars_of, copy_chars, copy_range, join, lemma_split_join, split, split_chars, string_of, views, CharClass};

verus! {

/// The value of `c` as a digit in base `radix` (as `char::to_digit` gives it,
/// for base 10 and base 16).
pub open spec fn digit_of(c: char, radix: nat) -> Option<nat> {
    if '0' <= c && c <= '9' {
        Some((c as u32 - '0' as u32) as nat)
    } else if radix == 16 && 'a' <= c && c <= 'f' {
        Some((c as u32 - 'a' as u32 + 10) as nat)
    } else if radix == 16 && 'A' <= c && c <= 'F' {
        Some((c as u32 - 'A' as u32 + 10) as nat)
    } else {
        None
    }
}

pub open spec fn all_digits(s: Seq<char>, radix: nat) -> bool {
    forall|i: int| 0 <= i < s.len() ==> (#[trigger] digit_of(s[i], radix)) is Some
}

/// The number that the digits `s` spell in base `radix`.
pub open spec fn value_of(s: Seq<char>, radix: nat) -> nat
    decreases s.len(),
{
    if s.len() == 0 {
        0
    } else {
        value_of(s.drop_last(), radix) * radix + match digit_of(s.last(), radix) {
            Some(d) => d,
            None => 0,
        }
    }
}

/// The digits that follow an optional leading `+` (a lone `+` is not a sign).
pub open spec fn unsigned_digits(s: Seq<char>) -> Seq<char> {
    if s.len() > 1 && s[0] == '+' {
        s.drop_first()
    } else {
        s
    }
}

/// What `from_str_radix` of an unsigned integer type whose largest value is
/// `max` gives for `s`: an optional `+`, then at least one digit, and a value
/// that fits.
pub open spec fn parse_unsigned(s: Seq<char>, radix: nat, max: nat) -> Option<nat> {
    let d = unsigned_digits(s);
    if d.len() > 0 && all_digits(d, radix) && value_of(d, radix) <= max {
        Some(value_of(d, radix))
    } else {
        None
    }
}

/// `str::parse::<u8>()`.
pub open spec fn parse_u8(s: Seq<char>) -> Option<nat> {
    parse_unsigned(s, 10, 255)
}

pub fn digit_exec(c: char, radix: u32) -> (r: Option<u32>)
    requires
        radix == 10 || radix == 16,
    ensures
        r matches Some(d) ==> digit_of(c, radix as nat) == Some(d as nat) && d < radix,
        r is None ==> digit_of(c, radix as nat) is None,
{
    if '0' <= c && c <= '9' {
        Some((c as u32) - ('0' as u32))
    } else if radix == 16 && 'a' <= c && c <= 'f' {
        Some((c as u32) - ('a' as u32) + 10)
    } else if radix == 16 && 'A' <= c && c <= 'F' {
        Some((c as u32) - ('A' as u32) + 10)
    } else {
        None
    }
}

proof fn lemma_value_step(s: Seq<char>, i: int, radix: nat)
    requires
        0 <= i < s.len(),
    ensures
        value_of(s.take(i + 1), radix) == value_of(s.take(i), radix) * radix + match digit_of(
            s[i],
            radix,
        ) {
            Some(d) => d,
            None => 0,
        },
{
    assert(s.take(i + 1).drop_last() =~= s.take(i));
}

proof fn lemma_value_grows(s: Seq<char>, i: int, radix: nat)
    requires
        0 <= i <= s.len(),
        radix >= 1,
    ensures
        value_of(s.take(i), radix) <= value_of(s, radix),
    decreases s.len() - i,
{
    if i < s.len() {
        lemma_value_step(s, i, radix);
        assert(value_of(s.take(i), radix) <= value_of(s.take(i), radix) * radix) by (nonlinear_arith)
            requires
                radix >= 1,
        ;
        lemma_value_grows(s, i + 1, radix);
    } else {
        assert(s.take(i) =~= s);
    }
}

/// Parses the digits `d` (all of them) in base `radix`, refusing values above `max`.
fn parse_digits(d: &Vec<char>, radix: u32, max: u64) -> (r: Option<u64>)
    requires
        radix == 10 || radix == 16,
    ensures
        r matches Some(v) ==> d@.len() > 0 && all_digits(d@, radix as nat) && value_of(
            d@,
            radix as nat,
        ) <= max && v == value_of(d@, radix as nat),
        r is None ==> !(d@.len() > 0 && all_digits(d@, radix as nat) && value_of(
            d@,
            radix as nat,
        ) <= max),
{
    if d.len() == 0 {
        return None;
    }
    let mut acc: u64 = 0;
    let mut i: usize = 0;
    assert(d@.take(0) =~= Seq::<char>::empty());
    while i < d.len()
        invariant
            radix == 10 || radix == 16,
            i <= d.len(),
            all_digits(d@.take(i as int), radix as nat),
            acc == value_of(d@.take(i as int), radix as nat),
            acc <= max,
        decreases d.len() - i,
    {
        let c = d[i];
        match digit_exec(c, radix) {
            None => {
                assert(digit_of(d@[i as int], radix as nat) is None);
                return None;
            },
            Some(digit) => {
                proof {
                    lemma_value_step(d@, i as int, radix as nat);
                }
                let wide: u128 = (acc as u128) * (radix as u128) + (digit as u128);
                assert(wide == acc * radix + digit);
                if wide > max as u128 {
                    proof {
                        lemma_value_grows(d@, i + 1, radix as nat);
                    }
                    return None;
                }
                acc = wide as u64;
                assert(all_digits(d@.take(i + 1), radix as nat)) by {
                    assert forall|j: int| 0 <= j < i + 1 implies (#[trigger] digit_of(
                        d@.take(i + 1)[j],
                        radix as nat,
                    )) is Some by {
                        if j < i {
                            assert(d@.take(i + 1)[j] == d@.take(i as int)[j]);
                        }
                    }
                }
                i += 1;
            },
        }
    }
    assert(d@.take(d.len() as int) =~= d@);
    Some(acc)
}

/// `from_str_radix` for an unsigned type with largest value `max`.
pub fn parse_unsigned_chars(s: &Vec<char>, radix: u32, max: u64) -> (r: Option<u64>)
    requires
        radix == 10 || radix == 16,
    ensures
        r matches Some(v) ==> parse_unsigned(s@, radix as nat, max as nat) == Some(v as nat),
        r is None ==> parse_unsigned(s@, radix as nat, max as nat) is None,
{
    let d = if s.len() > 1 && s[0] == '+' {
        copy_range(s, 1, s.len())
    } else {
        copy_chars(s)
    };
    assert(d@ =~= unsigned_digits(s@));
    parse_digits(&d, radix, max)
}

/// `str::parse::<u8>()`.
pub fn parse_u8_chars(s: &Vec<char>) -> (r: Option<u8>)
    ensures
        r matches Some(v) ==> parse_u8(s@) == Some(v as nat),
        r is None ==> parse_u8(s@) is None,
{
    match parse_unsigned_chars(s, 10, 255) {
        Some(v) => Some(v as u8),
        None => None,
    }
}

/// `str::parse::<u16>()`.
pub fn parse_u16_chars(s: &Vec<char>) -> (r: Option<u16>)
    ensures
        r matches Some(v) ==> parse_unsigned(s@, 10, 65535) == Some(v as nat),
        r is None ==> parse_unsigned(s@, 10, 65535) is None,
{
    match parse_unsigned_chars(s, 10, 65535) {
        Some(v) => Some(v as u16),
        None => None,
    }
}

/// `str::parse::<u64>()`.
pub fn parse_u64_chars(s: &Vec<char>) -> (r: Option<u64>)
    ensures
        r matches Some(v) ==> parse_unsigned(s@, 10, u64::MAX as nat) == Some(v as nat),
        r is None ==> parse_unsigned(s@, 10, u64::MAX as nat) is None,
{
    parse_unsigned_chars(s, 10, u64::MAX)
}

// ---------------------------------------------------------------------------
// Decimal text
// ---------------------------------------------------------------------------

pub open spec fn digit_char(d: nat) -> char {
    (d + 48) as char
}

/// The decimal digits of `n`, as `Display` writes an unsigned integer.
pub open spec fn decimal(n: nat) -> Seq<char>
    decreases n,
{
    if n < 10 {
        seq![digit_char(n)]
    } else {
        decimal(n / 10).push(digit_char(n % 10))
    }
}

pub fn push_decimal(out: &mut Vec<char>, n: u64)
    ensures
        final(out)@ == old(out)@ + decimal(n as nat),
    decreases n,
{
    if n >= 10 {
        push_decimal(out, n / 10);
    }
    let d = (n % 10) as u8;
    out.push((d + 48) as char);
    assert(old(out)@ + decimal(n as nat) =~= final(out)@) by {
        if n >= 10 {
            assert(decimal(n as nat) == decimal((n / 10) as nat).push(digit_char((n % 10) as nat)));
        }
    }
}

/// The decimal text of `n`.
pub fn decimal_chars(n: u64) -> (r: Vec<char>)
    ensures
        r@ == decimal(n as nat),
{
    let mut r: Vec<char> = Vec::new();
    push_decimal(&mut r, n);
    assert(r@ =~= decimal(n as nat));
    r
}

// ---------------------------------------------------------------------------
// IPv4 addresses (held as their 32-bit big-endian value)
// ---------------------------------------------------------------------------

/// Octet `k` (0 is the first, most significant) of the address `ip`.
pub open spec fn octet(ip: u32, k: int) -> nat {
    if k == 0 {
        (ip / 0x100_0000) as nat
    } else if k == 1 {
        ((ip / 0x1_0000) % 0x100) as nat
    } else if k == 2 {
        ((ip / 0x100) % 0x100) as nat
    } else {
        (ip % 0x100) as nat
    }
}

/// The dotted-decimal text of `ip` (as `Ipv4Addr`'s `Display` writes it).
pub open spec fn ipv4_text(ip: u32) -> Seq<char> {
    decimal(octet(ip, 0)) + seq!['.'] + decimal(octet(ip, 1)) + seq!['.'] + decimal(octet(ip, 2))
        + seq!['.'] + decimal(octet(ip, 3))
}

proof fn lemma_decimal_digits(n: nat)
    ensures
        decimal(n).len() >= 1,
        forall|j: int| 0 <= j < decimal(n).len() ==> '0' <= #[trigger] decimal(n)[j] && decimal(n)[j] <= '9',
    decreases n,
{
    if n >= 10 {
        lemma_decimal_digits(n / 10);
        assert forall|j: int| 0 <= j < decimal(n).len() implies '0' <= #[trigger] decimal(n)[j] && decimal(n)[j] <= '9' by {
            if j < decimal(n / 10).len() {
                assert(decimal(n)[j] == decimal(n / 10)[j]);
            }
        }
    }
}

proof fn lemma_digit_char(a: nat, b: nat)
    requires
        a < 10,
        b < 10,
        digit_char(a) == digit_char(b),
    ensures
        a == b,
{
    assert(digit_char(a) as int == a + 48);
    assert(digit_char(b) as int == b + 48);
}

/// Different numbers have different decimal texts.
pub proof fn lemma_decimal_injective(a: nat, b: nat)
    requires
        decimal(a) == decimal(b),
    ensures
        a == b,
    decreases a,
{
    lemma_decimal_digits(a / 10);
    lemma_decimal_digits(b / 10);
    if a < 10 && b < 10 {
        assert(decimal(a) == seq![digit_char(a)]);
        assert(decimal(b) == seq![digit_char(b)]);
        assert(decimal(a)[0] == decimal(b)[0]);
        assert(seq![digit_char(a)][0] == digit_char(a));
        assert(seq![digit_char(b)][0] == digit_char(b));
        assert(digit_char(a) == digit_char(b));
        lemma_digit_char(a, b);
    } else if a < 10 {
        assert(decimal(b).len() >= 2);
    } else if b < 10 {
        assert(decimal(a).len() >= 2);
    } else {
        assert(decimal(a) == decimal(a / 10).push(digit_char(a % 10)));
        assert(decimal(b) == decimal(b / 10).push(digit_char(b % 10)));
        assert(decimal(a).last() == decimal(b).last());
        assert(decimal(a / 10).push(digit_char(a % 10)).last() == digit_char(a % 10));
        assert(decimal(b / 10).push(digit_char(b % 10)).last() == digit_char(b % 10));
        assert(digit_char(a % 10) == digit_char(b % 10));
        lemma_digit_char(a % 10, b % 10);
        assert(decimal(a).drop_last() =~= decimal(a / 10));
        assert(decimal(b).drop_last() =~= decimal(b / 10));
        lemma_decimal_injective(a / 10, b / 10);
    }
}

/// The four groups of a dotted-decimal address.
pub open spec fn ipv4_groups(ip: u32) -> Seq<Seq<char>> {
    seq![decimal(octet(ip, 0)), decimal(octet(ip, 1)), decimal(octet(ip, 2)), decimal(octet(ip, 3))]
}

/// Different addresses have different dotted-decimal texts.
pub proof fn lemma_ipv4_text_injective(a: u32, b: u32)
    requires
        ipv4_text(a) == ipv4_text(b),
    ensures
        a == b,
{
    lemma_ipv4_text_split(a);
    lemma_ipv4_text_split(b);
    assert(ipv4_groups(a) == ipv4_groups(b));
    assert forall|k: int| 0 <= k < 4 implies octet(a, k) == octet(b, k) by {
        assert(ipv4_groups(a)[k] == ipv4_groups(b)[k]);
        lemma_decimal_injective(octet(a, k), octet(b, k));
    }
    assert(octet(a, 0) == octet(b, 0) && octet(a, 1) == octet(b, 1));
    assert(octet(a, 2) == octet(b, 2) && octet(a, 3) == octet(b, 3));
    lemma_octets_rebuild(a);
    lemma_octets_rebuild(b);
}

proof fn lemma_octets_rebuild(ip: u32)
    ensures
        ip == octet(ip, 0) * 0x100_0000 + octet(ip, 1) * 0x1_0000 + octet(ip, 2) * 0x100 + octet(ip, 3),
{
    assert(ip == (ip / 0x100_0000) * 0x100_0000 + ((ip / 0x1_0000) % 0x100) * 0x1_0000 + ((ip / 0x100) % 0x100)
        * 0x100 + ip % 0x100) by (bit_vector);
}

proof fn lemma_ipv4_text_split(ip: u32)
    ensures
        split(ipv4_text(ip), CharClass::Only('.')) == ipv4_groups(ip),
{
    let g = ipv4_groups(ip);
    assert forall|i: int, j: int| 0 <= i < g.len() && 0 <= j < g[i].len() implies #[trigger] g[i][j] != '.' by {
        lemma_decimal_digits(octet(ip, i));
    }
    lemma_split_join(g, '.');
    let sep = seq!['.'];
    let g1 = seq![g[0]];
    let g2 = seq![g[0], g[1]];
    let g3 = seq![g[0], g[1], g[2]];
    assert(g2.drop_last() =~= g1);
    assert(g3.drop_last() =~= g2);
    assert(g.drop_last() =~= g3);
    assert(join(g1, sep) == g[0]);
    assert(join(g2, sep) == g[0] + sep + g[1]);
    assert(join(g3, sep) == g[0] + sep + g[1] + sep + g[2]);
    assert(join(g, sep) == g[0] + sep + g[1] + sep + g[2] + sep + g[3]);
    assert(join(g, sep) =~= ipv4_text(ip));
}

/// One dotted-decimal group as `Ipv4Addr::from_str` accepts it: one to three
/// decimal digits, no leading zero unless the group is `0`, at most 255.
pub open spec fn valid_octet(p: Seq<char>) -> bool {
    &&& 1 <= p.len() <= 3
    &&& all_digits(p, 10)
    &&& (p.len() == 1 || p[0] != '0')
    &&& value_of(p, 10) <= 255
}

/// `Ipv4Addr::from_str`: exactly four valid groups separated by dots.
pub open spec fn parse_ipv4(s: Seq<char>) -> Option<u32> {
    let p = split(s, CharClass::Only('.'));
    if p.len() == 4 && valid_octet(p[0]) && valid_octet(p[1]) && valid_octet(p[2]) && valid_octet(
        p[3],
    ) {
        Some(
            (value_of(p[0], 10) * 0x100_0000 + value_of(p[1], 10) * 0x1_0000 + value_of(p[2], 10)
                * 0x100 + value_of(p[3], 10)) as u32,
        )
    } else {
        None
    }
}

fn octet_exec(p: &Vec<char>) -> (r: Option<u32>)
    ensures
        r matches Some(v) ==> valid_octet(p@) && v == value_of(p@, 10),
        r is None ==> !valid_octet(p@),
{
    if p.len() < 1 || p.len() > 3 {
        return None;
    }
    if p.len() > 1 && p[0] == '0' {
        return None;
    }
    match parse_digits(p, 10, 255) {
        Some(v) => Some(v as u32),
        None => None,
    }
}

/// `Ipv4Addr::from_str`.
pub fn parse_ipv4_chars(s: &Vec<char>) -> (r: Option<u32>)
    ensures
        r == parse_ipv4(s@),
{
    let parts = split_chars(s, CharClass::Only('.'));
    if parts.len() != 4 {
        return None;
    }
    let a = octet_exec(&parts[0]);
    let b = octet_exec(&parts[1]);
    let c = octet_exec(&parts[2]);
    let d = octet_exec(&parts[3]);
    assert(views(parts@)[0] == parts@[0]@);
    assert(views(parts@)[1] == parts@[1]@);
    assert(views(parts@)[2] == parts@[2]@);
    assert(views(parts@)[3] == parts@[3]@);
    match (a, b, c, d) {
        (Some(a), Some(b), Some(c), Some(d)) => Some(a * 0x100_0000 + b * 0x1_0000 + c * 0x100 + d),
        _ => None,
    }
}

/// `Ipv4Addr::from_str` on a `str`.
pub fn parse_ipv4_str(s: &str) -> (r: Option<u32>)
    ensures
        r == parse_ipv4(s@),
{
    let v = chars_of(s);
    parse_ipv4_chars(&v)
}

/// The dotted-decimal text of `ip`.
pub fn ipv4_chars(ip: u32) -> (r: Vec<char>)
    ensures
        r@ == ipv4_text(ip),
{
    let mut r: Vec<char> = Vec::new();
    push_decimal(&mut r, (ip / 0x100_0000) as u64);
    r.push('.');
    push_decimal(&mut r, ((ip / 0x1_0000) % 0x100) as u64);
    r.push('.');
    push_decimal(&mut r, ((ip / 0x100) % 0x100) as u64);
    r.push('.');
    push_decimal(&mut r, (ip % 0x100) as u64);
    assert(r@ =~= ipv4_text(ip));
    r
}

/// The dotted-decimal text of `ip`, as a `String`.
pub fn ipv4_string(ip: u32) -> (r: String)
    ensures
        r@ == ipv4_text(ip),
{
    string_of(&ipv4_chars(ip))
}

} // verus!
