//! IPv4 prefixes, netmasks, and the host addresses of a network.
use vstd::prelude::*;
use vstd::arithmetic::power2::{pow2, lemma2_to64, lemma_pow2_adds, lemma_pow2_strictly_increases, lemma_pow2_pos};
use vstd::bits::{low_bits_mask, lemma_u32_shl_is_mul, lemma_u32_pow2_no_overflow, lemma_u32_low_bits_mask_is_mod};
use crate::text::{chars_of, starts_with, split_once, split_once_chars, string_of, strip_prefixes, strip_prefixes_chars};
use crate::numbers::{all_digits, digit_of, unsigned_digits, value_of, decimal, ipv4_text, parse_ipv4, parse_u8, parse_unsigned, parse_ipv4_chars, parse_u8_chars, parse_unsigned_chars, ipv4_chars, push_decimal, octet};

verus! {

/// The number of addresses in a network with this prefix length.
pub open spec fn block_size(prefix: nat) -> nat {
    pow2((32 - prefix) as nat)
}

/// The netmask of a prefix length: the top `prefix` bits set.
pub open spec fn mask_value(prefix: nat) -> nat {
    (pow2(32) - block_size(prefix)) as nat
}

/// The network address of `ip` under a prefix length: `ip` with its host bits cleared.
pub open spec fn network_of(ip: u32, prefix: nat) -> nat {
    (ip as nat - (ip as nat) % block_size(prefix)) as nat
}

/// The last (broadcast) address of the network of `ip`.
pub open spec fn broadcast_of(ip: u32, prefix: nat) -> nat {
    (network_of(ip, prefix) + block_size(prefix) - 1) as nat
}

/// The `count` consecutive addresses that start at `first`.
pub open spec fn address_range(first: nat, count: nat) -> Seq<u32> {
    Seq::new(count, |i: int| (first + i) as u32)
}

/// The hosts of the network of `ip`: the address itself for `/32`; every
/// address for `/31`; all but the network and broadcast addresses otherwise.
pub open spec fn cidr_hosts(ip: u32, prefix: nat) -> Seq<u32> {
    if prefix == 32 {
        seq![ip]
    } else if prefix == 31 {
        address_range(network_of(ip, prefix), 2)
    } else {
        address_range((network_of(ip, prefix) + 1) as nat, (block_size(prefix) - 2) as nat)
    }
}

/// `127.0.0.0/8`, as `Ipv4Addr::is_loopback` decides it.
pub open spec fn is_loopback(ip: u32) -> bool {
    octet(ip, 0) == 127
}

/// `0.0.0.0`, as `Ipv4Addr::is_unspecified` decides it.
pub open spec fn is_unspecified(ip: u32) -> bool {
    ip == 0
}

pub fn loopback(ip: u32) -> (r: bool)
    ensures
        r == is_loopback(ip),
{
    ip / 0x100_0000 == 127
}

pub fn unspecified(ip: u32) -> (r: bool)
    ensures
        r == is_unspecified(ip),
{
    ip == 0
}

proof fn lemma_pow2_32()
    ensures
        pow2(32) == 0x1_0000_0000,
        pow2(0) == 1,
{
    lemma2_to64();
}

proof fn lemma_block_fits(prefix: nat)
    requires
        1 <= prefix <= 32,
    ensures
        1 <= block_size(prefix) <= 0x8000_0000,
        pow2(32) == 0x1_0000_0000,
{
    lemma2_to64();
    lemma_pow2_pos((32 - prefix) as nat);
    if 32 - prefix < 31 {
        lemma_pow2_strictly_increases((32 - prefix) as nat, 31);
    }
}

/// The facts about a mask that the host computations rest on.
proof fn lemma_mask_ops(x: u32, m: u32, prefix: nat)
    requires
        prefix <= 32,
        m == mask_value(prefix),
    ensures
        (x & m) == network_of(x, prefix),
        ((x & m) | !m) == broadcast_of(x, prefix),
{
    lemma_pow2_32();
    if prefix == 0 {
        assert(m == 0);
        assert(x & 0 == 0) by (bit_vector);
        assert((0u32 | !0u32) == 0xffff_ffff) by (bit_vector);
        assert((x as nat) % 0x1_0000_0000nat == x as nat);
    } else {
        let s = (32 - prefix) as nat;
        lemma_block_fits(prefix);
        let l = (pow2(s) - 1) as u32;
        assert(low_bits_mask(s) == l);
        lemma_u32_low_bits_mask_is_mod(x, s);
        assert((x & l) == x % (pow2(s) as u32));
        assert(m == 0xffff_ffff - l);
        assert(!l == 0xffff_ffffu32 - l) by (bit_vector);
        assert(m == !l);
        assert((x & !l) + (x & l) == x) by (bit_vector);
        assert(((x & !l) | l) == (x & !l) + l) by (bit_vector);
        assert(!m == l) by (bit_vector)
            requires
                m == !l,
        ;
    }
}

/// The netmask for a prefix length (the prefix's top bits set).
pub fn prefix_to_mask(prefix: u8) -> (m: u32)
    requires
        prefix <= 32,
    ensures
        m == mask_value(prefix as nat),
{
    proof {
        lemma_pow2_32();
    }
    if prefix == 0 {
        0
    } else {
        let s: u32 = (32 - prefix) as u32;
        proof {
            lemma_block_fits(prefix as nat);
            lemma_u32_pow2_no_overflow(s as nat);
            lemma_u32_shl_is_mul(1, s);
            assert((0xffff_ffffu32 << s) == !(((1u32 << s) - 1) as u32)) by (bit_vector)
                requires
                    s < 32,
            ;
            assert(1u32 << s == pow2(s as nat));
            let l = ((1u32 << s) - 1) as u32;
            assert(!l == 0xffff_ffffu32 - l) by (bit_vector);
        }
        u32::MAX << s
    }
}

/// Different prefix lengths have different netmasks.
pub proof fn lemma_mask_injective(p: nat, q: nat)
    requires
        p <= 32,
        q <= 32,
        mask_value(p) == mask_value(q),
    ensures
        p == q,
{
    lemma_pow2_32();
    if p < q {
        lemma_pow2_strictly_increases((32 - q) as nat, (32 - p) as nat);
        lemma_pow2_strictly_increases((32 - p) as nat, 32);
    } else if q < p {
        lemma_pow2_strictly_increases((32 - p) as nat, (32 - q) as nat);
        lemma_pow2_strictly_increases((32 - q) as nat, 32);
    }
    if p < q || q < p {
        lemma_pow2_pos(0);
    }
}

/// The prefix length whose netmask is `v`, if there is one.
pub open spec fn prefix_of_mask(v: nat) -> Option<nat> {
    if exists|p: nat| p <= 32 && v == #[trigger] mask_value(p) {
        Some(choose|p: nat| p <= 32 && v == #[trigger] mask_value(p))
    } else {
        None
    }
}

proof fn lemma_prefix_of_mask(v: nat, p: nat)
    requires
        p <= 32,
        v == mask_value(p),
    ensures
        prefix_of_mask(v) == Some(p),
{
    let q = choose|q: nat| q <= 32 && v == #[trigger] mask_value(q);
    lemma_mask_injective(p, q);
}

/// A prefix length's netmask reads back as that prefix length.
pub proof fn lemma_netmask_round_trip(p: nat)
    requires
        p <= 32,
    ensures
        prefix_of_mask(mask_value(p)) == Some(p),
{
    lemma_prefix_of_mask(mask_value(p), p);
}

/// The network address of `ip` under `prefix`.
pub fn network_ip_for(ip: u32, prefix: u8) -> (r: u32)
    requires
        prefix <= 32,
    ensures
        r == network_of(ip, prefix as nat),
{
    let m = prefix_to_mask(prefix);
    proof {
        lemma_mask_ops(ip, m, prefix as nat);
    }
    ip & m
}

/// `network/prefix` in text, for example `192.168.1.0/24`.
pub open spec fn cidr_text(ip: u32, prefix: nat) -> Seq<char> {
    ipv4_text(network_of(ip, prefix) as u32) + seq!['/'] + decimal(prefix)
}

/// The label of the network of `ip` under `prefix`.
pub fn cidr_label(ip: u32, prefix: u8) -> (r: String)
    requires
        prefix <= 32,
    ensures
        r@ == cidr_text(ip, prefix as nat),
{
    let mut v = ipv4_chars(network_ip_for(ip, prefix));
    v.push('/');
    push_decimal(&mut v, prefix as u64);
    string_of(&v)
}

/// The prefix length whose netmask is `mask`, if `mask` is a netmask.
pub fn dotted_netmask_to_prefix(mask: u32) -> (r: Option<u8>)
    ensures
        r matches Some(p) ==> p <= 32 && mask == mask_value(p as nat),
        r is None <==> forall|p: nat| p <= 32 ==> mask != #[trigger] mask_value(p),
        match r {
            Some(p) => prefix_of_mask(mask as nat) == Some(p as nat),
            None => prefix_of_mask(mask as nat) is None,
        },
{
    let mut p: u8 = 0;
    loop
        invariant
            p <= 32,
            forall|q: nat| q < p ==> mask != #[trigger] mask_value(q),
        decreases 32 - p,
    {
        if prefix_to_mask(p) == mask {
            proof {
                lemma_prefix_of_mask(mask as nat, p as nat);
            }
            return Some(p);
        }
        if p == 32 {
            assert forall|q: nat| q <= 32 implies mask != #[trigger] mask_value(q) by {
                if q < 32 {
                } else {
                    assert(q == p);
                }
            }
            return None;
        }
        p += 1;
    }
}

/// The prefix length of a hexadecimal netmask such as `0xffffff00`: leading
/// `0x` markers removed, the rest read as a hexadecimal `u32`.
pub open spec fn hex_mask_value(s: Seq<char>) -> Option<nat> {
    parse_unsigned(strip_prefixes(s, seq!['0', 'x']), 16, 0xffff_ffff)
}

/// The prefix length of a hexadecimal netmask such as `0xffffff00`.
pub fn hex_netmask_to_prefix(mask: &str) -> (r: Option<u8>)
    ensures
        hex_mask_value(mask@) is None ==> r is None,
        hex_mask_value(mask@) matches Some(v) ==> {
            &&& r matches Some(p) ==> p <= 32 && v == mask_value(p as nat)
            &&& r is None <==> forall|p: nat| p <= 32 ==> v != #[trigger] mask_value(p)
        },
        match r {
            Some(p) => hex_mask_value(mask@) matches Some(v) && prefix_of_mask(v) == Some(p as nat),
            None => hex_mask_value(mask@) matches Some(v) ==> prefix_of_mask(v) is None,
        },
{
    let chars = chars_of(mask);
    let mut marker: Vec<char> = Vec::new();
    marker.push('0');
    marker.push('x');
    assert(marker@ =~= seq!['0', 'x']);
    let trimmed = strip_prefixes_chars(&chars, &marker);
    match parse_unsigned_chars(&trimmed, 16, 0xffff_ffff) {
        Some(v) => dotted_netmask_to_prefix(v as u32),
        None => None,
    }
}

/// The lowercase hexadecimal digit for `d` (below sixteen).
pub open spec fn hex_digit_char(d: nat) -> char {
    if d < 10 {
        (d + 48) as char
    } else {
        (d + 87) as char
    }
}

/// The last `n` hexadecimal digits of `v`, zeros in front.
pub open spec fn hex_digits(v: nat, n: nat) -> Seq<char>
    decreases n,
{
    if n == 0 {
        Seq::empty()
    } else {
        hex_digits(v / 16, (n - 1) as nat).push(hex_digit_char(v % 16))
    }
}

/// `format!("0x{:08x}", v)`: a netmask as `ifconfig` prints it.
pub open spec fn hex_mask_text(v: u32) -> Seq<char> {
    seq!['0', 'x'] + hex_digits(v as nat, 8)
}

pub open spec fn power16(n: nat) -> nat
    decreases n,
{
    if n == 0 {
        1
    } else {
        16 * power16((n - 1) as nat)
    }
}

proof fn lemma_hex_digits(v: nat, n: nat)
    ensures
        hex_digits(v, n).len() == n,
        all_digits(hex_digits(v, n), 16),
        forall|k: int| 0 <= k < n ==> #[trigger] hex_digits(v, n)[k] != 'x' && hex_digits(v, n)[k] != '+',
        value_of(hex_digits(v, n), 16) == v % power16(n),
    decreases n,
{
    if n > 0 {
        let m = (n - 1) as nat;
        lemma_hex_digits(v / 16, m);
        let s = hex_digits(v, n);
        assert(s.drop_last() =~= hex_digits(v / 16, m));
        let d = v % 16;
        assert(digit_of(hex_digit_char(d), 16) == Some(d));
        assert forall|k: int| 0 <= k < n implies #[trigger] digit_of(s[k], 16) is Some && s[k] != 'x' && s[k] != '+' by {
            if k < m {
                assert(s[k] == hex_digits(v / 16, m)[k]);
            }
        }
        assert(power16(m) > 0) by {
            lemma_power16_positive(m);
        }
        vstd::arithmetic::div_mod::lemma_mod_breakdown(v as int, 16, power16(m) as int);
        assert(value_of(s, 16) == value_of(hex_digits(v / 16, m), 16) * 16 + d);
        assert((v / 16) % power16(m) * 16 == 16 * ((v / 16) % power16(m))) by (nonlinear_arith);
    }
}

proof fn lemma_power16_positive(n: nat)
    ensures
        power16(n) > 0,
    decreases n,
{
    if n > 0 {
        lemma_power16_positive((n - 1) as nat);
    }
}

/// The netmask of every prefix length from 0 to 32 (what `prefix_to_mask`
/// returns), printed as `0x` and eight lowercase hexadecimal digits like
/// `format!("0x{:08x}", ..)`, reads back as that mask and then as that prefix
/// length: by their contracts, `hex_netmask_to_prefix` gives `Some(p)` for it.
pub proof fn lemma_hex_netmask_round_trip(p: nat)
    requires
        p <= 32,
    ensures
        hex_mask_value(hex_mask_text(mask_value(p) as u32)) == Some(mask_value(p)),
        prefix_of_mask(mask_value(p)) == Some(p),
{
    lemma_netmask_round_trip(p);
    lemma_pow2_32();
    assert(mask_value(p) < 0x1_0000_0000) by {
        if p == 0 {
            assert(block_size(p) == pow2(32));
        } else {
            lemma_block_fits(p);
        }
    }
    let v = mask_value(p) as u32;
    let d = hex_digits(v as nat, 8);
    lemma_hex_digits(v as nat, 8);
    assert(power16(8) == 0x1_0000_0000) by {
        reveal_with_fuel(power16, 9);
    }
    let t = hex_mask_text(v);
    assert(starts_with(t, seq!['0', 'x'])) by {
        assert(t.take(2) =~= seq!['0', 'x']);
    }
    assert(t.skip(2) =~= d);
    assert(!starts_with(d, seq!['0', 'x'])) by {
        if starts_with(d, seq!['0', 'x']) {
            assert(d.take(2)[1] == 'x');
        }
    }
    assert(strip_prefixes(d, seq!['0', 'x']) == d);
    assert(strip_prefixes(t, seq!['0', 'x']) == d);
    assert(unsigned_digits(d) == d);
}

/// `input` read as `address/prefix`, with a prefix of at most 32.
pub open spec fn parse_cidr(input: Seq<char>) -> Option<(u32, nat)> {
    match split_once(input, '/') {
        Some((a, b)) => match (parse_ipv4(a), parse_u8(b)) {
            (Some(ip), Some(p)) => if p <= 32 {
                Some((ip, p))
            } else {
                None
            },
            _ => None,
        },
        None => None,
    }
}

/// Reads `address/prefix`.
pub fn parse_ipv4_cidr(input: &str) -> (r: Option<(u32, u8)>)
    ensures
        match r {
            Some((ip, p)) => parse_cidr(input@) == Some((ip, p as nat)),
            None => parse_cidr(input@) is None,
        },
{
    let chars = chars_of(input);
    match split_once_chars(&chars, '/') {
        Some((a, b)) => {
            let ip = parse_ipv4_chars(&a);
            let p = parse_u8_chars(&b);
            match (ip, p) {
                (Some(ip), Some(p)) => {
                    if p > 32 {
                        None
                    } else {
                        Some((ip, p))
                    }
                },
                _ => None,
            }
        },
        None => None,
    }
}

/// The hosts to probe in the network of `network_ip` with prefix `prefix`.
pub fn hosts_from_cidr(network_ip: u32, prefix: u8) -> (hosts: Vec<u32>)
    requires
        prefix <= 32,
    ensures
        hosts@ == cidr_hosts(network_ip, prefix as nat),
{
    if prefix == 32 {
        let mut v: Vec<u32> = Vec::new();
        v.push(network_ip);
        assert(v@ =~= seq![network_ip]);
        return v;
    }
    let mask = prefix_to_mask(prefix);
    let network = network_ip & mask;
    let broadcast = network | !mask;
    proof {
        lemma_mask_ops(network_ip, mask, prefix as nat);
        lemma_pow2_32();
        if prefix >= 1 {
            lemma_block_fits(prefix as nat);
        }
        lemma_pow2_adds(1, (31 - prefix) as nat);
        lemma2_to64();
        lemma_pow2_pos((31 - prefix) as nat);
        assert((network_ip as nat) % block_size(prefix as nat) < block_size(prefix as nat));
    }
    let start: u32 = if prefix >= 31 {
        network
    } else {
        network + 1
    };
    let end: u32 = if prefix >= 31 {
        broadcast
    } else {
        broadcast - 1
    };
    let mut hosts: Vec<u32> = Vec::new();
    let mut value: u64 = start as u64;
    while value <= end as u64
        invariant
            start <= end + 1,
            start <= value <= end as u64 + 1,
            hosts@ == address_range(start as nat, hosts@.len()),
            hosts@.len() == value - start,
        decreases end as u64 + 1 - value,
    {
        let ghost before = hosts@;
        hosts.push(value as u32);
        assert(hosts@ =~= address_range(start as nat, hosts@.len()));
        value += 1;
    }
    assert(hosts@ =~= cidr_hosts(network_ip, prefix as nat));
    hosts
}

/// The network of `ip` ends no later than the end of the address space.
proof fn lemma_network_fits(ip: u32, prefix: nat)
    requires
        prefix <= 32,
    ensures
        network_of(ip, prefix) % block_size(prefix) == 0,
        network_of(ip, prefix) <= ip,
        network_of(ip, prefix) + block_size(prefix) <= 0x1_0000_0000,
        block_size(prefix) > 0,
{
    lemma_pow2_32();
    let s = (32 - prefix) as nat;
    lemma_pow2_pos(s);
    lemma_pow2_pos(prefix);
    lemma_pow2_adds(prefix, s);
    assert(prefix + s == 32);
    let b = block_size(prefix) as int;
    let k = pow2(prefix) as int;
    let x = ip as int;
    let q = x / b;
    vstd::arithmetic::div_mod::lemma_fundamental_div_mod(x, b);
    vstd::arithmetic::div_mod::lemma_mod_bound(x, b);
    let n = network_of(ip, prefix) as int;
    assert(n == q * b) by (nonlinear_arith)
        requires
            x == b * q + x % b,
            n == x - x % b,
    ;
    assert(q >= 0) by {
        vstd::arithmetic::div_mod::lemma_div_pos_is_pos(x, b);
    }
    assert(pow2((prefix + s) as nat) == pow2(32));
    assert(k * b == 0x1_0000_0000);
    assert((q + 1) * b == q * b + b) by (nonlinear_arith);
    assert((q + 1) * b <= k * b) by (nonlinear_arith)
        requires
            q * b <= x,
            x < k * b,
            b > 0,
            q >= 0,
    ;
    vstd::arithmetic::div_mod::lemma_mod_multiples_basic(q, b);
    assert(n % b == 0) by (nonlinear_arith)
        requires
            n == q * b,
            (q * b) % b == 0,
    ;
}

/// Every host of a network shares its network address.
pub proof fn lemma_hosts_in_network(ip: u32, prefix: nat, i: int)
    requires
        prefix < 32,
        0 <= i < cidr_hosts(ip, prefix).len(),
    ensures
        network_of(cidr_hosts(ip, prefix)[i], prefix) == network_of(ip, prefix),
{
    lemma_network_fits(ip, prefix);
    let b = block_size(prefix) as int;
    let n = network_of(ip, prefix) as int;
    let h = cidr_hosts(ip, prefix)[i] as int;
    if prefix == 31 {
        lemma_pow2_32();
        assert(b == 2) by {
            lemma2_to64();
        }
        assert(0 <= n + i < 0x1_0000_0000);
        assert(h == ((n + i) as u32) as int);
    } else {
        lemma2_to64();
        lemma_pow2_strictly_increases(1, (32 - prefix) as nat);
        assert(b >= 2);
        assert(i < b - 2);
        assert(0 <= n + 1 + i < 0x1_0000_0000);
        assert(h == ((n + 1 + i) as u32) as int);
    }
    assert(n <= h < n + b);
    assert(h % b == h - n) by {
        let q = n / b;
        vstd::arithmetic::div_mod::lemma_fundamental_div_mod(n, b);
        vstd::arithmetic::div_mod::lemma_mod_multiples_vanish(q, h - n, b);
        vstd::arithmetic::div_mod::lemma_small_mod((h - n) as nat, b as nat);
        assert(h - n + q * b == h) by (nonlinear_arith)
            requires
                n == b * q + n % b,
                n % b == 0,
        ;
        assert(b * q == q * b) by (nonlinear_arith);
    }
}

/// A network of prefix length at least 24 has at most 254 hosts.
pub proof fn lemma_small_network(ip: u32, prefix: nat)
    requires
        24 <= prefix <= 32,
    ensures
        cidr_hosts(ip, prefix).len() <= 254,
{
    lemma_pow2_32();
    lemma_block_fits(prefix);
    if (32 - prefix) < 8 {
        lemma_pow2_strictly_increases((32 - prefix) as nat, 8);
    }
    lemma2_to64();
    let b = block_size(prefix);
    assert(b <= 256);
}

} // verus!
