//! MAC addresses and the local ARP cache.
use vstd::prelude::*;
use std::collections::{BTreeMap, BTreeSet};
use crate::text::{
    ascii_lower, chars_of, contains, contains_chars, copy_chars, copy_range, in_class, join,
    join_chars, lemma_contains_iff_occurs, lemma_join_after_first, lemma_join_chars,
    lemma_join_len, lemma_lower_stable, lemma_split_chars, lemma_split_cover, lemma_split_join, lemma_trim_ends,
    lemma_trim_untouched, lines, lines_chars, lower,
    occurs_at, split, split_chars, split_ws, string_of, to_lower, trim, trim_chars, views,
    words_chars, CharClass,
};
use crate::numbers::{digit_exec, digit_of, parse_ipv4, parse_ipv4_chars, parse_unsigned, parse_unsigned_chars};
use crate::network::{is_loopback, is_unspecified, loopback, unspecified};
use crate::probe::{arg_views, command, command_view, text_of, CommandSpec, OutputMode};

verus! {

broadcast use vstd::laws_cmp::group_laws_cmp;

// ---------------------------------------------------------------------------
// Recognising and normalising MAC addresses
// ---------------------------------------------------------------------------

/// `char::is_ascii_hexdigit`.
pub open spec fn is_hex(c: char) -> bool {
    ('0' <= c && c <= '9') || ('a' <= c && c <= 'f') || ('A' <= c && c <= 'F')
}

pub fn hex_char(c: char) -> (r: bool)
    ensures
        r == is_hex(c),
{
    ('0' <= c && c <= '9') || ('a' <= c && c <= 'f') || ('A' <= c && c <= 'F')
}

/// One group of a MAC address: one or two hexadecimal digits.
pub open spec fn mac_group(p: Seq<char>) -> bool {
    1 <= p.len() <= 2 && forall|i: int| 0 <= i < p.len() ==> is_hex(#[trigger] p[i])
}

/// A token with its brackets and commas trimmed and ASCII letters lowered.
pub open spec fn cleaned_token(token: Seq<char>) -> Seq<char> {
    lower(trim(token, CharClass::Brackets))
}

/// The separator a cleaned token would use: `:` if present, else `-` if present.
pub open spec fn mac_separator(cleaned: Seq<char>) -> Option<char> {
    if contains(cleaned, seq![':']) {
        Some(':')
    } else if contains(cleaned, seq!['-']) {
        Some('-')
    } else {
        None
    }
}

/// The token (brackets and commas trimmed, case ignored) is six groups of one
/// or two hexadecimal digits separated by `:` (or by `-` where it has no `:`).
pub open spec fn looks_like_mac(token: Seq<char>) -> bool {
    let cleaned = cleaned_token(token);
    match mac_separator(cleaned) {
        Some(sep) => {
            let parts = split(cleaned, CharClass::Only(sep));
            parts.len() == 6 && forall|i: int| 0 <= i < 6 ==> mac_group(#[trigger] parts[i])
        },
        None => false,
    }
}

fn all_groups(parts: &Vec<Vec<char>>) -> (r: bool)
    ensures
        r == (forall|i: int| 0 <= i < parts@.len() ==> mac_group(#[trigger] views(parts@)[i])),
{
    let mut i: usize = 0;
    while i < parts.len()
        invariant
            i <= parts.len(),
            forall|j: int| 0 <= j < i ==> mac_group(#[trigger] views(parts@)[j]),
        decreases parts.len() - i,
    {
        let p = &parts[i];
        assert(views(parts@)[i as int] == p@);
        if p.len() < 1 || p.len() > 2 {
            assert(!mac_group(views(parts@)[i as int]));
            return false;
        }
        let mut k: usize = 0;
        while k < p.len()
            invariant
                i < parts.len(),
                p@ == views(parts@)[i as int],
                k <= p.len(),
                forall|j: int| 0 <= j < k ==> is_hex(#[trigger] p@[j]),
            decreases p.len() - k,
        {
            if !hex_char(p[k]) {
                assert(!is_hex(p@[k as int]));
                assert(!mac_group(views(parts@)[i as int]));
                return false;
            }
            k += 1;
        }
        i += 1;
    }
    true
}

fn cleaned_chars(token: &Vec<char>) -> (r: Vec<char>)
    ensures
        r@ == cleaned_token(token@),
{
    to_lower(&trim_chars(token, CharClass::Brackets))
}

fn looks_like_mac_chars(token: &Vec<char>) -> (r: bool)
    ensures
        r == looks_like_mac(token@),
{
    let cleaned = cleaned_chars(token);
    let mut colon: Vec<char> = Vec::new();
    colon.push(':');
    let mut dash: Vec<char> = Vec::new();
    dash.push('-');
    assert(colon@ =~= seq![':']);
    assert(dash@ =~= seq!['-']);
    let sep = if contains_chars(&cleaned, &colon) {
        ':'
    } else if contains_chars(&cleaned, &dash) {
        '-'
    } else {
        return false;
    };
    let parts = split_chars(&cleaned, CharClass::Only(sep));
    if parts.len() != 6 {
        return false;
    }
    all_groups(&parts)
}

/// Whether `token` is written like a MAC address.
pub fn token_looks_like_mac(token: &str) -> (r: bool)
    ensures
        r == looks_like_mac(token@),
{
    looks_like_mac_chars(&chars_of(token))
}

/// `-` replaced by `:`.
pub open spec fn dashes_to_colons(s: Seq<char>) -> Seq<char> {
    s.map_values(|c: char| if c == '-' { ':' } else { c })
}

/// A group padded to two digits.
pub open spec fn pad_group(p: Seq<char>) -> Seq<char> {
    if p.len() == 1 {
        seq!['0'] + p
    } else {
        p
    }
}

/// The normal form of a MAC token: cleaned, `-` turned into `:`, and every
/// group padded to two digits (six lowercase pairs joined by `:`).
pub open spec fn normalized_mac(token: Seq<char>) -> Option<Seq<char>> {
    let cleaned = dashes_to_colons(cleaned_token(token));
    if looks_like_mac(cleaned) {
        let parts = split(cleaned, CharClass::Only(':'));
        Some(join(parts.map_values(|p: Seq<char>| pad_group(p)), seq![':']))
    } else {
        None
    }
}

/// A lowercase hexadecimal digit.
pub open spec fn lower_hex(c: char) -> bool {
    ('0' <= c && c <= '9') || ('a' <= c && c <= 'f')
}

proof fn lemma_lower_keeps_brackets_out(c: char)
    ensures
        in_class(CharClass::Brackets, ascii_lower(c)) ==> in_class(CharClass::Brackets, c),
        ascii_lower(ascii_lower(c)) == ascii_lower(c),
{
}

/// The cleaned token with `-` turned into `:` is its own cleaning, and has no `-`.
proof fn lemma_cleaned_stable(token: Seq<char>)
    ensures
        cleaned_token(dashes_to_colons(cleaned_token(token))) == dashes_to_colons(cleaned_token(token)),
        forall|i: int| 0 <= i < dashes_to_colons(cleaned_token(token)).len() ==>
            #[trigger] dashes_to_colons(cleaned_token(token))[i] != '-'
            && ascii_lower(dashes_to_colons(cleaned_token(token))[i]) == dashes_to_colons(cleaned_token(token))[i],
{
    let t0 = trim(token, CharClass::Brackets);
    let c = dashes_to_colons(cleaned_token(token));
    lemma_trim_ends(token, CharClass::Brackets);
    assert forall|i: int| 0 <= i < c.len() implies #[trigger] c[i] != '-' && ascii_lower(c[i]) == c[i]
        && (in_class(CharClass::Brackets, c[i]) ==> in_class(CharClass::Brackets, t0[i])) by {
        lemma_lower_keeps_brackets_out(t0[i]);
    }
    if c.len() > 0 {
        assert(!in_class(CharClass::Brackets, c[0]));
        assert(!in_class(CharClass::Brackets, c[c.len() - 1]));
    }
    lemma_trim_untouched(c, CharClass::Brackets);
    lemma_lower_stable(c);
}

/// A normalized MAC address is seventeen characters: six groups of two
/// lowercase hexadecimal digits joined by `:`. It is again written like a MAC
/// address, and normalizing it again gives it back unchanged.
pub proof fn lemma_normalized_mac_stable(token: Seq<char>, m: Seq<char>)
    requires
        normalized_mac(token) == Some(m),
    ensures
        m.len() == 17,
        forall|k: int| 0 <= k < m.len() ==> (#[trigger] m[k] == ':' || lower_hex(m[k])),
        split(m, CharClass::Only(':')).len() == 6,
        forall|i: int| 0 <= i < 6 ==> (#[trigger] split(m, CharClass::Only(':'))[i]).len() == 2,
        forall|i: int, j: int| 0 <= i < 6 && 0 <= j < 2 ==> lower_hex(#[trigger] split(m, CharClass::Only(':'))[i][j]),
        looks_like_mac(m),
        normalized_mac(m) == Some(m),
{
    let c = dashes_to_colons(cleaned_token(token));
    lemma_cleaned_stable(token);
    assert(cleaned_token(c) == c);
    assert(!contains(c, seq!['-'])) by {
        lemma_contains_iff_occurs(c, seq!['-']);
        if contains(c, seq!['-']) {
            let k = choose|k: int| occurs_at(c, seq!['-'], k);
            assert(c.subrange(k, k + 1)[0] == c[k]);
        }
    }
    assert(mac_separator(c) == Some(':'));
    let parts = split(c, CharClass::Only(':'));
    assert(parts.len() == 6);
    let qs = parts.map_values(|p: Seq<char>| pad_group(p));
    assert(m == join(qs, seq![':']));
    // Every part is one or two lowercase hexadecimal digits.
    let stable = |ch: char| ascii_lower(ch) == ch;
    assert forall|k: int| 0 <= k < c.len() implies stable(#[trigger] c[k]) by {
    }
    lemma_split_chars(c, CharClass::Only(':'), stable);
    assert forall|i: int, j: int| 0 <= i < 6 && 0 <= j < parts[i].len() implies lower_hex(#[trigger] parts[i][j]) by {
        assert(mac_group(parts[i]));
        assert(is_hex(parts[i][j]));
        assert(stable(parts[i][j]));
    }
    assert forall|i: int| 0 <= i < 6 implies (#[trigger] qs[i]).len() == 2 && forall|j: int|
        0 <= j < 2 ==> lower_hex(#[trigger] qs[i][j]) by {
        assert(mac_group(parts[i]));
        if parts[i].len() == 1 {
            assert(qs[i] == seq!['0'] + parts[i]);
            assert(qs[i][1] == parts[i][0]);
        } else {
            assert(qs[i] == parts[i]);
        }
    }
    assert forall|i: int, j: int| 0 <= i < qs.len() && 0 <= j < qs[i].len() implies #[trigger] qs[i][j] != ':'
        && lower_hex(qs[i][j]) by {
        assert(j < 2);
    }
    let p_char = |ch: char| ch == ':' || lower_hex(ch);
    assert forall|i: int, j: int| 0 <= i < qs.len() && 0 <= j < qs[i].len() implies p_char(#[trigger] qs[i][j]) by {
    }
    assert forall|j: int| 0 <= j < seq![':'].len() implies p_char(#[trigger] seq![':'][j]) by {
    }
    lemma_join_chars(qs, seq![':'], p_char);
    lemma_join_len(qs, seq![':'], 2);
    assert forall|k: int| 0 <= k < m.len() implies (#[trigger] m[k] == ':' || lower_hex(m[k])) by {
        assert(p_char(join(qs, seq![':'])[k]));
    }
    // Normalizing again.
    assert(m[2] == ':') by {
        lemma_join_after_first(qs, seq![':']);
    }
    assert forall|k: int| 0 <= k < m.len() implies #[trigger] m[k] != '-' && ascii_lower(m[k]) == m[k] by {
        assert(m[k] == ':' || lower_hex(m[k]));
    }
    assert(dashes_to_colons(m) =~= m);
    assert(!in_class(CharClass::Brackets, m[0]) && !in_class(CharClass::Brackets, m[16]));
    lemma_trim_untouched(m, CharClass::Brackets);
    lemma_lower_stable(m);
    assert(cleaned_token(m) == m);
    assert(contains(m, seq![':'])) by {
        lemma_contains_iff_occurs(m, seq![':']);
        assert(m.subrange(2, 3) =~= seq![':']);
        assert(occurs_at(m, seq![':'], 2));
    }
    lemma_split_join(qs, ':');
    assert(split(m, CharClass::Only(':')) == qs);
    assert forall|i: int| 0 <= i < 6 implies mac_group(#[trigger] qs[i]) by {
        assert(qs[i].len() == 2);
        assert(forall|j: int| 0 <= j < 2 ==> lower_hex(#[trigger] qs[i][j]));
    }
    assert(looks_like_mac(m));
    assert(qs.map_values(|p: Seq<char>| pad_group(p)) =~= qs);
}

proof fn lemma_split_dashes(s: Seq<char>)
    requires
        forall|k: int| 0 <= k < s.len() ==> #[trigger] s[k] != ':',
    ensures
        split(dashes_to_colons(s), CharClass::Only(':')) == split(s, CharClass::Only('-')),
    decreases s.len(),
{
    if s.len() > 0 {
        let front = s.drop_last();
        assert forall|k: int| 0 <= k < front.len() implies #[trigger] front[k] != ':' by {
            assert(front[k] == s[k]);
        }
        lemma_split_dashes(front);
        assert(dashes_to_colons(s).drop_last() =~= dashes_to_colons(front));
        assert(s[s.len() - 1] != ':');
        assert(dashes_to_colons(s).last() == (if s.last() == '-' { ':' } else { s.last() }));
    }
}

proof fn lemma_no_char(s: Seq<char>, c: char)
    requires
        !contains(s, seq![c]),
    ensures
        forall|k: int| 0 <= k < s.len() ==> #[trigger] s[k] != c,
{
    lemma_contains_iff_occurs(s, seq![c]);
    assert forall|k: int| 0 <= k < s.len() implies #[trigger] s[k] != c by {
        if s[k] == c {
            assert(s.subrange(k, k + 1) =~= seq![c]);
            assert(occurs_at(s, seq![c], k));
        }
    }
}

/// Every token written like a MAC address has a normal form.
pub proof fn lemma_mac_shape_normalizes(token: Seq<char>)
    requires
        looks_like_mac(token),
    ensures
        normalized_mac(token) is Some,
{
    let c0 = cleaned_token(token);
    let c = dashes_to_colons(c0);
    lemma_cleaned_stable(token);
    if contains(c0, seq![':']) {
        let parts = split(c0, CharClass::Only(':'));
        let hexy = |ch: char| is_hex(ch);
        assert forall|i: int, j: int| 0 <= i < parts.len() && 0 <= j < parts[i].len() implies hexy(
            #[trigger] parts[i][j],
        ) by {
            assert(mac_group(parts[i]));
        }
        lemma_split_cover(c0, CharClass::Only(':'), hexy);
        assert forall|k: int| 0 <= k < c0.len() implies #[trigger] c0[k] != '-' by {
            assert(in_class(CharClass::Only(':'), c0[k]) || hexy(c0[k]));
        }
        assert(c =~= c0);
        assert(looks_like_mac(c));
    } else {
        lemma_no_char(c0, ':');
        lemma_split_dashes(c0);
        lemma_contains_iff_occurs(c0, seq!['-']);
        let k = choose|k: int| occurs_at(c0, seq!['-'], k);
        assert(c0.subrange(k, k + 1)[0] == c0[k]);
        assert(c[k] == ':');
        lemma_contains_iff_occurs(c, seq![':']);
        assert(c.subrange(k, k + 1) =~= seq![':']);
        assert(occurs_at(c, seq![':'], k));
        assert(mac_separator(c) == Some(':'));
        assert(looks_like_mac(c));
    }
}

fn dashes_to_colons_chars(v: &Vec<char>) -> (r: Vec<char>)
    ensures
        r@ == dashes_to_colons(v@),
{
    let mut r: Vec<char> = Vec::new();
    for i in 0..v.len()
        invariant
            r@ == dashes_to_colons(v@.take(i as int)),
    {
        let c = v[i];
        r.push(
            if c == '-' {
                ':'
            } else {
                c
            },
        );
        assert(dashes_to_colons(v@.take(i + 1)) =~= r@);
    }
    assert(v@.take(v.len() as int) =~= v@);
    r
}

fn normalize_mac_chars(token: &Vec<char>) -> (r: Option<Vec<char>>)
    ensures
        match r {
            Some(m) => normalized_mac(token@) == Some(m@),
            None => normalized_mac(token@) is None,
        },
{
    let cleaned = dashes_to_colons_chars(&cleaned_chars(token));
    if !looks_like_mac_chars(&cleaned) {
        return None;
    }
    let parts = split_chars(&cleaned, CharClass::Only(':'));
    let mut padded: Vec<Vec<char>> = Vec::new();
    for i in 0..parts.len()
        invariant
            views(padded@) == views(parts@).take(i as int).map_values(
                |p: Seq<char>| pad_group(p),
            ),
    {
        let part = &parts[i];
        let mut q: Vec<char> = Vec::new();
        if part.len() == 1 {
            q.push('0');
            q.push(part[0]);
        } else {
            q = copy_chars(part);
        }
        assert(q@ =~= pad_group(views(parts@)[i as int]));
        let ghost before = views(padded@);
        padded.push(q);
        assert(views(padded@) =~= before.push(q@));
        assert(views(parts@).take(i + 1) =~= views(parts@).take(i as int).push(views(parts@)[i as int]));
        assert(views(parts@).take(i + 1).map_values(|p: Seq<char>| pad_group(p)) =~= views(
            parts@,
        ).take(i as int).map_values(|p: Seq<char>| pad_group(p)).push(pad_group(views(parts@)[i as int])));
    }
    assert(views(parts@).take(parts.len() as int) =~= views(parts@));
    let mut colon: Vec<char> = Vec::new();
    colon.push(':');
    assert(colon@ =~= seq![':']);
    Some(join_chars(&padded, &colon))
}

/// The normal form of a MAC token, if it is one.
pub fn normalize_mac(token: &str) -> (r: Option<String>)
    ensures
        match r {
            Some(m) => normalized_mac(token@) == Some(m@),
            None => normalized_mac(token@) is None,
        },
{
    match normalize_mac_chars(&chars_of(token)) {
        Some(m) => Some(string_of(&m)),
        None => None,
    }
}

/// The normal form of the first whitespace-separated token that is a MAC address.
pub open spec fn first_mac(tokens: Seq<Seq<char>>) -> Option<Seq<char>>
    decreases tokens.len(),
{
    if tokens.len() == 0 {
        None
    } else if normalized_mac(tokens[0]) is Some {
        normalized_mac(tokens[0])
    } else {
        first_mac(tokens.drop_first())
    }
}

fn first_mac_chars(line: &Vec<char>) -> (r: Option<Vec<char>>)
    ensures
        match r {
            Some(m) => first_mac(split_ws(line@)) == Some(m@),
            None => first_mac(split_ws(line@)) is None,
        },
{
    let tokens = words_chars(line, CharClass::Whitespace);
    let ghost all = views(tokens@);
    assert(all.skip(0) =~= all);
    let mut i: usize = 0;
    while i < tokens.len()
        invariant
            i <= tokens.len(),
            all == views(tokens@),
            all == split_ws(line@),
            first_mac(all) == first_mac(all.skip(i as int)),
        decreases tokens.len() - i,
    {
        assert(all.skip(i as int)[0] == tokens@[i as int]@);
        assert(all.skip(i as int).drop_first() =~= all.skip(i + 1));
        match normalize_mac_chars(&tokens[i]) {
            Some(m) => {
                return Some(m);
            },
            None => {},
        }
        i += 1;
    }
    assert(all.skip(i as int) =~= Seq::<Seq<char>>::empty());
    None
}

/// The normalised MAC address of the first token of `line` that is one.
pub fn extract_first_mac_from_line(line: &str) -> (r: Option<String>)
    ensures
        match r {
            Some(m) => first_mac(split_ws(line@)) == Some(m@),
            None => first_mac(split_ws(line@)) is None,
        },
{
    match first_mac_chars(&chars_of(line)) {
        Some(m) => Some(string_of(&m)),
        None => None,
    }
}

/// ARP entries that name no usable hardware address.
pub open spec fn arp_line_rejected(lower_line: Seq<char>) -> bool {
    ||| contains(lower_line, seq!['i', 'n', 'c', 'o', 'm', 'p', 'l', 'e', 't', 'e'])
    ||| contains(lower_line, seq!['f', 'a', 'i', 'l', 'e', 'd'])
    ||| contains(lower_line, seq!['n', 'o', ' ', 'e', 'n', 't', 'r', 'y'])
    ||| contains(lower_line, seq!['p', 'e', 'r', 'm', 'a', 'n', 'e', 'n', 't'])
    ||| contains(lower_line, seq!['f', 'f', ':', 'f', 'f', ':', 'f', 'f', ':', 'f', 'f', ':', 'f', 'f', ':', 'f', 'f'])
    ||| contains(lower_line, seq!['f', 'f', '-', 'f', 'f', '-', 'f', 'f', '-', 'f', 'f', '-', 'f', 'f', '-', 'f', 'f'])
}

/// An ARP line names a real neighbour: none of the markers of an incomplete,
/// failed, missing, permanent or broadcast entry, and some token is a MAC address.
pub open spec fn arp_line_ok(line: Seq<char>) -> bool {
    &&& !arp_line_rejected(lower(line))
    &&& exists|i: int| 0 <= i < split_ws(line).len() && looks_like_mac(#[trigger] split_ws(line)[i])
}

/// A line that, in lowercase, marks an incomplete, failed, missing or
/// permanent entry, or names the broadcast address in colon or dash form,
/// never names a real neighbour.
pub proof fn lemma_arp_line_rejections(line: Seq<char>)
    ensures
        contains(lower(line), "ff-ff-ff-ff-ff-ff"@) ==> !arp_line_ok(line),
        contains(lower(line), "ff:ff:ff:ff:ff:ff"@) ==> !arp_line_ok(line),
        contains(lower(line), "incomplete"@) ==> !arp_line_ok(line),
        contains(lower(line), "failed"@) ==> !arp_line_ok(line),
        contains(lower(line), "no entry"@) ==> !arp_line_ok(line),
        contains(lower(line), "permanent"@) ==> !arp_line_ok(line),
{
    reveal_strlit("ff-ff-ff-ff-ff-ff");
    reveal_strlit("ff:ff:ff:ff:ff:ff");
    reveal_strlit("incomplete");
    reveal_strlit("failed");
    reveal_strlit("no entry");
    reveal_strlit("permanent");
    assert("ff-ff-ff-ff-ff-ff"@ =~= seq!['f', 'f', '-', 'f', 'f', '-', 'f', 'f', '-', 'f', 'f', '-', 'f', 'f', '-', 'f', 'f']);
    assert("ff:ff:ff:ff:ff:ff"@ =~= seq!['f', 'f', ':', 'f', 'f', ':', 'f', 'f', ':', 'f', 'f', ':', 'f', 'f', ':', 'f', 'f']);
    assert("incomplete"@ =~= seq!['i', 'n', 'c', 'o', 'm', 'p', 'l', 'e', 't', 'e']);
    assert("failed"@ =~= seq!['f', 'a', 'i', 'l', 'e', 'd']);
    assert("no entry"@ =~= seq!['n', 'o', ' ', 'e', 'n', 't', 'r', 'y']);
    assert("permanent"@ =~= seq!['p', 'e', 'r', 'm', 'a', 'n', 'e', 'n', 't']);
}

/// A line with none of those markers names a real neighbour exactly when one
/// of its whitespace-separated tokens is written like a MAC address.
pub proof fn lemma_arp_line_accepts(line: Seq<char>)
    requires
        !contains(lower(line), "ff-ff-ff-ff-ff-ff"@),
        !contains(lower(line), "ff:ff:ff:ff:ff:ff"@),
        !contains(lower(line), "incomplete"@),
        !contains(lower(line), "failed"@),
        !contains(lower(line), "no entry"@),
        !contains(lower(line), "permanent"@),
    ensures
        arp_line_ok(line) <==> exists|i: int| 0 <= i < split_ws(line).len() && looks_like_mac(#[trigger] split_ws(line)[i]),
{
    lemma_arp_line_rejections(line);
    reveal_strlit("ff-ff-ff-ff-ff-ff");
    reveal_strlit("ff:ff:ff:ff:ff:ff");
    reveal_strlit("incomplete");
    reveal_strlit("failed");
    reveal_strlit("no entry");
    reveal_strlit("permanent");
    assert("ff-ff-ff-ff-ff-ff"@ =~= seq!['f', 'f', '-', 'f', 'f', '-', 'f', 'f', '-', 'f', 'f', '-', 'f', 'f', '-', 'f', 'f']);
    assert("ff:ff:ff:ff:ff:ff"@ =~= seq!['f', 'f', ':', 'f', 'f', ':', 'f', 'f', ':', 'f', 'f', ':', 'f', 'f', ':', 'f', 'f']);
    assert("incomplete"@ =~= seq!['i', 'n', 'c', 'o', 'm', 'p', 'l', 'e', 't', 'e']);
    assert("failed"@ =~= seq!['f', 'a', 'i', 'l', 'e', 'd']);
    assert("no entry"@ =~= seq!['n', 'o', ' ', 'e', 'n', 't', 'r', 'y']);
    assert("permanent"@ =~= seq!['p', 'e', 'r', 'm', 'a', 'n', 'e', 'n', 't']);
}

fn vec_of(s: &str) -> (r: Vec<char>)
    ensures
        r@ == s@,
{
    chars_of(s)
}

fn arp_line_ok_chars(line: &Vec<char>) -> (r: bool)
    ensures
        r == arp_line_ok(line@),
{
    let lower_line = to_lower(line);
    let markers: [&str; 6] = [
        "incomplete",
        "failed",
        "no entry",
        "permanent",
        "ff:ff:ff:ff:ff:ff",
        "ff-ff-ff-ff-ff-ff",
    ];
    proof {
        reveal_strlit("incomplete");
        reveal_strlit("failed");
        reveal_strlit("no entry");
        reveal_strlit("permanent");
        reveal_strlit("ff:ff:ff:ff:ff:ff");
        reveal_strlit("ff-ff-ff-ff-ff-ff");
    }
    let m0 = vec_of(markers[0]);
    let m1 = vec_of(markers[1]);
    let m2 = vec_of(markers[2]);
    let m3 = vec_of(markers[3]);
    let m4 = vec_of(markers[4]);
    let m5 = vec_of(markers[5]);
    assert(m0@ =~= seq!['i', 'n', 'c', 'o', 'm', 'p', 'l', 'e', 't', 'e']);
    assert(m1@ =~= seq!['f', 'a', 'i', 'l', 'e', 'd']);
    assert(m2@ =~= seq!['n', 'o', ' ', 'e', 'n', 't', 'r', 'y']);
    assert(m3@ =~= seq!['p', 'e', 'r', 'm', 'a', 'n', 'e', 'n', 't']);
    assert(m4@ =~= seq!['f', 'f', ':', 'f', 'f', ':', 'f', 'f', ':', 'f', 'f', ':', 'f', 'f', ':', 'f', 'f']);
    assert(m5@ =~= seq!['f', 'f', '-', 'f', 'f', '-', 'f', 'f', '-', 'f', 'f', '-', 'f', 'f', '-', 'f', 'f']);
    if contains_chars(&lower_line, &m0) || contains_chars(&lower_line, &m1) || contains_chars(
        &lower_line,
        &m2,
    ) || contains_chars(&lower_line, &m3) || contains_chars(&lower_line, &m4) || contains_chars(
        &lower_line,
        &m5,
    ) {
        return false;
    }
    let tokens = words_chars(line, CharClass::Whitespace);
    let mut i: usize = 0;
    while i < tokens.len()
        invariant
            i <= tokens.len(),
            views(tokens@) == split_ws(line@),
            !arp_line_rejected(lower(line@)),
            forall|j: int| 0 <= j < i ==> !looks_like_mac(#[trigger] split_ws(line@)[j]),
        decreases tokens.len() - i,
    {
        assert(views(tokens@)[i as int] == tokens@[i as int]@);
        if looks_like_mac_chars(&tokens[i]) {
            assert(looks_like_mac(split_ws(line@)[i as int]));
            return true;
        }
        i += 1;
    }
    false
}

/// Whether an ARP listing line names a real neighbour's MAC address.
pub fn arp_line_has_real_mac(line: &str) -> (r: bool)
    ensures
        r == arp_line_ok(line@),
{
    arp_line_ok_chars(&chars_of(line))
}

// ---------------------------------------------------------------------------
// Addresses found in text
// ---------------------------------------------------------------------------

/// The addresses among `tokens` that parse and are neither loopback nor unspecified.
pub open spec fn usable_ipv4s(tokens: Seq<Seq<char>>) -> Seq<u32>
    decreases tokens.len(),
{
    if tokens.len() == 0 {
        Seq::empty()
    } else {
        let rest = usable_ipv4s(tokens.drop_last());
        match parse_ipv4(tokens.last()) {
            Some(ip) => if !is_loopback(ip) && !is_unspecified(ip) {
                rest.push(ip)
            } else {
                rest
            },
            None => rest,
        }
    }
}

/// The usable addresses in `text`, whose tokens are separated by whitespace,
/// brackets or commas.
pub open spec fn ipv4s_in_text(text: Seq<char>) -> Seq<u32> {
    usable_ipv4s(split(text, CharClass::WhitespaceOrBrackets))
}

fn ipv4s_in_chars(text: &Vec<char>) -> (r: Vec<u32>)
    ensures
        r@ == ipv4s_in_text(text@),
{
    let tokens = split_chars(text, CharClass::WhitespaceOrBrackets);
    let mut r: Vec<u32> = Vec::new();
    for i in 0..tokens.len()
        invariant
            views(tokens@) == split(text@, CharClass::WhitespaceOrBrackets),
            r@ == usable_ipv4s(views(tokens@).take(i as int)),
    {
        assert(views(tokens@).take(i + 1).drop_last() =~= views(tokens@).take(i as int));
        assert(views(tokens@).take(i + 1).last() == tokens@[i as int]@);
        match parse_ipv4_chars(&tokens[i]) {
            Some(ip) => {
                if !loopback(ip) && !unspecified(ip) {
                    r.push(ip);
                }
            },
            None => {},
        }
    }
    assert(views(tokens@).take(tokens.len() as int) =~= views(tokens@));
    r
}

/// The usable IPv4 addresses that occur in `text`.
pub fn extract_ipv4s_from_text(text: &str) -> (r: Vec<u32>)
    ensures
        r@ == ipv4s_in_text(text@),
{
    ipv4s_in_chars(&chars_of(text))
}

// ---------------------------------------------------------------------------
// ARP cache entries
// ---------------------------------------------------------------------------

/// A neighbour seen in the ARP cache.
pub struct ArpHost {
    pub ip: u32,
    pub mac: String,
}

impl View for ArpHost {
    type V = (u32, Seq<char>);

    open spec fn view(&self) -> (u32, Seq<char>) {
        (self.ip, self.mac@)
    }
}

impl ArpHost {
    /// A copy of this entry.
    pub fn duplicate(&self) -> (r: ArpHost)
        ensures
            r@ == self@,
    {
        ArpHost { ip: self.ip, mac: self.mac.clone() }
    }
}

/// The views of a sequence of entries.
pub open spec fn host_views(s: Seq<ArpHost>) -> Seq<(u32, Seq<char>)> {
    s.map_values(|h: ArpHost| h@)
}

/// The entries one line contributes: every usable address on it, with the
/// line's first MAC address, if the line names a real neighbour.
pub open spec fn line_hosts(line: Seq<char>) -> Seq<(u32, Seq<char>)> {
    if arp_line_ok(line) {
        match first_mac(split_ws(line)) {
            Some(mac) => ipv4s_in_text(line).map_values(|ip: u32| (ip, mac)),
            None => Seq::empty(),
        }
    } else {
        Seq::empty()
    }
}

/// The entries of the listed lines, in order.
pub open spec fn hosts_of_lines(ls: Seq<Seq<char>>) -> Seq<(u32, Seq<char>)>
    decreases ls.len(),
{
    if ls.len() == 0 {
        Seq::empty()
    } else {
        hosts_of_lines(ls.drop_last()) + line_hosts(ls.last())
    }
}

/// The entries of an ARP listing.
pub open spec fn arp_hosts_in(text: Seq<char>) -> Seq<(u32, Seq<char>)> {
    hosts_of_lines(lines(text))
}

/// The neighbours named in an ARP listing, line by line.
pub fn extract_valid_arp_hosts(text: &str) -> (hosts: Vec<ArpHost>)
    ensures
        host_views(hosts@) == arp_hosts_in(text@),
{
    let all = lines_chars(&chars_of(text));
    let mut hosts: Vec<ArpHost> = Vec::new();
    for i in 0..all.len()
        invariant
            views(all@) == lines(text@),
            host_views(hosts@) == hosts_of_lines(views(all@).take(i as int)),
    {
        let line = &all[i];
        assert(views(all@).take(i + 1).drop_last() =~= views(all@).take(i as int));
        assert(views(all@).take(i + 1).last() == line@);
        let ghost before = host_views(hosts@);
        if arp_line_ok_chars(line) {
            match first_mac_chars(line) {
                Some(mac) => {
                    let mac_text = string_of(&mac);
                    let ips = ipv4s_in_chars(line);
                    for k in 0..ips.len()
                        invariant
                            host_views(hosts@) == before + ips@.take(k as int).map_values(
                                |ip: u32| (ip, mac@),
                            ),
                            mac_text@ == mac@,
                    {
                        let ghost prev = host_views(hosts@);
                        let entry = ArpHost { ip: ips[k], mac: mac_text.clone() };
                        assert(entry@ == (ips@[k as int], mac@));
                        hosts.push(entry);
                        assert(host_views(hosts@) =~= prev.push((ips@[k as int], mac@)));
                        assert(ips@.take(k + 1) =~= ips@.take(k as int).push(ips@[k as int]));
                        assert(host_views(hosts@) =~= before + ips@.take(k + 1).map_values(
                            |ip: u32| (ip, mac@),
                        ));
                    }
                    assert(ips@.take(ips.len() as int) =~= ips@);
                },
                None => {
                    assert(host_views(hosts@) =~= before + line_hosts(line@));
                },
            }
        } else {
            assert(host_views(hosts@) =~= before + line_hosts(line@));
        }
    }
    assert(views(all@).take(all.len() as int) =~= views(all@));
    hosts
}

/// `arp -a`: the ARP cache listing.
pub fn arp_command() -> (c: CommandSpec)
    ensures
        command_view(c) == ("arp"@, seq!["-a"@], OutputMode::SuccessfulStdout),
{
    let mut args: Vec<String> = Vec::new();
    args.push(text_of("-a"));
    assert(arg_views(args@) =~= seq!["-a"@]);
    command("arp", args, OutputMode::SuccessfulStdout)
}

/// The first entry for each address, in order of first appearance.
pub open spec fn first_per_ip(s: Seq<(u32, Seq<char>)>) -> Seq<(u32, Seq<char>)>
    decreases s.len(),
{
    if s.len() == 0 {
        Seq::empty()
    } else {
        let rest = first_per_ip(s.drop_last());
        if exists|i: int| 0 <= i < s.len() - 1 && (#[trigger] s[i]).0 == s.last().0 {
            rest
        } else {
            rest.push(s.last())
        }
    }
}

/// Each address occurs at most once among the first entries, and each of
/// them is an entry of the listing.
pub proof fn lemma_first_per_ip_unique(s: Seq<(u32, Seq<char>)>)
    ensures
        forall|i: int, j: int| 0 <= i < j < first_per_ip(s).len() ==> (#[trigger] first_per_ip(s)[i]).0
            != (#[trigger] first_per_ip(s)[j]).0,
        forall|k: int| 0 <= k < first_per_ip(s).len() ==> s.contains(#[trigger] first_per_ip(s)[k]),
    decreases s.len(),
{
    if s.len() > 0 {
        let prev = s.drop_last();
        lemma_first_per_ip_unique(prev);
        let rest = first_per_ip(prev);
        assert forall|k: int| 0 <= k < rest.len() implies s.contains(#[trigger] rest[k]) by {
            let w = choose|w: int| 0 <= w < prev.len() && prev[w] == rest[k];
            assert(s[w] == rest[k]);
        }
        if !(exists|i: int| 0 <= i < s.len() - 1 && (#[trigger] s[i]).0 == s.last().0) {
            let out = rest.push(s.last());
            assert forall|k: int| 0 <= k < rest.len() implies (#[trigger] rest[k]).0 != s.last().0 by {
                let w = choose|w: int| 0 <= w < prev.len() && prev[w] == rest[k];
                assert(s[w] == rest[k]);
            }
            assert(out[rest.len() as int] == s.last());
            assert(s.contains(s.last())) by {
                assert(s[s.len() - 1] == s.last());
            }
            assert forall|i: int, j: int| 0 <= i < j < out.len() implies (#[trigger] out[i]).0 != (#[trigger] out[j]).0 by {
                if j < rest.len() {
                    assert(out[i] == rest[i] && out[j] == rest[j]);
                } else {
                    assert(out[i] == rest[i]);
                }
            }
            assert forall|k: int| 0 <= k < out.len() implies s.contains(#[trigger] out[k]) by {
                if k < rest.len() {
                    assert(out[k] == rest[k]);
                }
            }
        }
    }
}

/// The entries of the ARP listing (the output of `arp -a`, if it ran), the
/// first for each address kept, in the listing's order.
pub fn get_arp_cache_hosts(arp_output: Option<String>) -> (hosts: Vec<ArpHost>)
    ensures
        arp_output matches Some(text) ==> host_views(hosts@) == first_per_ip(arp_hosts_in(text@)),
        arp_output is None ==> hosts@.len() == 0,
{
    let mut hosts: Vec<ArpHost> = Vec::new();
    match arp_output {
        Some(text) => {
            let all = extract_valid_arp_hosts(text.as_str());
            let ghost src = host_views(all@);
            let mut seen: BTreeSet<u32> = BTreeSet::new();
            for i in 0..all.len()
                invariant
                    src == host_views(all@),
                    host_views(hosts@) == first_per_ip(src.take(i as int)),
                    forall|ip: u32| #[trigger] seen@.contains(ip) <==> exists|j: int|
                        0 <= j < i && (#[trigger] src[j]).0 == ip,
            {
                let h = &all[i];
                assert(src.take(i + 1).drop_last() =~= src.take(i as int));
                assert(src.take(i + 1).last() == h@);
                let fresh = seen.insert(h.ip);
                if fresh {
                    assert(!exists|j: int| 0 <= j < i && (#[trigger] src.take(i + 1)[j]).0 == h.ip) by {
                        if exists|j: int| 0 <= j < i && (#[trigger] src.take(i + 1)[j]).0 == h.ip {
                            let j = choose|j: int| 0 <= j < i && (#[trigger] src.take(i + 1)[j]).0 == h.ip;
                            assert(src[j].0 == h.ip);
                        }
                    }
                    hosts.push(h.duplicate());
                    assert(host_views(hosts@) =~= first_per_ip(src.take(i + 1)));
                } else {
                    proof {
                        let j = choose|j: int| 0 <= j < i && (#[trigger] src[j]).0 == h.ip;
                        assert(src.take(i + 1)[j].0 == h.ip);
                        assert(host_views(hosts@) =~= first_per_ip(src.take(i + 1)));
                    }
                }
                assert forall|ip: u32| #[trigger] seen@.contains(ip) <==> exists|j: int|
                    0 <= j < i + 1 && (#[trigger] src[j]).0 == ip by {
                    if ip == h.ip {
                        assert(src[i as int].0 == ip);
                    }
                }
            }
            assert(src.take(all.len() as int) =~= src);
        },
        None => {},
    }
    hosts
}

/// Whether `ip` is one of the target addresses.
pub fn ipv4_in_target(ip: u32, target_hosts: &Vec<u32>) -> (r: bool)
    ensures
        r == target_hosts@.contains(ip),
{
    let mut i: usize = 0;
    while i < target_hosts.len()
        invariant
            i <= target_hosts.len(),
            forall|j: int| 0 <= j < i ==> target_hosts@[j] != ip,
        decreases target_hosts.len() - i,
    {
        if target_hosts[i] == ip {
            return true;
        }
        i += 1;
    }
    false
}

/// The number of entries whose address is a target.
pub open spec fn count_in_target(s: Seq<ArpHost>, targets: Seq<u32>) -> nat
    decreases s.len(),
{
    if s.len() == 0 {
        0
    } else {
        count_in_target(s.drop_last(), targets) + if targets.contains(s.last().ip) {
            1nat
        } else {
            0nat
        }
    }
}

/// How many ARP entries name a target address.
pub fn count_arp_hosts_in_target(arp_hosts: &Vec<ArpHost>, target_hosts: &Vec<u32>) -> (n: usize)
    ensures
        n == count_in_target(arp_hosts@, target_hosts@),
{
    let mut n: usize = 0;
    for i in 0..arp_hosts.len()
        invariant
            n == count_in_target(arp_hosts@.take(i as int), target_hosts@),
            n <= i,
    {
        assert(arp_hosts@.take(i + 1).drop_last() =~= arp_hosts@.take(i as int));
        if ipv4_in_target(arp_hosts[i].ip, target_hosts) {
            n += 1;
        }
    }
    assert(arp_hosts@.take(arp_hosts.len() as int) =~= arp_hosts@);
    n
}

/// The first entry with address `ip` among those in the targets, if any.
pub open spec fn first_with_ip(s: Seq<ArpHost>, targets: Seq<u32>, ip: u32) -> Option<(u32, Seq<char>)>
    decreases s.len(),
{
    if s.len() == 0 {
        None
    } else if s[0].ip == ip && targets.contains(ip) {
        Some(s[0]@)
    } else {
        first_with_ip(s.drop_first(), targets, ip)
    }
}

/// Each target address seen in the ARP cache, with its first entry.
pub fn arp_host_map(arp_hosts: &Vec<ArpHost>, target_hosts: &Vec<u32>) -> (map: BTreeMap<u32, ArpHost>)
    ensures
        forall|ip: u32| #[trigger] map@.contains_key(ip) <==> first_with_ip(arp_hosts@, target_hosts@, ip) is Some,
        forall|ip: u32| #[trigger] map@.contains_key(ip) ==> Some(map@[ip]@) == first_with_ip(arp_hosts@, target_hosts@, ip),
{
    let mut map: BTreeMap<u32, ArpHost> = BTreeMap::new();
    for i in 0..arp_hosts.len()
        invariant
            forall|ip: u32| #[trigger] map@.contains_key(ip) <==> first_with_ip(arp_hosts@.take(i as int), target_hosts@, ip) is Some,
            forall|ip: u32| #[trigger] map@.contains_key(ip) ==> Some(map@[ip]@) == first_with_ip(arp_hosts@.take(i as int), target_hosts@, ip),
    {
        let host = &arp_hosts[i];
        proof {
            assert forall|ip: u32| first_with_ip(arp_hosts@.take(i as int), target_hosts@, ip) is Some
                implies #[trigger] first_with_ip(arp_hosts@.take(i + 1), target_hosts@, ip) == first_with_ip(arp_hosts@.take(i as int), target_hosts@, ip) by {
                lemma_first_with_ip_extend(arp_hosts@, target_hosts@, ip, i as int);
            }
            assert forall|ip: u32| first_with_ip(arp_hosts@.take(i as int), target_hosts@, ip) is None
                implies #[trigger] first_with_ip(arp_hosts@.take(i + 1), target_hosts@, ip) == (if arp_hosts@[i as int].ip == ip && target_hosts@.contains(ip) { Some(arp_hosts@[i as int]@) } else { None }) by {
                lemma_first_with_ip_extend(arp_hosts@, target_hosts@, ip, i as int);
            }
        }
        if ipv4_in_target(host.ip, target_hosts) {
            if !map.contains_key(&host.ip) {
                map.insert(host.ip, host.duplicate());
            }
        }
    }
    assert(arp_hosts@.take(arp_hosts.len() as int) =~= arp_hosts@);
    map
}

proof fn lemma_first_with_ip_extend(s: Seq<ArpHost>, targets: Seq<u32>, ip: u32, i: int)
    requires
        0 <= i < s.len(),
    ensures
        first_with_ip(s.take(i), targets, ip) is Some ==> first_with_ip(s.take(i + 1), targets, ip)
            == first_with_ip(s.take(i), targets, ip),
        first_with_ip(s.take(i), targets, ip) is None ==> first_with_ip(s.take(i + 1), targets, ip)
            == (if s[i].ip == ip && targets.contains(ip) {
            Some(s[i]@)
        } else {
            None
        }),
    decreases i,
{
    if i == 0 {
        assert(s.take(0).len() == 0);
        assert(s.take(1).drop_first() =~= Seq::<ArpHost>::empty());
        assert(s.take(1)[0] == s[0]);
    } else {
        assert(s.take(i + 1).drop_first() =~= s.drop_first().take(i));
        assert(s.take(i).drop_first() =~= s.drop_first().take(i - 1));
        lemma_first_with_ip_extend(s.drop_first(), targets, ip, i - 1);
    }
}

// ---------------------------------------------------------------------------
// Vendor and address type
// ---------------------------------------------------------------------------

/// The maker that an address prefix (OUI) hints at.
#[derive(Clone, Copy, PartialEq, Eq, Structural, Debug)]
pub enum Vendor {
    Apple,
    AvmFritzBox,
    Dell,
    HewlettPackard,
    Samsung,
    TpLink,
    DLink,
    MicrosoftHyperV,
    VMware,
    VirtualBox,
    Parallels,
    Unknown,
}

impl Vendor {
    pub open spec fn text(self) -> Seq<char> {
        match self {
            Vendor::Apple => "Apple"@,
            Vendor::AvmFritzBox => "AVM / FRITZ!Box"@,
            Vendor::Dell => "Dell"@,
            Vendor::HewlettPackard => "Hewlett Packard"@,
            Vendor::Samsung => "Samsung"@,
            Vendor::TpLink => "TP-Link"@,
            Vendor::DLink => "D-Link"@,
            Vendor::MicrosoftHyperV => "Microsoft Hyper-V"@,
            Vendor::VMware => "VMware"@,
            Vendor::VirtualBox => "VirtualBox"@,
            Vendor::Parallels => "Parallels"@,
            Vendor::Unknown => "unknown"@,
        }
    }

    /// The name written in reports.
    pub fn as_str(&self) -> (s: &'static str)
        ensures
            s@ == self.text(),
    {
        match self {
            Vendor::Apple => "Apple",
            Vendor::AvmFritzBox => "AVM / FRITZ!Box",
            Vendor::Dell => "Dell",
            Vendor::HewlettPackard => "Hewlett Packard",
            Vendor::Samsung => "Samsung",
            Vendor::TpLink => "TP-Link",
            Vendor::DLink => "D-Link",
            Vendor::MicrosoftHyperV => "Microsoft Hyper-V",
            Vendor::VMware => "VMware",
            Vendor::VirtualBox => "VirtualBox",
            Vendor::Parallels => "Parallels",
            Vendor::Unknown => "unknown",
        }
    }
}

/// The vendor known for a 24-bit OUI.
pub open spec fn vendor_of_oui(oui: u32) -> Vendor {
    match oui {
        0x000393 | 0x000502 | 0x000a27 | 0x000a95 | 0x000d93 | 0x001124 | 0x001451 | 0x0016cb
        | 0x0017f2 | 0x0019e3 | 0x001b63 | 0x001cb3 | 0x001d4f | 0x001e52 | 0x001ec2 | 0x001f5b
        | 0x001ff3 | 0x0021e9 | 0x002241 | 0x002312 | 0x002332 | 0x00236c | 0x0023df | 0x002436
        | 0x002500 | 0x00254b | 0x0025bc | 0x002608 | 0x00264a | 0x0026b0 | 0x040cce | 0x041552
        | 0x041e64 | 0x042665 | 0x04489a | 0x0452f3 | 0x045453 | 0x0469f8 | 0x04db56 | 0x04e536
        | 0x080007 | 0x086698 | 0x087045 | 0x0c3021 | 0x0c3e9f | 0x1040f3 | 0x1093e9 | 0x14109f
        | 0x145a05 | 0x183451 | 0x186590 | 0x18af61 | 0x20ab37 | 0x24a074 | 0x28cfe9 | 0x28e02c
        | 0x2c5491 | 0x34159e | 0x38cada | 0x3c0754 | 0x403004 | 0x440010 | 0x4860bc | 0x4c8d79
        | 0x5c95ae | 0x600308 | 0x64b9e8 | 0x685b35 | 0x705681 | 0x7831c1 | 0x7c04d0 | 0x80be05
        | 0x843835 | 0x8863df | 0x8c8590 | 0x90b21f | 0x9801a7 | 0xa45e60 | 0xa8667f | 0xacbc32
        | 0xb817c2 | 0xc09f42 | 0xc82a14 | 0xcc08e0 | 0xd023db | 0xd83062 | 0xdca904 | 0xe0accb
        | 0xe8802e | 0xf01898 | 0xf431c3 => Vendor::Apple,
        0x001a11 | 0x001d60 | 0x0024fe | 0x0896d7 | 0x246511 | 0x3431c4 | 0x3810d5 | 0x444e6d
        | 0x4c09d4 | 0x5c4979 | 0x74427f | 0x9cc7a6 | 0xbc0543 | 0xc80e14 | 0xccce1e => Vendor::AvmFritzBox,
        0x001422 | 0x001b21 | 0x002219 | 0x3c970e | 0x448a5b | 0x581122 | 0x782bcb | 0x847beb
        | 0xa4bb6d | 0xb8ca3a | 0xd4bed9 | 0xf8bc12 => Vendor::Dell,
        0x001a4b | 0x001e65 | 0x0025b3 | 0x3cd92b | 0x4437e6 | 0x6c8814 | 0x705a0f | 0x801934
        | 0xa088b4 | 0xb4b52f | 0xc8cbb8 | 0xec8eb5 => Vendor::HewlettPackard,
        0x00166f | 0x0019e0 | 0x00215c | 0x00234d | 0x00265e | 0x281878 | 0x3497f6 | 0x446d57
        | 0x503eaa | 0x60f262 | 0x98fa9b | 0xc8f733 | 0xd8cb8a => Vendor::Samsung,
        0x18d6c7 | 0x20dfb9 | 0x30b5c2 | 0x50c7bf | 0x68ff7b | 0x74da38 | 0x98ded0 | 0xa0f3c1
        | 0xb0be76 | 0xc025e9 | 0xe894f6 | 0xf4f5d8 => Vendor::TpLink,
        0x001e58 | 0x002275 | 0x002618 | 0x083e8e | 0x20e882 | 0x286c07 | 0x50642b | 0x704f57
        | 0x84c7ea | 0xac84c6 | 0xc42c03 | 0xf81a67 => Vendor::DLink,
        0x00155d => Vendor::MicrosoftHyperV,
        0x000569 | 0x000c29 | 0x001c14 | 0x005056 => Vendor::VMware,
        0x080027 => Vendor::VirtualBox,
        0x001c42 => Vendor::Parallels,
        _ => Vendor::Unknown,
    }
}

/// The vendor known for a 24-bit OUI.
pub fn vendor_for_oui(oui: u32) -> (v: Vendor)
    ensures
        v == vendor_of_oui(oui),
{
    match oui {
        0x000393 | 0x000502 | 0x000a27 | 0x000a95 | 0x000d93 | 0x001124 | 0x001451 | 0x0016cb
        | 0x0017f2 | 0x0019e3 | 0x001b63 | 0x001cb3 | 0x001d4f | 0x001e52 | 0x001ec2 | 0x001f5b
        | 0x001ff3 | 0x0021e9 | 0x002241 | 0x002312 | 0x002332 | 0x00236c | 0x0023df | 0x002436
        | 0x002500 | 0x00254b | 0x0025bc | 0x002608 | 0x00264a | 0x0026b0 | 0x040cce | 0x041552
        | 0x041e64 | 0x042665 | 0x04489a | 0x0452f3 | 0x045453 | 0x0469f8 | 0x04db56 | 0x04e536
        | 0x080007 | 0x086698 | 0x087045 | 0x0c3021 | 0x0c3e9f | 0x1040f3 | 0x1093e9 | 0x14109f
        | 0x145a05 | 0x183451 | 0x186590 | 0x18af61 | 0x20ab37 | 0x24a074 | 0x28cfe9 | 0x28e02c
        | 0x2c5491 | 0x34159e | 0x38cada | 0x3c0754 | 0x403004 | 0x440010 | 0x4860bc | 0x4c8d79
        | 0x5c95ae | 0x600308 | 0x64b9e8 | 0x685b35 | 0x705681 | 0x7831c1 | 0x7c04d0 | 0x80be05
        | 0x843835 | 0x8863df | 0x8c8590 | 0x90b21f | 0x9801a7 | 0xa45e60 | 0xa8667f | 0xacbc32
        | 0xb817c2 | 0xc09f42 | 0xc82a14 | 0xcc08e0 | 0xd023db | 0xd83062 | 0xdca904 | 0xe0accb
        | 0xe8802e | 0xf01898 | 0xf431c3 => Vendor::Apple,
        0x001a11 | 0x001d60 | 0x0024fe | 0x0896d7 | 0x246511 | 0x3431c4 | 0x3810d5 | 0x444e6d
        | 0x4c09d4 | 0x5c4979 | 0x74427f | 0x9cc7a6 | 0xbc0543 | 0xc80e14 | 0xccce1e => Vendor::AvmFritzBox,
        0x001422 | 0x001b21 | 0x002219 | 0x3c970e | 0x448a5b | 0x581122 | 0x782bcb | 0x847beb
        | 0xa4bb6d | 0xb8ca3a | 0xd4bed9 | 0xf8bc12 => Vendor::Dell,
        0x001a4b | 0x001e65 | 0x0025b3 | 0x3cd92b | 0x4437e6 | 0x6c8814 | 0x705a0f | 0x801934
        | 0xa088b4 | 0xb4b52f | 0xc8cbb8 | 0xec8eb5 => Vendor::HewlettPackard,
        0x00166f | 0x0019e0 | 0x00215c | 0x00234d | 0x00265e | 0x281878 | 0x3497f6 | 0x446d57
        | 0x503eaa | 0x60f262 | 0x98fa9b | 0xc8f733 | 0xd8cb8a => Vendor::Samsung,
        0x18d6c7 | 0x20dfb9 | 0x30b5c2 | 0x50c7bf | 0x68ff7b | 0x74da38 | 0x98ded0 | 0xa0f3c1
        | 0xb0be76 | 0xc025e9 | 0xe894f6 | 0xf4f5d8 => Vendor::TpLink,
        0x001e58 | 0x002275 | 0x002618 | 0x083e8e | 0x20e882 | 0x286c07 | 0x50642b | 0x704f57
        | 0x84c7ea | 0xac84c6 | 0xc42c03 | 0xf81a67 => Vendor::DLink,
        0x00155d => Vendor::MicrosoftHyperV,
        0x000569 | 0x000c29 | 0x001c14 | 0x005056 => Vendor::VMware,
        0x080027 => Vendor::VirtualBox,
        0x001c42 => Vendor::Parallels,
        _ => Vendor::Unknown,
    }
}

/// A lowercase hexadecimal digit.
pub open spec fn is_lower_hex(c: char) -> bool {
    ('0' <= c && c <= '9') || ('a' <= c && c <= 'f')
}

/// `xx:xx:xx` in lowercase hexadecimal, read as a 24-bit number.
pub open spec fn oui_of(p: Seq<char>) -> Option<u32> {
    if p.len() == 8 && p[2] == ':' && p[5] == ':' && is_lower_hex(p[0]) && is_lower_hex(p[1])
        && is_lower_hex(p[3]) && is_lower_hex(p[4]) && is_lower_hex(p[6]) && is_lower_hex(p[7]) {
        Some(
            ((digit_of(p[0], 16)->0) * 0x10_0000 + (digit_of(p[1], 16)->0) * 0x1_0000 + (digit_of(
                p[3],
                16,
            )->0) * 0x1000 + (digit_of(p[4], 16)->0) * 0x100 + (digit_of(p[6], 16)->0) * 0x10
                + (digit_of(p[7], 16)->0)) as u32,
        )
    } else {
        None
    }
}

/// The vendor hinted by the first eight characters of a normalised MAC address.
pub open spec fn vendor_of_mac(mac: Seq<char>) -> Vendor {
    if mac.len() >= 8 {
        match oui_of(mac.take(8)) {
            Some(oui) => vendor_of_oui(oui),
            None => Vendor::Unknown,
        }
    } else {
        Vendor::Unknown
    }
}

fn lower_hex_digit(c: char) -> (r: Option<u32>)
    ensures
        r matches Some(d) ==> is_lower_hex(c) && digit_of(c, 16) == Some(d as nat) && d < 16,
        r is None ==> !is_lower_hex(c),
{
    if ('0' <= c && c <= '9') || ('a' <= c && c <= 'f') {
        digit_exec(c, 16)
    } else {
        None
    }
}

/// The vendor that the MAC address prefix hints at (best effort).
pub fn vendor_hint(mac: &str) -> (v: Vendor)
    ensures
        v == vendor_of_mac(mac@),
{
    let m = chars_of(mac);
    if m.len() < 8 {
        return Vendor::Unknown;
    }
    let p = copy_range(&m, 0, 8);
    assert(p@ =~= m@.take(8));
    if p[2] != ':' || p[5] != ':' {
        return Vendor::Unknown;
    }
    match (
        lower_hex_digit(p[0]),
        lower_hex_digit(p[1]),
        lower_hex_digit(p[3]),
        lower_hex_digit(p[4]),
        lower_hex_digit(p[6]),
        lower_hex_digit(p[7]),
    ) {
        (Some(a), Some(b), Some(c), Some(d), Some(e), Some(f)) => {
            let oui = a * 0x10_0000 + b * 0x1_0000 + c * 0x1000 + d * 0x100 + e * 0x10 + f;
            vendor_for_oui(oui)
        },
        _ => Vendor::Unknown,
    }
}

/// MAC addresses that begin with these Apple prefixes (00:03:93 to 00:23:df) are
/// attributed to Apple.
#[verifier::spinoff_prover]
#[verifier::rlimit(60)]
pub proof fn lemma_apple_prefixes_a(mac: Seq<char>)
    ensures
        "00:03:93"@.is_prefix_of(mac) ==> vendor_of_mac(mac) == Vendor::Apple,
        "00:05:02"@.is_prefix_of(mac) ==> vendor_of_mac(mac) == Vendor::Apple,
        "00:0a:27"@.is_prefix_of(mac) ==> vendor_of_mac(mac) == Vendor::Apple,
        "00:0a:95"@.is_prefix_of(mac) ==> vendor_of_mac(mac) == Vendor::Apple,
        "00:0d:93"@.is_prefix_of(mac) ==> vendor_of_mac(mac) == Vendor::Apple,
        "00:11:24"@.is_prefix_of(mac) ==> vendor_of_mac(mac) == Vendor::Apple,
        "00:14:51"@.is_prefix_of(mac) ==> vendor_of_mac(mac) == Vendor::Apple,
        "00:16:cb"@.is_prefix_of(mac) ==> vendor_of_mac(mac) == Vendor::Apple,
        "00:17:f2"@.is_prefix_of(mac) ==> vendor_of_mac(mac) == Vendor::Apple,
        "00:19:e3"@.is_prefix_of(mac) ==> vendor_of_mac(mac) == Vendor::Apple,
        "00:1b:63"@.is_prefix_of(mac) ==> vendor_of_mac(mac) == Vendor::Apple,
        "00:1c:b3"@.is_prefix_of(mac) ==> vendor_of_mac(mac) == Vendor::Apple,
        "00:1d:4f"@.is_prefix_of(mac) ==> vendor_of_mac(mac) == Vendor::Apple,
        "00:1e:52"@.is_prefix_of(mac) ==> vendor_of_mac(mac) == Vendor::Apple,
        "00:1e:c2"@.is_prefix_of(mac) ==> vendor_of_mac(mac) == Vendor::Apple,
        "00:1f:5b"@.is_prefix_of(mac) ==> vendor_of_mac(mac) == Vendor::Apple,
        "00:1f:f3"@.is_prefix_of(mac) ==> vendor_of_mac(mac) == Vendor::Apple,
        "00:21:e9"@.is_prefix_of(mac) ==> vendor_of_mac(mac) == Vendor::Apple,
        "00:22:41"@.is_prefix_of(mac) ==> vendor_of_mac(mac) == Vendor::Apple,
        "00:23:12"@.is_prefix_of(mac) ==> vendor_of_mac(mac) == Vendor::Apple,
        "00:23:32"@.is_prefix_of(mac) ==> vendor_of_mac(mac) == Vendor::Apple,
        "00:23:6c"@.is_prefix_of(mac) ==> vendor_of_mac(mac) == Vendor::Apple,
        "00:23:df"@.is_prefix_of(mac) ==> vendor_of_mac(mac) == Vendor::Apple,
{
    reveal_strlit("00:03:93");
    reveal_strlit("00:05:02");
    reveal_strlit("00:0a:27");
    reveal_strlit("00:0a:95");
    reveal_strlit("00:0d:93");
    reveal_strlit("00:11:24");
    reveal_strlit("00:14:51");
    reveal_strlit("00:16:cb");
    reveal_strlit("00:17:f2");
    reveal_strlit("00:19:e3");
    reveal_strlit("00:1b:63");
    reveal_strlit("00:1c:b3");
    reveal_strlit("00:1d:4f");
    reveal_strlit("00:1e:52");
    reveal_strlit("00:1e:c2");
    reveal_strlit("00:1f:5b");
    reveal_strlit("00:1f:f3");
    reveal_strlit("00:21:e9");
    reveal_strlit("00:22:41");
    reveal_strlit("00:23:12");
    reveal_strlit("00:23:32");
    reveal_strlit("00:23:6c");
    reveal_strlit("00:23:df");
}

/// MAC addresses that begin with these Apple prefixes (00:24:36 to 10:40:f3) are
/// attributed to Apple.
#[verifier::spinoff_prover]
#[verifier::rlimit(60)]
pub proof fn lemma_apple_prefixes_b(mac: Seq<char>)
    ensures
        "00:24:36"@.is_prefix_of(mac) ==> vendor_of_mac(mac) == Vendor::Apple,
        "00:25:00"@.is_prefix_of(mac) ==> vendor_of_mac(mac) == Vendor::Apple,
        "00:25:4b"@.is_prefix_of(mac) ==> vendor_of_mac(mac) == Vendor::Apple,
        "00:25:bc"@.is_prefix_of(mac) ==> vendor_of_mac(mac) == Vendor::Apple,
        "00:26:08"@.is_prefix_of(mac) ==> vendor_of_mac(mac) == Vendor::Apple,
        "00:26:4a"@.is_prefix_of(mac) ==> vendor_of_mac(mac) == Vendor::Apple,
        "00:26:b0"@.is_prefix_of(mac) ==> vendor_of_mac(mac) == Vendor::Apple,
        "04:0c:ce"@.is_prefix_of(mac) ==> vendor_of_mac(mac) == Vendor::Apple,
        "04:15:52"@.is_prefix_of(mac) ==> vendor_of_mac(mac) == Vendor::Apple,
        "04:1e:64"@.is_prefix_of(mac) ==> vendor_of_mac(mac) == Vendor::Apple,
        "04:26:65"@.is_prefix_of(mac) ==> vendor_of_mac(mac) == Vendor::Apple,
        "04:48:9a"@.is_prefix_of(mac) ==> vendor_of_mac(mac) == Vendor::Apple,
        "04:52:f3"@.is_prefix_of(mac) ==> vendor_of_mac(mac) == Vendor::Apple,
        "04:54:53"@.is_prefix_of(mac) ==> vendor_of_mac(mac) == Vendor::Apple,
        "04:69:f8"@.is_prefix_of(mac) ==> vendor_of_mac(mac) == Vendor::Apple,
        "04:db:56"@.is_prefix_of(mac) ==> vendor_of_mac(mac) == Vendor::Apple,
        "04:e5:36"@.is_prefix_of(mac) ==> vendor_of_mac(mac) == Vendor::Apple,
        "08:00:07"@.is_prefix_of(mac) ==> vendor_of_mac(mac) == Vendor::Apple,
        "08:66:98"@.is_prefix_of(mac) ==> vendor_of_mac(mac) == Vendor::Apple,
        "08:70:45"@.is_prefix_of(mac) ==> vendor_of_mac(mac) == Vendor::Apple,
        "0c:30:21"@.is_prefix_of(mac) ==> vendor_of_mac(mac) == Vendor::Apple,
        "0c:3e:9f"@.is_prefix_of(mac) ==> vendor_of_mac(mac) == Vendor::Apple,
        "10:40:f3"@.is_prefix_of(mac) ==> vendor_of_mac(mac) == Vendor::Apple,
{
    reveal_strlit("00:24:36");
    reveal_strlit("00:25:00");
    reveal_strlit("00:25:4b");
    reveal_strlit("00:25:bc");
    reveal_strlit("00:26:08");
    reveal_strlit("00:26:4a");
    reveal_strlit("00:26:b0");
    reveal_strlit("04:0c:ce");
    reveal_strlit("04:15:52");
    reveal_strlit("04:1e:64");
    reveal_strlit("04:26:65");
    reveal_strlit("04:48:9a");
    reveal_strlit("04:52:f3");
    reveal_strlit("04:54:53");
    reveal_strlit("04:69:f8");
    reveal_strlit("04:db:56");
    reveal_strlit("04:e5:36");
    reveal_strlit("08:00:07");
    reveal_strlit("08:66:98");
    reveal_strlit("08:70:45");
    reveal_strlit("0c:30:21");
    reveal_strlit("0c:3e:9f");
    reveal_strlit("10:40:f3");
}

/// MAC addresses that begin with these Apple prefixes (10:93:e9 to 70:56:81) are
/// attributed to Apple.
#[verifier::spinoff_prover]
#[verifier::rlimit(60)]
pub proof fn lemma_apple_prefixes_c(mac: Seq<char>)
    ensures
        "10:93:e9"@.is_prefix_of(mac) ==> vendor_of_mac(mac) == Vendor::Apple,
        "14:10:9f"@.is_prefix_of(mac) ==> vendor_of_mac(mac) == Vendor::Apple,
        "14:5a:05"@.is_prefix_of(mac) ==> vendor_of_mac(mac) == Vendor::Apple,
        "18:34:51"@.is_prefix_of(mac) ==> vendor_of_mac(mac) == Vendor::Apple,
        "18:65:90"@.is_prefix_of(mac) ==> vendor_of_mac(mac) == Vendor::Apple,
        "18:af:61"@.is_prefix_of(mac) ==> vendor_of_mac(mac) == Vendor::Apple,
        "20:ab:37"@.is_prefix_of(mac) ==> vendor_of_mac(mac) == Vendor::Apple,
        "24:a0:74"@.is_prefix_of(mac) ==> vendor_of_mac(mac) == Vendor::Apple,
        "28:cf:e9"@.is_prefix_of(mac) ==> vendor_of_mac(mac) == Vendor::Apple,
        "28:e0:2c"@.is_prefix_of(mac) ==> vendor_of_mac(mac) == Vendor::Apple,
        "2c:54:91"@.is_prefix_of(mac) ==> vendor_of_mac(mac) == Vendor::Apple,
        "34:15:9e"@.is_prefix_of(mac) ==> vendor_of_mac(mac) == Vendor::Apple,
        "38:ca:da"@.is_prefix_of(mac) ==> vendor_of_mac(mac) == Vendor::Apple,
        "3c:07:54"@.is_prefix_of(mac) ==> vendor_of_mac(mac) == Vendor::Apple,
        "40:30:04"@.is_prefix_of(mac) ==> vendor_of_mac(mac) == Vendor::Apple,
        "44:00:10"@.is_prefix_of(mac) ==> vendor_of_mac(mac) == Vendor::Apple,
        "48:60:bc"@.is_prefix_of(mac) ==> vendor_of_mac(mac) == Vendor::Apple,
        "4c:8d:79"@.is_prefix_of(mac) ==> vendor_of_mac(mac) == Vendor::Apple,
        "5c:95:ae"@.is_prefix_of(mac) ==> vendor_of_mac(mac) == Vendor::Apple,
        "60:03:08"@.is_prefix_of(mac) ==> vendor_of_mac(mac) == Vendor::Apple,
        "64:b9:e8"@.is_prefix_of(mac) ==> vendor_of_mac(mac) == Vendor::Apple,
        "68:5b:35"@.is_prefix_of(mac) ==> vendor_of_mac(mac) == Vendor::Apple,
        "70:56:81"@.is_prefix_of(mac) ==> vendor_of_mac(mac) == Vendor::Apple,
{
    reveal_strlit("10:93:e9");
    reveal_strlit("14:10:9f");
    reveal_strlit("14:5a:05");
    reveal_strlit("18:34:51");
    reveal_strlit("18:65:90");
    reveal_strlit("18:af:61");
    reveal_strlit("20:ab:37");
    reveal_strlit("24:a0:74");
    reveal_strlit("28:cf:e9");
    reveal_strlit("28:e0:2c");
    reveal_strlit("2c:54:91");
    reveal_strlit("34:15:9e");
    reveal_strlit("38:ca:da");
    reveal_strlit("3c:07:54");
    reveal_strlit("40:30:04");
    reveal_strlit("44:00:10");
    reveal_strlit("48:60:bc");
    reveal_strlit("4c:8d:79");
    reveal_strlit("5c:95:ae");
    reveal_strlit("60:03:08");
    reveal_strlit("64:b9:e8");
    reveal_strlit("68:5b:35");
    reveal_strlit("70:56:81");
}

/// MAC addresses that begin with these Apple prefixes (78:31:c1 to f4:31:c3) are
/// attributed to Apple.
#[verifier::spinoff_prover]
#[verifier::rlimit(60)]
pub proof fn lemma_apple_prefixes_d(mac: Seq<char>)
    ensures
        "78:31:c1"@.is_prefix_of(mac) ==> vendor_of_mac(mac) == Vendor::Apple,
        "7c:04:d0"@.is_prefix_of(mac) ==> vendor_of_mac(mac) == Vendor::Apple,
        "80:be:05"@.is_prefix_of(mac) ==> vendor_of_mac(mac) == Vendor::Apple,
        "84:38:35"@.is_prefix_of(mac) ==> vendor_of_mac(mac) == Vendor::Apple,
        "88:63:df"@.is_prefix_of(mac) ==> vendor_of_mac(mac) == Vendor::Apple,
        "8c:85:90"@.is_prefix_of(mac) ==> vendor_of_mac(mac) == Vendor::Apple,
        "90:b2:1f"@.is_prefix_of(mac) ==> vendor_of_mac(mac) == Vendor::Apple,
        "98:01:a7"@.is_prefix_of(mac) ==> vendor_of_mac(mac) == Vendor::Apple,
        "a4:5e:60"@.is_prefix_of(mac) ==> vendor_of_mac(mac) == Vendor::Apple,
        "a8:66:7f"@.is_prefix_of(mac) ==> vendor_of_mac(mac) == Vendor::Apple,
        "ac:bc:32"@.is_prefix_of(mac) ==> vendor_of_mac(mac) == Vendor::Apple,
        "b8:17:c2"@.is_prefix_of(mac) ==> vendor_of_mac(mac) == Vendor::Apple,
        "c0:9f:42"@.is_prefix_of(mac) ==> vendor_of_mac(mac) == Vendor::Apple,
        "c8:2a:14"@.is_prefix_of(mac) ==> vendor_of_mac(mac) == Vendor::Apple,
        "cc:08:e0"@.is_prefix_of(mac) ==> vendor_of_mac(mac) == Vendor::Apple,
        "d0:23:db"@.is_prefix_of(mac) ==> vendor_of_mac(mac) == Vendor::Apple,
        "d8:30:62"@.is_prefix_of(mac) ==> vendor_of_mac(mac) == Vendor::Apple,
        "dc:a9:04"@.is_prefix_of(mac) ==> vendor_of_mac(mac) == Vendor::Apple,
        "e0:ac:cb"@.is_prefix_of(mac) ==> vendor_of_mac(mac) == Vendor::Apple,
        "e8:80:2e"@.is_prefix_of(mac) ==> vendor_of_mac(mac) == Vendor::Apple,
        "f0:18:98"@.is_prefix_of(mac) ==> vendor_of_mac(mac) == Vendor::Apple,
        "f4:31:c3"@.is_prefix_of(mac) ==> vendor_of_mac(mac) == Vendor::Apple,
{
    reveal_strlit("78:31:c1");
    reveal_strlit("7c:04:d0");
    reveal_strlit("80:be:05");
    reveal_strlit("84:38:35");
    reveal_strlit("88:63:df");
    reveal_strlit("8c:85:90");
    reveal_strlit("90:b2:1f");
    reveal_strlit("98:01:a7");
    reveal_strlit("a4:5e:60");
    reveal_strlit("a8:66:7f");
    reveal_strlit("ac:bc:32");
    reveal_strlit("b8:17:c2");
    reveal_strlit("c0:9f:42");
    reveal_strlit("c8:2a:14");
    reveal_strlit("cc:08:e0");
    reveal_strlit("d0:23:db");
    reveal_strlit("d8:30:62");
    reveal_strlit("dc:a9:04");
    reveal_strlit("e0:ac:cb");
    reveal_strlit("e8:80:2e");
    reveal_strlit("f0:18:98");
    reveal_strlit("f4:31:c3");
}

/// MAC addresses that begin with a AVM / FRITZ!Box prefix are attributed to AVM / FRITZ!Box.
#[verifier::spinoff_prover]
#[verifier::rlimit(60)]
pub proof fn lemma_avm_prefixes(mac: Seq<char>)
    ensures
        "00:1a:11"@.is_prefix_of(mac) ==> vendor_of_mac(mac) == Vendor::AvmFritzBox,
        "00:1d:60"@.is_prefix_of(mac) ==> vendor_of_mac(mac) == Vendor::AvmFritzBox,
        "00:24:fe"@.is_prefix_of(mac) ==> vendor_of_mac(mac) == Vendor::AvmFritzBox,
        "08:96:d7"@.is_prefix_of(mac) ==> vendor_of_mac(mac) == Vendor::AvmFritzBox,
        "24:65:11"@.is_prefix_of(mac) ==> vendor_of_mac(mac) == Vendor::AvmFritzBox,
        "34:31:c4"@.is_prefix_of(mac) ==> vendor_of_mac(mac) == Vendor::AvmFritzBox,
        "38:10:d5"@.is_prefix_of(mac) ==> vendor_of_mac(mac) == Vendor::AvmFritzBox,
        "44:4e:6d"@.is_prefix_of(mac) ==> vendor_of_mac(mac) == Vendor::AvmFritzBox,
        "4c:09:d4"@.is_prefix_of(mac) ==> vendor_of_mac(mac) == Vendor::AvmFritzBox,
        "5c:49:79"@.is_prefix_of(mac) ==> vendor_of_mac(mac) == Vendor::AvmFritzBox,
        "74:42:7f"@.is_prefix_of(mac) ==> vendor_of_mac(mac) == Vendor::AvmFritzBox,
        "9c:c7:a6"@.is_prefix_of(mac) ==> vendor_of_mac(mac) == Vendor::AvmFritzBox,
        "bc:05:43"@.is_prefix_of(mac) ==> vendor_of_mac(mac) == Vendor::AvmFritzBox,
        "c8:0e:14"@.is_prefix_of(mac) ==> vendor_of_mac(mac) == Vendor::AvmFritzBox,
        "cc:ce:1e"@.is_prefix_of(mac) ==> vendor_of_mac(mac) == Vendor::AvmFritzBox,
{
    reveal_strlit("00:1a:11");
    reveal_strlit("00:1d:60");
    reveal_strlit("00:24:fe");
    reveal_strlit("08:96:d7");
    reveal_strlit("24:65:11");
    reveal_strlit("34:31:c4");
    reveal_strlit("38:10:d5");
    reveal_strlit("44:4e:6d");
    reveal_strlit("4c:09:d4");
    reveal_strlit("5c:49:79");
    reveal_strlit("74:42:7f");
    reveal_strlit("9c:c7:a6");
    reveal_strlit("bc:05:43");
    reveal_strlit("c8:0e:14");
    reveal_strlit("cc:ce:1e");
}

/// MAC addresses that begin with a Dell prefix are attributed to Dell.
#[verifier::spinoff_prover]
#[verifier::rlimit(60)]
pub proof fn lemma_dell_prefixes(mac: Seq<char>)
    ensures
        "00:14:22"@.is_prefix_of(mac) ==> vendor_of_mac(mac) == Vendor::Dell,
        "00:1b:21"@.is_prefix_of(mac) ==> vendor_of_mac(mac) == Vendor::Dell,
        "00:22:19"@.is_prefix_of(mac) ==> vendor_of_mac(mac) == Vendor::Dell,
        "3c:97:0e"@.is_prefix_of(mac) ==> vendor_of_mac(mac) == Vendor::Dell,
        "44:8a:5b"@.is_prefix_of(mac) ==> vendor_of_mac(mac) == Vendor::Dell,
        "58:11:22"@.is_prefix_of(mac) ==> vendor_of_mac(mac) == Vendor::Dell,
        "78:2b:cb"@.is_prefix_of(mac) ==> vendor_of_mac(mac) == Vendor::Dell,
        "84:7b:eb"@.is_prefix_of(mac) ==> vendor_of_mac(mac) == Vendor::Dell,
        "a4:bb:6d"@.is_prefix_of(mac) ==> vendor_of_mac(mac) == Vendor::Dell,
        "b8:ca:3a"@.is_prefix_of(mac) ==> vendor_of_mac(mac) == Vendor::Dell,
        "d4:be:d9"@.is_prefix_of(mac) ==> vendor_of_mac(mac) == Vendor::Dell,
        "f8:bc:12"@.is_prefix_of(mac) ==> vendor_of_mac(mac) == Vendor::Dell,
{
    reveal_strlit("00:14:22");
    reveal_strlit("00:1b:21");
    reveal_strlit("00:22:19");
    reveal_strlit("3c:97:0e");
    reveal_strlit("44:8a:5b");
    reveal_strlit("58:11:22");
    reveal_strlit("78:2b:cb");
    reveal_strlit("84:7b:eb");
    reveal_strlit("a4:bb:6d");
    reveal_strlit("b8:ca:3a");
    reveal_strlit("d4:be:d9");
    reveal_strlit("f8:bc:12");
}

/// MAC addresses that begin with a Hewlett Packard prefix are attributed to Hewlett Packard.
#[verifier::spinoff_prover]
#[verifier::rlimit(60)]
pub proof fn lemma_hewlett_packard_prefixes(mac: Seq<char>)
    ensures
        "00:1a:4b"@.is_prefix_of(mac) ==> vendor_of_mac(mac) == Vendor::HewlettPackard,
        "00:1e:65"@.is_prefix_of(mac) ==> vendor_of_mac(mac) == Vendor::HewlettPackard,
        "00:25:b3"@.is_prefix_of(mac) ==> vendor_of_mac(mac) == Vendor::HewlettPackard,
        "3c:d9:2b"@.is_prefix_of(mac) ==> vendor_of_mac(mac) == Vendor::HewlettPackard,
        "44:37:e6"@.is_prefix_of(mac) ==> vendor_of_mac(mac) == Vendor::HewlettPackard,
        "6c:88:14"@.is_prefix_of(mac) ==> vendor_of_mac(mac) == Vendor::HewlettPackard,
        "70:5a:0f"@.is_prefix_of(mac) ==> vendor_of_mac(mac) == Vendor::HewlettPackard,
        "80:19:34"@.is_prefix_of(mac) ==> vendor_of_mac(mac) == Vendor::HewlettPackard,
        "a0:88:b4"@.is_prefix_of(mac) ==> vendor_of_mac(mac) == Vendor::HewlettPackard,
        "b4:b5:2f"@.is_prefix_of(mac) ==> vendor_of_mac(mac) == Vendor::HewlettPackard,
        "c8:cb:b8"@.is_prefix_of(mac) ==> vendor_of_mac(mac) == Vendor::HewlettPackard,
        "ec:8e:b5"@.is_prefix_of(mac) ==> vendor_of_mac(mac) == Vendor::HewlettPackard,
{
    reveal_strlit("00:1a:4b");
    reveal_strlit("00:1e:65");
    reveal_strlit("00:25:b3");
    reveal_strlit("3c:d9:2b");
    reveal_strlit("44:37:e6");
    reveal_strlit("6c:88:14");
    reveal_strlit("70:5a:0f");
    reveal_strlit("80:19:34");
    reveal_strlit("a0:88:b4");
    reveal_strlit("b4:b5:2f");
    reveal_strlit("c8:cb:b8");
    reveal_strlit("ec:8e:b5");
}

/// MAC addresses that begin with a Samsung prefix are attributed to Samsung.
#[verifier::spinoff_prover]
#[verifier::rlimit(60)]
pub proof fn lemma_samsung_prefixes(mac: Seq<char>)
    ensures
        "00:16:6f"@.is_prefix_of(mac) ==> vendor_of_mac(mac) == Vendor::Samsung,
        "00:19:e0"@.is_prefix_of(mac) ==> vendor_of_mac(mac) == Vendor::Samsung,
        "00:21:5c"@.is_prefix_of(mac) ==> vendor_of_mac(mac) == Vendor::Samsung,
        "00:23:4d"@.is_prefix_of(mac) ==> vendor_of_mac(mac) == Vendor::Samsung,
        "00:26:5e"@.is_prefix_of(mac) ==> vendor_of_mac(mac) == Vendor::Samsung,
        "28:18:78"@.is_prefix_of(mac) ==> vendor_of_mac(mac) == Vendor::Samsung,
        "34:97:f6"@.is_prefix_of(mac) ==> vendor_of_mac(mac) == Vendor::Samsung,
        "44:6d:57"@.is_prefix_of(mac) ==> vendor_of_mac(mac) == Vendor::Samsung,
        "50:3e:aa"@.is_prefix_of(mac) ==> vendor_of_mac(mac) == Vendor::Samsung,
        "60:f2:62"@.is_prefix_of(mac) ==> vendor_of_mac(mac) == Vendor::Samsung,
        "98:fa:9b"@.is_prefix_of(mac) ==> vendor_of_mac(mac) == Vendor::Samsung,
        "c8:f7:33"@.is_prefix_of(mac) ==> vendor_of_mac(mac) == Vendor::Samsung,
        "d8:cb:8a"@.is_prefix_of(mac) ==> vendor_of_mac(mac) == Vendor::Samsung,
{
    reveal_strlit("00:16:6f");
    reveal_strlit("00:19:e0");
    reveal_strlit("00:21:5c");
    reveal_strlit("00:23:4d");
    reveal_strlit("00:26:5e");
    reveal_strlit("28:18:78");
    reveal_strlit("34:97:f6");
    reveal_strlit("44:6d:57");
    reveal_strlit("50:3e:aa");
    reveal_strlit("60:f2:62");
    reveal_strlit("98:fa:9b");
    reveal_strlit("c8:f7:33");
    reveal_strlit("d8:cb:8a");
}

/// MAC addresses that begin with a TP-Link prefix are attributed to TP-Link.
#[verifier::spinoff_prover]
#[verifier::rlimit(60)]
pub proof fn lemma_tp_link_prefixes(mac: Seq<char>)
    ensures
        "18:d6:c7"@.is_prefix_of(mac) ==> vendor_of_mac(mac) == Vendor::TpLink,
        "20:df:b9"@.is_prefix_of(mac) ==> vendor_of_mac(mac) == Vendor::TpLink,
        "30:b5:c2"@.is_prefix_of(mac) ==> vendor_of_mac(mac) == Vendor::TpLink,
        "50:c7:bf"@.is_prefix_of(mac) ==> vendor_of_mac(mac) == Vendor::TpLink,
        "68:ff:7b"@.is_prefix_of(mac) ==> vendor_of_mac(mac) == Vendor::TpLink,
        "74:da:38"@.is_prefix_of(mac) ==> vendor_of_mac(mac) == Vendor::TpLink,
        "98:de:d0"@.is_prefix_of(mac) ==> vendor_of_mac(mac) == Vendor::TpLink,
        "a0:f3:c1"@.is_prefix_of(mac) ==> vendor_of_mac(mac) == Vendor::TpLink,
        "b0:be:76"@.is_prefix_of(mac) ==> vendor_of_mac(mac) == Vendor::TpLink,
        "c0:25:e9"@.is_prefix_of(mac) ==> vendor_of_mac(mac) == Vendor::TpLink,
        "e8:94:f6"@.is_prefix_of(mac) ==> vendor_of_mac(mac) == Vendor::TpLink,
        "f4:f5:d8"@.is_prefix_of(mac) ==> vendor_of_mac(mac) == Vendor::TpLink,
{
    reveal_strlit("18:d6:c7");
    reveal_strlit("20:df:b9");
    reveal_strlit("30:b5:c2");
    reveal_strlit("50:c7:bf");
    reveal_strlit("68:ff:7b");
    reveal_strlit("74:da:38");
    reveal_strlit("98:de:d0");
    reveal_strlit("a0:f3:c1");
    reveal_strlit("b0:be:76");
    reveal_strlit("c0:25:e9");
    reveal_strlit("e8:94:f6");
    reveal_strlit("f4:f5:d8");
}

/// MAC addresses that begin with a D-Link prefix are attributed to D-Link.
#[verifier::spinoff_prover]
#[verifier::rlimit(60)]
pub proof fn lemma_d_link_prefixes(mac: Seq<char>)
    ensures
        "00:1e:58"@.is_prefix_of(mac) ==> vendor_of_mac(mac) == Vendor::DLink,
        "00:22:75"@.is_prefix_of(mac) ==> vendor_of_mac(mac) == Vendor::DLink,
        "00:26:18"@.is_prefix_of(mac) ==> vendor_of_mac(mac) == Vendor::DLink,
        "08:3e:8e"@.is_prefix_of(mac) ==> vendor_of_mac(mac) == Vendor::DLink,
        "20:e8:82"@.is_prefix_of(mac) ==> vendor_of_mac(mac) == Vendor::DLink,
        "28:6c:07"@.is_prefix_of(mac) ==> vendor_of_mac(mac) == Vendor::DLink,
        "50:64:2b"@.is_prefix_of(mac) ==> vendor_of_mac(mac) == Vendor::DLink,
        "70:4f:57"@.is_prefix_of(mac) ==> vendor_of_mac(mac) == Vendor::DLink,
        "84:c7:ea"@.is_prefix_of(mac) ==> vendor_of_mac(mac) == Vendor::DLink,
        "ac:84:c6"@.is_prefix_of(mac) ==> vendor_of_mac(mac) == Vendor::DLink,
        "c4:2c:03"@.is_prefix_of(mac) ==> vendor_of_mac(mac) == Vendor::DLink,
        "f8:1a:67"@.is_prefix_of(mac) ==> vendor_of_mac(mac) == Vendor::DLink,
{
    reveal_strlit("00:1e:58");
    reveal_strlit("00:22:75");
    reveal_strlit("00:26:18");
    reveal_strlit("08:3e:8e");
    reveal_strlit("20:e8:82");
    reveal_strlit("28:6c:07");
    reveal_strlit("50:64:2b");
    reveal_strlit("70:4f:57");
    reveal_strlit("84:c7:ea");
    reveal_strlit("ac:84:c6");
    reveal_strlit("c4:2c:03");
    reveal_strlit("f8:1a:67");
}

/// MAC addresses that begin with a Microsoft Hyper-V prefix are attributed to Microsoft Hyper-V.
#[verifier::spinoff_prover]
#[verifier::rlimit(60)]
pub proof fn lemma_hyper_v_prefixes(mac: Seq<char>)
    ensures
        "00:15:5d"@.is_prefix_of(mac) ==> vendor_of_mac(mac) == Vendor::MicrosoftHyperV,
{
    reveal_strlit("00:15:5d");
}

/// MAC addresses that begin with a VMware prefix are attributed to VMware.
#[verifier::spinoff_prover]
#[verifier::rlimit(60)]
pub proof fn lemma_vmware_prefixes(mac: Seq<char>)
    ensures
        "00:05:69"@.is_prefix_of(mac) ==> vendor_of_mac(mac) == Vendor::VMware,
        "00:0c:29"@.is_prefix_of(mac) ==> vendor_of_mac(mac) == Vendor::VMware,
        "00:1c:14"@.is_prefix_of(mac) ==> vendor_of_mac(mac) == Vendor::VMware,
        "00:50:56"@.is_prefix_of(mac) ==> vendor_of_mac(mac) == Vendor::VMware,
{
    reveal_strlit("00:05:69");
    reveal_strlit("00:0c:29");
    reveal_strlit("00:1c:14");
    reveal_strlit("00:50:56");
}

/// MAC addresses that begin with a VirtualBox prefix are attributed to VirtualBox.
#[verifier::spinoff_prover]
#[verifier::rlimit(60)]
pub proof fn lemma_virtualbox_prefixes(mac: Seq<char>)
    ensures
        "08:00:27"@.is_prefix_of(mac) ==> vendor_of_mac(mac) == Vendor::VirtualBox,
{
    reveal_strlit("08:00:27");
}

/// MAC addresses that begin with a Parallels prefix are attributed to Parallels.
#[verifier::spinoff_prover]
#[verifier::rlimit(60)]
pub proof fn lemma_parallels_prefixes(mac: Seq<char>)
    ensures
        "00:1c:42"@.is_prefix_of(mac) ==> vendor_of_mac(mac) == Vendor::Parallels,
{
    reveal_strlit("00:1c:42");
}

/// What the first octet of a MAC address says about it.
#[derive(Clone, Copy, PartialEq, Eq, Structural, Debug)]
pub enum MacType {
    MulticastOrInvalidForHost,
    LocallyAdministeredOrRandomized,
    GloballyAdministered,
    Unknown,
}

impl MacType {
    pub open spec fn text(self) -> Seq<char> {
        match self {
            MacType::MulticastOrInvalidForHost => "multicast_or_invalid_for_host"@,
            MacType::LocallyAdministeredOrRandomized => "locally_administered_or_randomized"@,
            MacType::GloballyAdministered => "globally_administered"@,
            MacType::Unknown => "unknown"@,
        }
    }

    /// The label written in reports.
    pub fn as_str(&self) -> (s: &'static str)
        ensures
            s@ == self.text(),
    {
        match self {
            MacType::MulticastOrInvalidForHost => "multicast_or_invalid_for_host",
            MacType::LocallyAdministeredOrRandomized => "locally_administered_or_randomized",
            MacType::GloballyAdministered => "globally_administered",
            MacType::Unknown => "unknown",
        }
    }
}

/// The address type: the first two characters read as a hexadecimal octet
/// (as `u8::from_str_radix` reads them); its lowest bit marks multicast, the
/// next bit local administration.
pub open spec fn mac_type_of(mac: Seq<char>) -> MacType {
    if mac.len() >= 2 {
        match parse_unsigned(mac.take(2), 16, 255) {
            Some(first) => if first % 2 == 1 {
                MacType::MulticastOrInvalidForHost
            } else if (first / 2) % 2 == 1 {
                MacType::LocallyAdministeredOrRandomized
            } else {
                MacType::GloballyAdministered
            },
            None => MacType::Unknown,
        }
    } else {
        MacType::Unknown
    }
}

/// The type of a MAC address, from its first octet.
pub fn mac_type(mac: &str) -> (t: MacType)
    ensures
        t == mac_type_of(mac@),
{
    let m = chars_of(mac);
    if m.len() < 2 {
        return MacType::Unknown;
    }
    let p = copy_range(&m, 0, 2);
    assert(p@ =~= m@.take(2));
    match parse_unsigned_chars(&p, 16, 255) {
        Some(first) => {
            let first = first as u8;
            let multicast = (first & 0b0000_0001) != 0;
            let local = (first & 0b0000_0010) != 0;
            assert(((first & 1u8) != 0) == (first % 2 == 1)) by (bit_vector);
            assert(((first & 2u8) != 0) == ((first / 2) % 2 == 1)) by (bit_vector);
            if multicast {
                MacType::MulticastOrInvalidForHost
            } else if local {
                MacType::LocallyAdministeredOrRandomized
            } else {
                MacType::GloballyAdministered
            }
        },
        None => MacType::Unknown,
    }
}

} // verus!
