//! Character-level text handling: the views of `str` and `String` are
//! `Seq<char>`, and every operation here is specified over those sequences.
use vstd::prelude::*;

verus! {

/// A class of characters used to trim or split text.
#[derive(Clone, Copy, PartialEq, Eq, Structural)]
pub enum CharClass {
    /// Unicode `White_Space`, as `char::is_whitespace` decides it.
    Whitespace,
    /// The bracket and comma characters `[`, `]`, `(`, `)`, `,`.
    Brackets,
    /// Whitespace together with the bracket characters `(`, `)`, `[`, `]` and `,`.
    WhitespaceOrBrackets,
    /// Exactly one character.
    Only(char),
}

/// Unicode `White_Space` (the set that `char::is_whitespace` accepts).
pub open spec fn is_ws(c: char) -> bool {
    ||| ('\u{9}' <= c && c <= '\u{d}')
    ||| c == ' '
    ||| c == '\u{85}'
    ||| c == '\u{a0}'
    ||| c == '\u{1680}'
    ||| ('\u{2000}' <= c && c <= '\u{200a}')
    ||| c == '\u{2028}'
    ||| c == '\u{2029}'
    ||| c == '\u{202f}'
    ||| c == '\u{205f}'
    ||| c == '\u{3000}'
}

pub open spec fn is_bracket(c: char) -> bool {
    c == '[' || c == ']' || c == '(' || c == ')' || c == ','
}

pub open spec fn in_class(cls: CharClass, c: char) -> bool {
    match cls {
        CharClass::Whitespace => is_ws(c),
        CharClass::Brackets => is_bracket(c),
        CharClass::WhitespaceOrBrackets => is_ws(c) || is_bracket(c),
        CharClass::Only(d) => c == d,
    }
}

pub fn is_whitespace(c: char) -> (r: bool)
    ensures
        r == is_ws(c),
{
    ('\u{9}' <= c && c <= '\u{d}') || c == ' ' || c == '\u{85}' || c == '\u{a0}' || c
        == '\u{1680}' || ('\u{2000}' <= c && c <= '\u{200a}') || c == '\u{2028}' || c
        == '\u{2029}' || c == '\u{202f}' || c == '\u{205f}' || c == '\u{3000}'
}

pub fn char_in_class(cls: CharClass, c: char) -> (r: bool)
    ensures
        r == in_class(cls, c),
{
    match cls {
        CharClass::Whitespace => is_whitespace(c),
        CharClass::Brackets => c == '[' || c == ']' || c == '(' || c == ')' || c == ',',
        CharClass::WhitespaceOrBrackets => is_whitespace(c) || c == '[' || c == ']' || c == '('
            || c == ')' || c == ',',
        CharClass::Only(d) => c == d,
    }
}

// ---------------------------------------------------------------------------
// Trimming
// ---------------------------------------------------------------------------

/// `s` without its leading characters of class `cls`.
pub open spec fn trim_start(s: Seq<char>, cls: CharClass) -> Seq<char>
    decreases s.len(),
{
    if s.len() > 0 && in_class(cls, s[0]) {
        trim_start(s.drop_first(), cls)
    } else {
        s
    }
}

/// `s` without its trailing characters of class `cls`.
pub open spec fn trim_end(s: Seq<char>, cls: CharClass) -> Seq<char>
    decreases s.len(),
{
    if s.len() > 0 && in_class(cls, s.last()) {
        trim_end(s.drop_last(), cls)
    } else {
        s
    }
}

/// `s` without leading and trailing characters of class `cls`.
pub open spec fn trim(s: Seq<char>, cls: CharClass) -> Seq<char> {
    trim_end(trim_start(s, cls), cls)
}

/// `str::trim`: leading and trailing whitespace removed.
pub open spec fn trim_ws(s: Seq<char>) -> Seq<char> {
    trim(s, CharClass::Whitespace)
}

pub fn copy_range(v: &Vec<char>, from: usize, to: usize) -> (r: Vec<char>)
    requires
        from <= to <= v.len(),
    ensures
        r@ == v@.subrange(from as int, to as int),
{
    let mut r: Vec<char> = Vec::new();
    let mut i = from;
    while i < to
        invariant
            from <= i <= to <= v.len(),
            r@ == v@.subrange(from as int, i as int),
        decreases to - i,
    {
        r.push(v[i]);
        i += 1;
    }
    r
}

pub fn copy_chars(v: &Vec<char>) -> (r: Vec<char>)
    ensures
        r@ == v@,
{
    let r = copy_range(v, 0, v.len());
    assert(v@.subrange(0, v@.len() as int) =~= v@);
    r
}

/// Index of the first character not in `cls` (or the length).
fn leading_count(v: &Vec<char>, cls: CharClass) -> (k: usize)
    ensures
        k <= v.len(),
        trim_start(v@, cls) == v@.skip(k as int),
{
    let mut k: usize = 0;
    assert(v@.skip(0) =~= v@);
    while k < v.len() && char_in_class(cls, v[k])
        invariant
            k <= v.len(),
            trim_start(v@, cls) == trim_start(v@.skip(k as int), cls),
        decreases v.len() - k,
    {
        assert(v@.skip(k as int).drop_first() =~= v@.skip(k + 1));
        k += 1;
    }
    assert(k < v.len() ==> v@.skip(k as int)[0] == v@[k as int]);
    k
}

/// Index just past the last character not in `cls` (or 0).
fn trailing_end(v: &Vec<char>, cls: CharClass) -> (e: usize)
    ensures
        e <= v.len(),
        trim_end(v@, cls) == v@.take(e as int),
{
    let mut e: usize = v.len();
    assert(v@.take(e as int) =~= v@);
    while e > 0 && char_in_class(cls, v[e - 1])
        invariant
            e <= v.len(),
            trim_end(v@, cls) == trim_end(v@.take(e as int), cls),
        decreases e,
    {
        assert(v@.take(e as int).drop_last() =~= v@.take(e - 1));
        e -= 1;
    }
    assert(e > 0 ==> v@.take(e as int).last() == v@[e - 1]);
    e
}

pub proof fn lemma_trim_end_len(s: Seq<char>, cls: CharClass)
    ensures
        trim_end(s, cls).len() <= s.len(),
        trim_end(s, cls) == s.take(trim_end(s, cls).len() as int),
    decreases s.len(),
{
    if s.len() > 0 && in_class(cls, s.last()) {
        lemma_trim_end_len(s.drop_last(), cls);
        let t = trim_end(s.drop_last(), cls);
        assert(s.drop_last().take(t.len() as int) =~= s.take(t.len() as int));
    } else {
        assert(s.take(s.len() as int) =~= s);
    }
}

/// Characters of class `cls` removed from both ends.
pub fn trim_chars(v: &Vec<char>, cls: CharClass) -> (r: Vec<char>)
    ensures
        r@ == trim(v@, cls),
{
    let k = leading_count(v, cls);
    let rest = copy_range(v, k, v.len());
    assert(rest@ =~= v@.skip(k as int));
    let e = trailing_end(&rest, cls);
    copy_range(&rest, 0, e)
}

/// Characters of class `cls` removed from the end.
pub fn trim_end_chars(v: &Vec<char>, cls: CharClass) -> (r: Vec<char>)
    ensures
        r@ == trim_end(v@, cls),
{
    let e = trailing_end(v, cls);
    copy_range(v, 0, e)
}

// ---------------------------------------------------------------------------
// Case mapping
// ---------------------------------------------------------------------------

pub open spec fn ascii_lower(c: char) -> char {
    if 'A' <= c && c <= 'Z' {
        ((c as u32) + 32) as char
    } else {
        c
    }
}

pub open spec fn ascii_upper(c: char) -> char {
    if 'a' <= c && c <= 'z' {
        ((c as u32) - 32) as char
    } else {
        c
    }
}

/// `str::to_ascii_lowercase`.
pub open spec fn lower(s: Seq<char>) -> Seq<char> {
    s.map_values(|c: char| ascii_lower(c))
}

/// `str::to_ascii_uppercase`.
pub open spec fn upper(s: Seq<char>) -> Seq<char> {
    s.map_values(|c: char| ascii_upper(c))
}

pub fn lower_char(c: char) -> (r: char)
    ensures
        r == ascii_lower(c),
{
    if 'A' <= c && c <= 'Z' {
        ((c as u8) + 32) as char
    } else {
        c
    }
}

pub fn upper_char(c: char) -> (r: char)
    ensures
        r == ascii_upper(c),
{
    if 'a' <= c && c <= 'z' {
        ((c as u8) - 32) as char
    } else {
        c
    }
}

pub fn to_lower(v: &Vec<char>) -> (r: Vec<char>)
    ensures
        r@ == lower(v@),
{
    let mut r: Vec<char> = Vec::new();
    for i in 0..v.len()
        invariant
            r@ == lower(v@.take(i as int)),
    {
        assert(v@.take(i + 1) =~= v@.take(i as int).push(v@[i as int]));
        r.push(lower_char(v[i]));
        assert(lower(v@.take(i + 1)) =~= lower(v@.take(i as int)).push(ascii_lower(v@[i as int])));
    }
    assert(v@.take(v.len() as int) =~= v@);
    r
}

pub fn to_upper(v: &Vec<char>) -> (r: Vec<char>)
    ensures
        r@ == upper(v@),
{
    let mut r: Vec<char> = Vec::new();
    for i in 0..v.len()
        invariant
            r@ == upper(v@.take(i as int)),
    {
        assert(v@.take(i + 1) =~= v@.take(i as int).push(v@[i as int]));
        r.push(upper_char(v[i]));
        assert(upper(v@.take(i + 1)) =~= upper(v@.take(i as int)).push(ascii_upper(v@[i as int])));
    }
    assert(v@.take(v.len() as int) =~= v@);
    r
}

// ---------------------------------------------------------------------------
// Prefixes, suffixes and substring search
// ---------------------------------------------------------------------------

pub open spec fn starts_with(s: Seq<char>, p: Seq<char>) -> bool {
    p.len() <= s.len() && s.take(p.len() as int) == p
}

pub open spec fn ends_with(s: Seq<char>, p: Seq<char>) -> bool {
    p.len() <= s.len() && s.skip(s.len() - p.len()) == p
}

/// `t` occurs in `s` starting at index `k`.
pub open spec fn occurs_at(s: Seq<char>, t: Seq<char>, k: int) -> bool {
    0 <= k && k + t.len() <= s.len() && s.subrange(k, k + t.len()) == t
}

/// The first index at or after `k` where `t` occurs in `s`.
pub open spec fn find_from(s: Seq<char>, t: Seq<char>, k: int) -> Option<int>
    decreases s.len() + 1 - k,
{
    if k < 0 || k + t.len() > s.len() {
        None
    } else if occurs_at(s, t, k) {
        Some(k)
    } else {
        find_from(s, t, k + 1)
    }
}

/// `str::find`: the index of the first occurrence of `t` in `s`.
pub open spec fn find(s: Seq<char>, t: Seq<char>) -> Option<int> {
    find_from(s, t, 0)
}

/// `str::contains`.
pub open spec fn contains(s: Seq<char>, t: Seq<char>) -> bool {
    find(s, t) is Some
}

pub proof fn lemma_find_from_bounds(s: Seq<char>, t: Seq<char>, k: int)
    requires
        k >= 0,
    ensures
        find_from(s, t, k) matches Some(i) ==> k <= i && occurs_at(s, t, i) && (forall|j: int|
            k <= j < i ==> !occurs_at(s, t, j)),
        find_from(s, t, k) is None ==> forall|j: int| k <= j ==> !occurs_at(s, t, j),
    decreases s.len() + 1 - k,
{
    if k < 0 || k + t.len() > s.len() {
    } else if occurs_at(s, t, k) {
    } else {
        lemma_find_from_bounds(s, t, k + 1);
    }
}

/// `contains` holds exactly when `t` occurs somewhere in `s`.
pub proof fn lemma_contains_iff_occurs(s: Seq<char>, t: Seq<char>)
    ensures
        contains(s, t) <==> exists|k: int| occurs_at(s, t, k),
{
    lemma_find_from_bounds(s, t, 0);
    if contains(s, t) {
        let i = find(s, t)->0;
        assert(occurs_at(s, t, i));
    }
}

fn occurs_at_exec(s: &Vec<char>, t: &Vec<char>, k: usize) -> (r: bool)
    requires
        k + t.len() <= s.len(),
    ensures
        r == occurs_at(s@, t@, k as int),
{
    let mut j: usize = 0;
    while j < t.len()
        invariant
            k + t.len() <= s.len(),
            j <= t.len(),
            s@.subrange(k as int, k + j) =~= t@.take(j as int),
        decreases t.len() - j,
    {
        if s[k + j] != t[j] {
            assert(s@.subrange(k as int, k + t.len())[j as int] != t@[j as int]);
            return false;
        }
        j += 1;
    }
    assert(t@.take(t.len() as int) =~= t@);
    true
}

/// First occurrence of `t` in `s`.
pub fn find_chars(s: &Vec<char>, t: &Vec<char>) -> (r: Option<usize>)
    ensures
        r matches Some(i) ==> find(s@, t@) == Some(i as int),
        r is None ==> find(s@, t@) is None,
{
    if t.len() > s.len() {
        return None;
    }
    let last = s.len() - t.len();
    let mut k: usize = 0;
    loop
        invariant
            last == s.len() - t.len(),
            k <= last,
            find(s@, t@) == find_from(s@, t@, k as int),
        decreases last - k,
    {
        if occurs_at_exec(s, t, k) {
            return Some(k);
        }
        if k == last {
            assert(find_from(s@, t@, k + 1) is None);
            return None;
        }
        k += 1;
    }
}

pub fn contains_chars(s: &Vec<char>, t: &Vec<char>) -> (r: bool)
    ensures
        r == contains(s@, t@),
{
    find_chars(s, t).is_some()
}

pub fn starts_with_chars(s: &Vec<char>, p: &Vec<char>) -> (r: bool)
    ensures
        r == starts_with(s@, p@),
{
    if p.len() > s.len() {
        return false;
    }
    let r = occurs_at_exec(s, p, 0);
    assert(s@.subrange(0, p@.len() as int) =~= s@.take(p@.len() as int));
    r
}

pub fn ends_with_chars(s: &Vec<char>, p: &Vec<char>) -> (r: bool)
    ensures
        r == ends_with(s@, p@),
{
    if p.len() > s.len() {
        return false;
    }
    let k = s.len() - p.len();
    let r = occurs_at_exec(s, p, k);
    assert(s@.subrange(k as int, k + p@.len()) =~= s@.skip(k as int));
    r
}

/// Repeatedly removes the prefix `p` (as `str::trim_start_matches` with a
/// non-empty string pattern does).
pub open spec fn strip_prefixes(s: Seq<char>, p: Seq<char>) -> Seq<char>
    decreases s.len(),
{
    if p.len() > 0 && starts_with(s, p) {
        strip_prefixes(s.skip(p.len() as int), p)
    } else {
        s
    }
}

/// Repeatedly removes the suffix `p` (as `str::trim_end_matches` with a
/// non-empty string pattern does).
pub open spec fn strip_suffixes(s: Seq<char>, p: Seq<char>) -> Seq<char>
    decreases s.len(),
{
    if p.len() > 0 && ends_with(s, p) {
        strip_suffixes(s.take(s.len() - p.len()), p)
    } else {
        s
    }
}

pub fn strip_prefixes_chars(s: &Vec<char>, p: &Vec<char>) -> (r: Vec<char>)
    ensures
        r@ == strip_prefixes(s@, p@),
{
    let mut cur = copy_chars(s);
    if p.len() == 0 {
        return cur;
    }
    while starts_with_chars(&cur, p)
        invariant
            p.len() > 0,
            strip_prefixes(s@, p@) == strip_prefixes(cur@, p@),
        decreases cur.len(),
    {
        cur = copy_range(&cur, p.len(), cur.len());
    }
    cur
}

pub fn strip_suffixes_chars(s: &Vec<char>, p: &Vec<char>) -> (r: Vec<char>)
    ensures
        r@ == strip_suffixes(s@, p@),
{
    let mut cur = copy_chars(s);
    if p.len() == 0 {
        return cur;
    }
    while ends_with_chars(&cur, p)
        invariant
            p.len() > 0,
            strip_suffixes(s@, p@) == strip_suffixes(cur@, p@),
        decreases cur.len(),
    {
        let n = cur.len() - p.len();
        cur = copy_range(&cur, 0, n);
        assert(cur@ =~= cur@.take(n as int));
    }
    cur
}

/// `str::split_once` with a character pattern: the text before and after the
/// first occurrence of `c`.
pub open spec fn split_once(s: Seq<char>, c: char) -> Option<(Seq<char>, Seq<char>)> {
    match find(s, seq![c]) {
        Some(i) => Some((s.take(i), s.skip(i + 1))),
        None => None,
    }
}

pub fn split_once_chars(v: &Vec<char>, c: char) -> (r: Option<(Vec<char>, Vec<char>)>)
    ensures
        match r {
            Some((a, b)) => split_once(v@, c) == Some((a@, b@)),
            None => split_once(v@, c) is None,
        },
{
    let n = v.len();
    let mut pat: Vec<char> = Vec::new();
    pat.push(c);
    assert(pat@ =~= seq![c]);
    match find_chars(v, &pat) {
        Some(i) => {
            proof {
                lemma_find_from_bounds(v@, pat@, 0);
                assert(find_from(v@, pat@, 0) == Some(i as int));
                assert(occurs_at(v@, pat@, i as int));
                assert(pat@.len() == 1);
                assert(i + 1 <= v@.len());
            }
            let a = copy_range(v, 0, i);
            let b = copy_range(v, i + 1, n);
            assert(a@ =~= v@.take(i as int));
            assert(b@ =~= v@.skip(i + 1));
            Some((a, b))
        },
        None => None,
    }
}

// ---------------------------------------------------------------------------
// Splitting
// ---------------------------------------------------------------------------

/// `str::split` with a character-class pattern: every piece, empty ones
/// included, in order.
pub open spec fn split(s: Seq<char>, cls: CharClass) -> Seq<Seq<char>>
    decreases s.len(),
{
    if s.len() == 0 {
        seq![Seq::<char>::empty()]
    } else {
        let p = split(s.drop_last(), cls);
        if in_class(cls, s.last()) {
            p.push(Seq::<char>::empty())
        } else {
            p.update(p.len() - 1, p.last().push(s.last()))
        }
    }
}

pub proof fn lemma_split_nonempty(s: Seq<char>, cls: CharClass)
    ensures
        split(s, cls).len() >= 1,
    decreases s.len(),
{
    if s.len() > 0 {
        lemma_split_nonempty(s.drop_last(), cls);
    }
}

/// The pieces of `s` that are not empty (the pieces `str::split_whitespace`
/// yields when `cls` is whitespace).
pub open spec fn nonempty_pieces(p: Seq<Seq<char>>) -> Seq<Seq<char>>
    decreases p.len(),
{
    if p.len() == 0 {
        Seq::empty()
    } else if p.last().len() == 0 {
        nonempty_pieces(p.drop_last())
    } else {
        nonempty_pieces(p.drop_last()).push(p.last())
    }
}

/// Non-empty runs of characters outside `cls`.
pub open spec fn words(s: Seq<char>, cls: CharClass) -> Seq<Seq<char>> {
    nonempty_pieces(split(s, cls))
}

/// `str::split_whitespace`.
pub open spec fn split_ws(s: Seq<char>) -> Seq<Seq<char>> {
    words(s, CharClass::Whitespace)
}

/// Removes one trailing carriage return.
pub open spec fn strip_cr(s: Seq<char>) -> Seq<char> {
    if s.len() > 0 && s.last() == '\r' {
        s.drop_last()
    } else {
        s
    }
}

/// `str::lines`: pieces between newlines; a piece that a newline ends loses
/// one trailing carriage return; a final empty piece is not a line.
pub open spec fn lines(s: Seq<char>) -> Seq<Seq<char>> {
    let p = split(s, CharClass::Only('\n'));
    let ended = Seq::new((p.len() - 1) as nat, |i: int| strip_cr(p[i]));
    if p.last().len() == 0 {
        ended
    } else {
        ended.push(p.last())
    }
}

/// The character sequences of a vector of character vectors.
pub open spec fn views(v: Seq<Vec<char>>) -> Seq<Seq<char>> {
    v.map_values(|x: Vec<char>| x@)
}

/// Splits `v` at every character of class `cls`.
pub fn split_chars(v: &Vec<char>, cls: CharClass) -> (r: Vec<Vec<char>>)
    ensures
        views(r@) == split(v@, cls),
{
    let mut done: Vec<Vec<char>> = Vec::new();
    let mut cur: Vec<char> = Vec::new();
    for i in 0..v.len()
        invariant
            views(done@).push(cur@) == split(v@.take(i as int), cls),
    {
        let c = v[i];
        let ghost before = v@.take(i as int);
        assert(v@.take(i + 1).drop_last() =~= before);
        proof {
            lemma_split_nonempty(before, cls);
        }
        if char_in_class(cls, c) {
            let old_cur = cur;
            let ghost old_done = views(done@);
            cur = Vec::new();
            done.push(old_cur);
            assert(views(done@) =~= old_done.push(old_cur@));
            assert(views(done@).push(cur@) =~= split(v@.take(i + 1), cls));
        } else {
            cur.push(c);
            assert(views(done@).push(cur@) =~= split(v@.take(i + 1), cls));
        }
    }
    assert(v@.take(v.len() as int) =~= v@);
    let ghost before = views(done@);
    done.push(cur);
    assert(views(done@) =~= before.push(cur@));
    done
}

/// Keeps the non-empty pieces.
pub fn keep_nonempty(p: Vec<Vec<char>>) -> (r: Vec<Vec<char>>)
    ensures
        views(r@) == nonempty_pieces(views(p@)),
{
    let mut r: Vec<Vec<char>> = Vec::new();
    let mut i: usize = 0;
    while i < p.len()
        invariant
            i <= p.len(),
            views(r@) == nonempty_pieces(views(p@).take(i as int)),
        decreases p.len() - i,
    {
        assert(views(p@).take(i + 1).drop_last() =~= views(p@).take(i as int));
        if p[i].len() > 0 {
            let piece = copy_chars(&p[i]);
            let ghost before = views(r@);
            r.push(piece);
            assert(views(r@) =~= before.push(piece@));
            assert(views(r@) =~= nonempty_pieces(views(p@).take(i as int)).push(
                views(p@)[i as int],
            ));
        }
        i += 1;
    }
    assert(views(p@).take(p.len() as int) =~= views(p@));
    r
}

/// Non-empty runs of characters outside `cls`.
pub fn words_chars(v: &Vec<char>, cls: CharClass) -> (r: Vec<Vec<char>>)
    ensures
        views(r@) == words(v@, cls),
{
    keep_nonempty(split_chars(v, cls))
}

/// `str::lines`.
pub fn lines_chars(v: &Vec<char>) -> (r: Vec<Vec<char>>)
    ensures
        views(r@) == lines(v@),
{
    let p = split_chars(v, CharClass::Only('\n'));
    proof {
        lemma_split_nonempty(v@, CharClass::Only('\n'));
    }
    let n = p.len() - 1;
    let mut r: Vec<Vec<char>> = Vec::new();
    let ghost ended = Seq::new(n as nat, |i: int| strip_cr(views(p@)[i]));
    for i in 0..n
        invariant
            n == p.len() - 1,
            views(p@) == split(v@, CharClass::Only('\n')),
            ended == Seq::new(n as nat, |i: int| strip_cr(views(p@)[i])),
            views(r@) == ended.take(i as int),
    {
        let piece = &p[i];
        let line = if piece.len() > 0 && piece[piece.len() - 1] == '\r' {
            copy_range(piece, 0, piece.len() - 1)
        } else {
            copy_chars(piece)
        };
        assert(line@ == strip_cr(views(p@)[i as int]));
        let ghost before = views(r@);
        r.push(line);
        assert(views(r@) =~= before.push(line@));
        assert(views(r@) =~= ended.take(i + 1));
    }
    assert(ended.take(n as int) =~= ended);
    if p[n].len() > 0 {
        let last = copy_chars(&p[n]);
        let ghost before = views(r@);
        r.push(last);
        assert(views(r@) =~= before.push(last@));
        assert(views(r@) =~= ended.push(views(p@)[n as int]));
    }
    r
}

// ---------------------------------------------------------------------------
// Joining
// ---------------------------------------------------------------------------

/// The pieces joined with `sep` between consecutive pieces.
pub open spec fn join(p: Seq<Seq<char>>, sep: Seq<char>) -> Seq<char>
    decreases p.len(),
{
    if p.len() == 0 {
        Seq::empty()
    } else if p.len() == 1 {
        p[0]
    } else {
        join(p.drop_last(), sep) + sep + p.last()
    }
}

pub fn append_chars(dst: &mut Vec<char>, src: &Vec<char>)
    ensures
        final(dst)@ == old(dst)@ + src@,
{
    let ghost start = dst@;
    for i in 0..src.len()
        invariant
            dst@ == start + src@.take(i as int),
    {
        dst.push(src[i]);
        assert(start + src@.take(i + 1) =~= (start + src@.take(i as int)).push(src@[i as int]));
    }
    assert(src@.take(src.len() as int) =~= src@);
}

/// Appends the characters of `s`.
pub fn push_str(dst: &mut Vec<char>, s: &str)
    ensures
        final(dst)@ == old(dst)@ + s@,
{
    let v = chars_of(s);
    append_chars(dst, &v);
}

pub fn join_chars(p: &Vec<Vec<char>>, sep: &Vec<char>) -> (r: Vec<char>)
    ensures
        r@ == join(views(p@), sep@),
{
    let mut r: Vec<char> = Vec::new();
    for i in 0..p.len()
        invariant
            r@ == join(views(p@).take(i as int), sep@),
    {
        assert(views(p@).take(i + 1).drop_last() =~= views(p@).take(i as int));
        if i > 0 {
            append_chars(&mut r, sep);
        }
        append_chars(&mut r, &p[i]);
        assert(r@ =~= join(views(p@).take(i + 1), sep@));
    }
    assert(views(p@).take(p.len() as int) =~= views(p@));
    r
}

// ---------------------------------------------------------------------------
// Conversions between `str`/`String` and characters
// ---------------------------------------------------------------------------

/// The characters of `s`.
pub fn chars_of(s: &str) -> (v: Vec<char>)
    ensures
        v@ == s@,
{
    let mut v: Vec<char> = Vec::new();
    for c in it: s.chars()
        invariant
            it.seq() == s@,
            v@ == it.seq().take(it.index() as int),
    {
        v.push(c);
    }
    v
}

/// A `String` holding exactly the characters of `v`.
///
/// Trusted: calls `FromIterator<&char> for String` (through `Iterator::collect`),
/// which std documents as appending each character in order; the contract
/// claims that the result's characters are those of `v`.
#[verifier::external_body]
pub(crate) fn string_of(v: &Vec<char>) -> (s: String)
    ensures
        s@ == v@,
{
    v.iter().collect()
}

/// Whether the characters of `v` are those of `s`.
pub fn text_is(v: &Vec<char>, s: &str) -> (r: bool)
    ensures
        r == (v@ == s@),
{
    let w = chars_of(s);
    if v.len() != w.len() {
        return false;
    }
    let mut i: usize = 0;
    while i < v.len()
        invariant
            w@ == s@,
            v.len() == w.len(),
            i <= v.len(),
            forall|j: int| 0 <= j < i ==> v@[j] == w@[j],
        decreases v.len() - i,
    {
        if v[i] != w[i] {
            return false;
        }
        i += 1;
    }
    assert(v@ =~= w@);
    true
}

/// Whether `s` occurs in `v`.
pub fn has_text(v: &Vec<char>, s: &str) -> (r: bool)
    ensures
        r == contains(v@, s@),
{
    contains_chars(v, &chars_of(s))
}

// ---------------------------------------------------------------------------
// Facts about trimming, case, splitting and joining
// ---------------------------------------------------------------------------

proof fn lemma_trim_start_first(s: Seq<char>, cls: CharClass)
    ensures
        trim_start(s, cls).len() > 0 ==> !in_class(cls, trim_start(s, cls)[0]),
    decreases s.len(),
{
    if s.len() > 0 && in_class(cls, s[0]) {
        lemma_trim_start_first(s.drop_first(), cls);
    }
}

proof fn lemma_trim_end_prefix(s: Seq<char>, cls: CharClass)
    ensures
        trim_end(s, cls).len() <= s.len(),
        trim_end(s, cls) == s.take(trim_end(s, cls).len() as int),
        trim_end(s, cls).len() > 0 ==> !in_class(cls, trim_end(s, cls).last()),
    decreases s.len(),
{
    if s.len() > 0 && in_class(cls, s.last()) {
        lemma_trim_end_prefix(s.drop_last(), cls);
        let r = trim_end(s.drop_last(), cls);
        assert(s.drop_last().take(r.len() as int) =~= s.take(r.len() as int));
    } else {
        assert(s.take(s.len() as int) =~= s);
    }
}

/// A trimmed text neither starts nor ends with a character of the class.
pub proof fn lemma_trim_ends(s: Seq<char>, cls: CharClass)
    ensures
        trim(s, cls).len() > 0 ==> !in_class(cls, trim(s, cls)[0]) && !in_class(cls, trim(s, cls).last()),
{
    let ts = trim_start(s, cls);
    lemma_trim_start_first(s, cls);
    lemma_trim_end_prefix(ts, cls);
    if trim(s, cls).len() > 0 {
        assert(trim(s, cls)[0] == ts[0]);
    }
}

/// A text that neither starts nor ends with a character of the class is its own trim.
pub proof fn lemma_trim_untouched(s: Seq<char>, cls: CharClass)
    requires
        s.len() == 0 || (!in_class(cls, s[0]) && !in_class(cls, s.last())),
    ensures
        trim(s, cls) == s,
{
}

/// A text whose characters are all unchanged by lowering is its own lowering.
pub proof fn lemma_lower_stable(s: Seq<char>)
    requires
        forall|i: int| 0 <= i < s.len() ==> ascii_lower(#[trigger] s[i]) == s[i],
    ensures
        lower(s) == s,
{
    assert(lower(s) =~= s);
}

/// A text without characters of the class is one piece.
pub proof fn lemma_split_plain(t: Seq<char>, cls: CharClass)
    requires
        forall|j: int| 0 <= j < t.len() ==> !in_class(cls, #[trigger] t[j]),
    ensures
        split(t, cls) == seq![t],
    decreases t.len(),
{
    if t.len() > 0 {
        lemma_split_plain(t.drop_last(), cls);
        assert(t.drop_last().push(t.last()) =~= t);
        assert(seq![t.drop_last()].update(0, t) =~= seq![t]);
    } else {
        assert(t =~= Seq::<char>::empty());
    }
}

/// Splitting at a separator: the pieces before it, then the pieces after it.
pub proof fn lemma_split_concat(s: Seq<char>, c: char, t: Seq<char>, cls: CharClass)
    requires
        in_class(cls, c),
    ensures
        split(s + seq![c] + t, cls) == split(s, cls) + split(t, cls),
    decreases t.len(),
{
    let u = s + seq![c] + t;
    if t.len() == 0 {
        assert(u.drop_last() =~= s);
        assert(u.last() == c);
        assert(split(s, cls).push(Seq::<char>::empty()) =~= split(s, cls) + seq![Seq::<char>::empty()]);
    } else {
        assert(u.drop_last() =~= s + seq![c] + t.drop_last());
        assert(u.last() == t.last());
        lemma_split_concat(s, c, t.drop_last(), cls);
        lemma_split_nonempty(t.drop_last(), cls);
        lemma_split_nonempty(s, cls);
        let a = split(s, cls);
        let b = split(t.drop_last(), cls);
        if in_class(cls, t.last()) {
            assert((a + b).push(Seq::<char>::empty()) =~= a + b.push(Seq::<char>::empty()));
        } else {
            assert((a + b).update((a + b).len() - 1, (a + b).last().push(t.last())) =~= a + b.update(
                b.len() - 1,
                b.last().push(t.last()),
            ));
        }
    }
}

/// Splitting what was joined with a separator found in no piece gives the pieces back.
pub proof fn lemma_split_join(ps: Seq<Seq<char>>, c: char)
    requires
        ps.len() >= 1,
        forall|i: int, j: int| 0 <= i < ps.len() && 0 <= j < ps[i].len() ==> #[trigger] ps[i][j] != c,
    ensures
        split(join(ps, seq![c]), CharClass::Only(c)) == ps,
    decreases ps.len(),
{
    let last = ps.last();
    assert forall|j: int| 0 <= j < last.len() implies !in_class(CharClass::Only(c), #[trigger] last[j]) by {
        assert(ps[ps.len() - 1][j] != c);
    }
    lemma_split_plain(last, CharClass::Only(c));
    if ps.len() == 1 {
        assert(seq![ps[0]] =~= ps);
    } else {
        let front = ps.drop_last();
        assert forall|i: int, j: int| 0 <= i < front.len() && 0 <= j < front[i].len() implies #[trigger] front[i][j] != c by {
            assert(front[i] == ps[i]);
        }
        lemma_split_join(front, c);
        lemma_split_concat(join(front, seq![c]), c, last, CharClass::Only(c));
        assert(join(front, seq![c]) + seq![c] + last == join(ps, seq![c]));
        assert(front + seq![last] =~= ps);
    }
}

/// A property of every character of the pieces and of the separator holds of
/// every character of the joined text.
pub proof fn lemma_join_chars(ps: Seq<Seq<char>>, sep: Seq<char>, p: spec_fn(char) -> bool)
    requires
        forall|i: int, j: int| 0 <= i < ps.len() && 0 <= j < ps[i].len() ==> p(#[trigger] ps[i][j]),
        forall|j: int| 0 <= j < sep.len() ==> p(#[trigger] sep[j]),
    ensures
        forall|k: int| 0 <= k < join(ps, sep).len() ==> p(#[trigger] join(ps, sep)[k]),
    decreases ps.len(),
{
    if ps.len() == 1 {
        assert forall|k: int| 0 <= k < join(ps, sep).len() implies p(#[trigger] join(ps, sep)[k]) by {
            assert(ps[0][k] == join(ps, sep)[k]);
        }
    } else if ps.len() > 1 {
        let front = ps.drop_last();
        assert forall|i: int, j: int| 0 <= i < front.len() && 0 <= j < front[i].len() implies p(#[trigger] front[i][j]) by {
            assert(front[i] == ps[i]);
        }
        lemma_join_chars(front, sep, p);
        let a = join(front, sep);
        let last = ps.last();
        assert forall|k: int| 0 <= k < join(ps, sep).len() implies p(#[trigger] join(ps, sep)[k]) by {
            if k < a.len() {
                assert(join(ps, sep)[k] == a[k]);
            } else if k < a.len() + sep.len() {
                assert(join(ps, sep)[k] == sep[k - a.len()]);
            } else {
                assert(join(ps, sep)[k] == last[k - a.len() - sep.len()]);
                assert(ps[ps.len() - 1][k - a.len() - sep.len()] == last[k - a.len() - sep.len()]);
            }
        }
    }
}

/// Joining pieces of `w` characters each with a one-character separator.
pub proof fn lemma_join_len(ps: Seq<Seq<char>>, sep: Seq<char>, w: nat)
    requires
        ps.len() >= 1,
        sep.len() == 1,
        forall|i: int| 0 <= i < ps.len() ==> (#[trigger] ps[i]).len() == w,
    ensures
        join(ps, sep).len() == ps.len() * (w + 1) - 1,
    decreases ps.len(),
{
    if ps.len() > 1 {
        let front = ps.drop_last();
        assert forall|i: int| 0 <= i < front.len() implies (#[trigger] front[i]).len() == w by {
            assert(front[i] == ps[i]);
        }
        lemma_join_len(front, sep, w);
        assert(ps[ps.len() - 1].len() == w);
        assert((ps.len() - 1) * (w + 1) - 1 + 1 + w == ps.len() * (w + 1) - 1) by (nonlinear_arith);
    }
}

/// A property of every character of a text holds of every character of its pieces.
pub proof fn lemma_split_chars(s: Seq<char>, cls: CharClass, p: spec_fn(char) -> bool)
    requires
        forall|k: int| 0 <= k < s.len() ==> p(#[trigger] s[k]),
    ensures
        forall|i: int, j: int| 0 <= i < split(s, cls).len() && 0 <= j < split(s, cls)[i].len() ==> p(
            #[trigger] split(s, cls)[i][j],
        ),
    decreases s.len(),
{
    if s.len() > 0 {
        let front = s.drop_last();
        assert forall|k: int| 0 <= k < front.len() implies p(#[trigger] front[k]) by {
            assert(front[k] == s[k]);
        }
        lemma_split_chars(front, cls, p);
        lemma_split_nonempty(front, cls);
        let q = split(front, cls);
        assert(p(s[s.len() - 1]));
        assert forall|i: int, j: int| 0 <= i < split(s, cls).len() && 0 <= j < split(s, cls)[i].len() implies p(
            #[trigger] split(s, cls)[i][j],
        ) by {
            if in_class(cls, s.last()) {
                if i < q.len() {
                    assert(split(s, cls)[i] == q[i]);
                }
            } else if i < q.len() - 1 {
                assert(split(s, cls)[i] == q[i]);
            } else {
                assert(split(s, cls)[i] == q.last().push(s.last()));
                if j < q.last().len() {
                    assert(q[q.len() - 1][j] == q.last()[j]);
                }
            }
        }
    }
}

/// In a join of two or more pieces with a one-character separator, the
/// separator follows the first piece.
pub proof fn lemma_join_after_first(ps: Seq<Seq<char>>, sep: Seq<char>)
    requires
        ps.len() >= 2,
        sep.len() == 1,
    ensures
        join(ps, sep).len() > ps[0].len(),
        join(ps, sep)[ps[0].len() as int] == sep[0],
    decreases ps.len(),
{
    let front = ps.drop_last();
    if ps.len() == 2 {
        assert(join(front, sep) == ps[0]);
    } else {
        lemma_join_after_first(front, sep);
        assert(front[0] == ps[0]);
    }
}

/// When every character of every piece has a property, every character of the
/// text has it or is of the class it was split at.
pub proof fn lemma_split_cover(s: Seq<char>, cls: CharClass, p: spec_fn(char) -> bool)
    requires
        forall|i: int, j: int| 0 <= i < split(s, cls).len() && 0 <= j < split(s, cls)[i].len() ==> p(
            #[trigger] split(s, cls)[i][j],
        ),
    ensures
        forall|k: int| 0 <= k < s.len() ==> in_class(cls, #[trigger] s[k]) || p(s[k]),
    decreases s.len(),
{
    if s.len() > 0 {
        let front = s.drop_last();
        lemma_split_nonempty(front, cls);
        let q = split(front, cls);
        assert forall|i: int, j: int| 0 <= i < q.len() && 0 <= j < q[i].len() implies p(#[trigger] q[i][j]) by {
            if in_class(cls, s.last()) {
                assert(split(s, cls)[i] == q[i]);
            } else if i < q.len() - 1 {
                assert(split(s, cls)[i] == q[i]);
            } else {
                assert(split(s, cls)[i] == q.last().push(s.last()));
                assert(split(s, cls)[i][j] == q[i][j]);
            }
        }
        lemma_split_cover(front, cls, p);
        if !in_class(cls, s.last()) {
            let i = q.len() - 1;
            assert(split(s, cls)[i] == q.last().push(s.last()));
            assert(split(s, cls)[i][q.last().len() as int] == s.last());
        }
        assert forall|k: int| 0 <= k < s.len() implies in_class(cls, #[trigger] s[k]) || p(s[k]) by {
            if k < front.len() {
                assert(front[k] == s[k]);
            }
        }
    }
}

} // verus!
