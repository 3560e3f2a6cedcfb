//! Verified text utilities over character sequences.
//!
//! The spec functions here describe, over `Seq<char>`, what the standard
//! string operations used throughout the crate compute (`split`, `lines`,
//! `trim`, `split_whitespace`, integer parsing and formatting); the exec
//! functions compute them and are proved equal to the specs.

use vstd::prelude::*;

verus! {

broadcast use vstd::string::group_string_axioms;

/// Appends one character to a string (`String::push`).
#[verifier::external_body]
pub(crate) fn push_char(s: &mut String, c: char)
    ensures
        final(s)@ == old(s)@.push(c),
{
    s.push(c)
}

/// The characters of a string slice, in order.
pub fn chars_of(s: &str) -> (v: Vec<char>)
    ensures
        v@ == s@,
{
    let mut v: Vec<char> = Vec::new();
    for c in it: s.chars()
        invariant
            v@ == it.seq().take(it.index() as int),
    {
        v.push(c);
    }
    v
}

/// A string holding the characters `v[lo..hi]`.
pub fn string_of(v: &Vec<char>, lo: usize, hi: usize) -> (r: String)
    requires
        lo <= hi <= v.len(),
    ensures
        r@ == v@.subrange(lo as int, hi as int),
{
    let mut r = String::new();
    let mut i = lo;
    while i < hi
        invariant
            lo <= i <= hi <= v.len(),
            r@ == v@.subrange(lo as int, i as int),
        decreases hi - i,
    {
        push_char(&mut r, v[i]);
        assert(v@.subrange(lo as int, i + 1) == v@.subrange(lo as int, i as int).push(v@[i as int]));
        i = i + 1;
    }
    r
}

/// A string holding all the characters of `v`.
pub fn string_from(v: &Vec<char>) -> (r: String)
    ensures
        r@ == v@,
{
    let r = string_of(v, 0, v.len());
    assert(v@.subrange(0, v@.len() as int) == v@);
    r
}

/// A string holding the characters of a literal or slice (`str::to_string`).
pub fn owned(s: &str) -> (r: String)
    ensures
        r@ == s@,
{
    s.to_string()
}

/// Appends `t` to `s`.
pub fn append(s: &mut String, t: &str)
    ensures
        final(s)@ == old(s)@ + t@,
{
    s.append(t);
}

// ---------------------------------------------------------------------------
// Searching
// ---------------------------------------------------------------------------

/// `p` occurs in `s` starting at index `k`.
pub open spec fn match_at(s: Seq<char>, p: Seq<char>, k: int) -> bool {
    0 <= k && k + p.len() <= s.len() && s.subrange(k, k + p.len()) == p
}

/// The first index at or after `k` where `p` occurs in `s`.
pub open spec fn find_from(s: Seq<char>, p: Seq<char>, k: int) -> Option<int>
    decreases s.len() + 1 - k,
{
    if k < 0 || k + p.len() > s.len() {
        None
    } else if match_at(s, p, k) {
        Some(k)
    } else {
        find_from(s, p, k + 1)
    }
}

/// The first index where `p` occurs in `s` (`str::find`, counted in characters).
pub open spec fn find(s: Seq<char>, p: Seq<char>) -> Option<int> {
    find_from(s, p, 0)
}

/// `p` occurs in `s` (`str::contains`).
pub open spec fn contains(s: Seq<char>, p: Seq<char>) -> bool {
    find(s, p) is Some
}

/// `c` occurs in `s` (`str::contains` with a `char`).
pub open spec fn has_char(s: Seq<char>, c: char) -> bool {
    s.contains(c)
}

/// `s` begins with `p` (`str::starts_with`).
pub open spec fn starts_with(s: Seq<char>, p: Seq<char>) -> bool {
    p.len() <= s.len() && s.take(p.len() as int) == p
}

/// `s` ends with `p` (`str::ends_with`).
pub open spec fn ends_with(s: Seq<char>, p: Seq<char>) -> bool {
    p.len() <= s.len() && s.skip(s.len() - p.len()) == p
}

pub proof fn lemma_find_from_bounds(s: Seq<char>, p: Seq<char>, k: int)
    requires
        0 <= k,
    ensures
        find_from(s, p, k) matches Some(j) ==> k <= j && match_at(s, p, j)
            && (forall|i: int| k <= i < j ==> !match_at(s, p, i)),
        find_from(s, p, k) is None ==> (forall|i: int| k <= i ==> !match_at(s, p, i)),
    decreases s.len() + 1 - k,
{
    if k + p.len() > s.len() {
    } else if match_at(s, p, k) {
    } else {
        assert(p.len() > 0) by {
            if p.len() == 0 {
                assert(s.subrange(k, k) =~= p);
            }
        }
        lemma_find_from_bounds(s, p, k + 1);
    }
}

/// Whether `p` occurs in `s` at index `k` (exec).
pub fn match_at_exec(s: &Vec<char>, p: &Vec<char>, k: usize) -> (b: bool)
    ensures
        b == match_at(s@, p@, k as int),
{
    if k > s.len() || p.len() > s.len() - k {
        return false;
    }
    let mut j: usize = 0;
    while j < p.len()
        invariant
            k + p.len() <= s.len(),
            j <= p.len(),
            forall|i: int| 0 <= i < j ==> s@[k + i] == p@[i],
        decreases p.len() - j,
    {
        if s[k + j] != p[j] {
            assert(s@.subrange(k as int, k + p.len())[j as int] != p@[j as int]);
            return false;
        }
        j = j + 1;
    }
    assert(s@.subrange(k as int, k + p.len()) =~= p@);
    true
}

/// The first index at or after `k` where `p` occurs in `s` (exec).
pub fn find_from_exec(s: &Vec<char>, p: &Vec<char>, k: usize) -> (r: Option<usize>)
    ensures
        r matches Some(j) ==> find_from(s@, p@, k as int) == Some(j as int),
        r is None ==> find_from(s@, p@, k as int) is None,
{
    if p.len() == 0 {
        if k <= s.len() {
            assert(s@.subrange(k as int, k as int) =~= p@);
            return Some(k);
        }
        return None;
    }
    let mut i = k;
    while i <= s.len() && p.len() <= s.len() - i
        invariant
            k <= i,
            p.len() > 0,
            find_from(s@, p@, k as int) == find_from(s@, p@, i as int),
        decreases s.len() + 1 - i,
    {
        if match_at_exec(s, p, i) {
            return Some(i);
        }
        i = i + 1;
    }
    None
}

/// `s` begins with `p` (exec).
pub fn starts_with_exec(s: &Vec<char>, p: &Vec<char>) -> (b: bool)
    ensures
        b == starts_with(s@, p@),
{
    let b = match_at_exec(s, p, 0);
    assert(s@.subrange(0, p@.len() as int) == s@.take(p@.len() as int));
    b
}

/// `s` ends with `p` (exec).
pub fn ends_with_exec(s: &Vec<char>, p: &Vec<char>) -> (b: bool)
    ensures
        b == ends_with(s@, p@),
{
    if p.len() > s.len() {
        return false;
    }
    let b = match_at_exec(s, p, s.len() - p.len());
    assert(s@.subrange(s@.len() - p@.len(), s@.len() as int) == s@.skip(s@.len() - p@.len()));
    b
}

/// `p` occurs in `s` (exec).
pub fn contains_exec(s: &Vec<char>, p: &Vec<char>) -> (b: bool)
    ensures
        b == contains(s@, p@),
{
    find_from_exec(s, p, 0).is_some()
}

/// `c` occurs in `s` (exec).
pub fn has_char_exec(s: &Vec<char>, c: char) -> (b: bool)
    ensures
        b == has_char(s@, c),
{
    let mut i: usize = 0;
    while i < s.len()
        invariant
            i <= s.len(),
            forall|j: int| 0 <= j < i ==> s@[j] != c,
        decreases s.len() - i,
    {
        if s[i] == c {
            assert(s@[i as int] == c);
            return true;
        }
        i = i + 1;
    }
    assert(!s@.contains(c)) by {
        if s@.contains(c) {
            let j = choose|j: int| 0 <= j < s@.len() && s@[j] == c;
            assert(s@[j] != c);
        }
    }
    false
}


/// The index of the last occurrence of `c` in `s` (`str::rfind`).
pub open spec fn rfind_char(s: Seq<char>, c: char) -> Option<int>
    decreases s.len(),
{
    if s.len() == 0 {
        None
    } else if s.last() == c {
        Some(s.len() - 1)
    } else {
        rfind_char(s.drop_last(), c)
    }
}

/// The index of the last occurrence of `c` in `v`.
pub fn rfind_char_exec(v: &Vec<char>, c: char) -> (r: Option<usize>)
    ensures
        match r {
            Some(i) => rfind_char(v@, c) == Some(i as int) && i < v.len(),
            None => rfind_char(v@, c) is None,
        },
{
    let mut i = v.len();
    assert(v@.take(i as int) =~= v@);
    while i > 0
        invariant
            i <= v.len(),
            rfind_char(v@, c) == rfind_char(v@.take(i as int), c),
        decreases i,
    {
        let ghost t = v@.take(i as int);
        assert(t.drop_last() =~= v@.take(i - 1));
        if v[i - 1] == c {
            return Some(i - 1);
        }
        i = i - 1;
    }
    None
}

/// Appends the characters of `src` to `dst`.
pub fn extend_chars(dst: &mut Vec<char>, src: &Vec<char>)
    ensures
        final(dst)@ == old(dst)@ + src@,
{
    let mut i: usize = 0;
    while i < src.len()
        invariant
            i <= src.len(),
            dst@ == old(dst)@ + src@.take(i as int),
        decreases src.len() - i,
    {
        dst.push(src[i]);
        assert(src@.take(i + 1) =~= src@.take(i as int).push(src@[i as int]));
        i = i + 1;
    }
    assert(src@.take(src@.len() as int) =~= src@);
}

/// The characters `v[lo..hi]` as a vector.
pub fn sub_vec(v: &Vec<char>, lo: usize, hi: usize) -> (r: Vec<char>)
    requires
        lo <= hi <= v.len(),
    ensures
        r@ == v@.subrange(lo as int, hi as int),
{
    let mut r: Vec<char> = Vec::new();
    let mut i = lo;
    while i < hi
        invariant
            lo <= i <= hi <= v.len(),
            r@ == v@.subrange(lo as int, i as int),
        decreases hi - i,
    {
        r.push(v[i]);
        assert(v@.subrange(lo as int, i + 1) == v@.subrange(lo as int, i as int).push(v@[i as int]));
        i = i + 1;
    }
    r
}

/// The views of a sequence of character vectors.
pub open spec fn views(v: Seq<Vec<char>>) -> Seq<Seq<char>> {
    v.map_values(|x: Vec<char>| x@)
}

proof fn lemma_views_push(v: Seq<Vec<char>>, x: Vec<char>)
    ensures
        views(v.push(x)) == views(v).push(x@),
{
    assert(views(v.push(x)) =~= views(v).push(x@));
}

// ---------------------------------------------------------------------------
// Splitting
// ---------------------------------------------------------------------------

/// The pieces of `s[pos..]` separated by the non-empty pattern `p`
/// (`str::split`, left to right, non-overlapping).
pub open spec fn split_from(s: Seq<char>, p: Seq<char>, pos: int) -> Seq<Seq<char>>
    decreases s.len() + 1 - pos,
{
    if p.len() == 0 || pos < 0 || pos > s.len() {
        seq![s.subrange(pos, s.len() as int)]
    } else {
        match find_from(s, p, pos) {
            None => seq![s.subrange(pos, s.len() as int)],
            Some(k) => {
                proof {
                    lemma_find_from_bounds(s, p, pos);
                }
                seq![s.subrange(pos, k)] + split_from(s, p, k + p.len())
            },
        }
    }
}

/// The pieces of `s` split by the empty pattern: an empty piece, each
/// character alone, and an empty piece (`str::split("")`).
pub open spec fn split_empty(s: Seq<char>) -> Seq<Seq<char>> {
    seq![Seq::<char>::empty()] + Seq::new(s.len(), |i: int| seq![s[i]]) + seq![Seq::<char>::empty()]
}

/// The pieces of `s` separated by the pattern `p` (`str::split`); the
/// empty pattern matches at every character boundary.
pub open spec fn split(s: Seq<char>, p: Seq<char>) -> Seq<Seq<char>> {
    if p.len() == 0 {
        split_empty(s)
    } else {
        split_from(s, p, 0)
    }
}

/// Splits `s` on every occurrence of the pattern `p` (the empty pattern
/// between every two characters and at both ends).
pub fn split_exec(s: &Vec<char>, p: &Vec<char>) -> (r: Vec<Vec<char>>)
    ensures
        views(r@) == split(s@, p@),
{
    let mut r: Vec<Vec<char>> = Vec::new();
    if p.len() == 0 {
        r.push(Vec::new());
        let mut i: usize = 0;
        while i < s.len()
            invariant
                i <= s@.len(),
                views(r@) == seq![Seq::<char>::empty()] + Seq::new(
                    i as nat,
                    |j: int| seq![s@[j]],
                ),
            decreases s@.len() - i,
        {
            let ghost old_r = r@;
            let mut one: Vec<char> = Vec::new();
            one.push(s[i]);
            proof {
                lemma_views_push(old_r, one);
            }
            r.push(one);
            assert(views(r@) =~= seq![Seq::<char>::empty()] + Seq::new(
                (i + 1) as nat,
                |j: int| seq![s@[j]],
            ));
            i = i + 1;
        }
        let ghost old_r = r@;
        let last: Vec<char> = Vec::new();
        proof {
            lemma_views_push(old_r, last);
        }
        r.push(last);
        assert(views(r@) =~= split(s@, p@));
        return r;
    }
    let mut pos: usize = 0;
    loop
        invariant
            p.len() > 0,
            pos <= s.len(),
            views(r@) + split_from(s@, p@, pos as int) == split(s@, p@),
        decreases s.len() + 1 - pos,
    {
        let ghost old_r = r@;
        match find_from_exec(s, p, pos) {
            None => {
                let piece = sub_vec(s, pos, s.len());
                proof {
                    lemma_views_push(old_r, piece);
                }
                r.push(piece);
                assert(views(r@) == split(s@, p@));
                return r;
            },
            Some(k) => {
                proof {
                    lemma_find_from_bounds(s@, p@, pos as int);
                }
                let piece = sub_vec(s, pos, k);
                proof {
                    lemma_views_push(old_r, piece);
                    assert(views(r@.push(piece)) + split_from(s@, p@, (k + p.len()) as int)
                        =~= views(old_r) + split_from(s@, p@, pos as int));
                }
                r.push(piece);
                pos = k + p.len();
            },
        }
    }
}

/// Splits `s` on every occurrence of the character `c` (`str::split(char)`).
pub fn split_char(s: &Vec<char>, c: char) -> (r: Vec<Vec<char>>)
    ensures
        views(r@) == split(s@, seq![c]),
{
    let mut p: Vec<char> = Vec::new();
    p.push(c);
    assert(p@ =~= seq![c]);
    split_exec(s, &p)
}

/// A one-character pattern occurs exactly where that character stands.
pub proof fn lemma_match_char(s: Seq<char>, c: char, k: int)
    ensures
        match_at(s, seq![c], k) <==> (0 <= k < s.len() && s[k] == c),
{
    if 0 <= k < s.len() {
        if s[k] == c {
            assert(s.subrange(k, k + 1) =~= seq![c]);
        } else if s.subrange(k, k + 1) == seq![c] {
            assert(s.subrange(k, k + 1)[0] == s[k]);
        }
    }
}

/// The search finds the first match at or after `k`.
proof fn lemma_find_first(s: Seq<char>, p: Seq<char>, k: int, j: int)
    requires
        0 <= k <= j,
        match_at(s, p, j),
        forall|i: int| k <= i < j ==> !match_at(s, p, i),
    ensures
        find_from(s, p, k) == Some(j),
    decreases j - k,
{
    if k < j {
        lemma_find_first(s, p, k + 1, j);
    }
}

/// Searching `a + y` past `a` is searching `y`.
proof fn lemma_find_shift(a: Seq<char>, y: Seq<char>, p: Seq<char>, k: int)
    requires
        0 <= k,
    ensures
        find_from(a + y, p, a.len() + k) == match find_from(y, p, k) {
            Some(j) => Some(j + a.len()),
            None => None,
        },
    decreases y.len() + 1 - k,
{
    if k + p.len() <= y.len() {
        assert((a + y).subrange(a.len() + k, a.len() + k + p.len()) =~= y.subrange(k, k + p.len()));
        lemma_find_shift(a, y, p, k + 1);
    }
}

/// Splitting `a + y` past `a` is splitting `y`.
proof fn lemma_split_shift(a: Seq<char>, y: Seq<char>, p: Seq<char>, pos: int)
    requires
        0 <= pos <= y.len(),
        p.len() > 0,
    ensures
        split_from(a + y, p, a.len() + pos) == split_from(y, p, pos),
    decreases y.len() + 1 - pos,
{
    let s = a + y;
    lemma_find_shift(a, y, p, pos);
    assert(s.subrange(a.len() + pos, s.len() as int) =~= y.subrange(pos, y.len() as int));
    match find_from(y, p, pos) {
        Some(k) => {
            lemma_find_from_bounds(y, p, pos);
            assert(s.subrange(a.len() + pos, a.len() + k) =~= y.subrange(pos, k));
            lemma_split_shift(a, y, p, k + p.len());
        },
        None => {},
    }
}

/// Splitting never gives an empty list.
pub proof fn lemma_split_len(s: Seq<char>, c: char)
    ensures
        split(s, seq![c]).len() >= 1,
{
    let p = seq![c];
    match find_from(s, p, 0) {
        Some(k) => {
            lemma_find_from_bounds(s, p, 0);
        },
        None => {},
    }
}

/// A text without the separator splits into itself alone.
pub proof fn lemma_split_nosep(x: Seq<char>, c: char)
    requires
        !x.contains(c),
    ensures
        split(x, seq![c]) == seq![x],
{
    let p = seq![c];
    lemma_find_from_bounds(x, p, 0);
    if let Some(j) = find_from(x, p, 0) {
        lemma_match_char(x, c, j);
        assert(x[j] == c);
    }
    assert(x.subrange(0, x.len() as int) =~= x);
}

/// A separator-free head, the separator and a tail split into the head
/// followed by the pieces of the tail.
pub proof fn lemma_split_cons(x: Seq<char>, y: Seq<char>, c: char)
    requires
        !x.contains(c),
    ensures
        split(x + seq![c] + y, seq![c]) == seq![x] + split(y, seq![c]),
{
    let p = seq![c];
    let s = x + p + y;
    lemma_match_char(s, c, x.len() as int);
    assert forall|i: int| 0 <= i < x.len() implies !match_at(s, p, i) by {
        lemma_match_char(s, c, i);
        assert(s[i] == x[i]);
    }
    lemma_find_first(s, p, 0, x.len() as int);
    assert(s.subrange(0, x.len() as int) =~= x);
    assert(s == (x + p) + y);
    lemma_split_shift(x + p, y, p, 0);
}

/// The first piece and the rest of a text that holds the separator.
pub proof fn lemma_split_decompose(s: Seq<char>, c: char) -> (r: (Seq<char>, Seq<char>))
    requires
        s.contains(c),
    ensures
        !r.0.contains(c),
        s == r.0 + seq![c] + r.1,
        r.1.len() < s.len(),
        split(s, seq![c]) == seq![r.0] + split(r.1, seq![c]),
{
    let p = seq![c];
    let i0 = choose|i: int| 0 <= i < s.len() && s[i] == c;
    lemma_match_char(s, c, i0);
    lemma_find_from_bounds(s, p, 0);
    let k = find_from(s, p, 0)->Some_0;
    lemma_match_char(s, c, k);
    let x = s.subrange(0, k);
    let y = s.subrange(k + 1, s.len() as int);
    assert forall|i: int| 0 <= i < x.len() implies x[i] != c by {
        lemma_match_char(s, c, i);
    }
    assert(s =~= x + p + y);
    lemma_split_cons(x, y, c);
    (x, y)
}

/// No piece of a split holds the separator.
pub proof fn lemma_split_pieces(s: Seq<char>, c: char)
    ensures
        forall|i: int|
            0 <= i < split(s, seq![c]).len() ==> !(#[trigger] split(s, seq![c])[i]).contains(c),
    decreases s.len(),
{
    if !s.contains(c) {
        lemma_split_nosep(s, c);
    } else {
        let (x, y) = lemma_split_decompose(s, c);
        lemma_split_pieces(y, c);
        assert forall|i: int|
            0 <= i < split(s, seq![c]).len() implies !(#[trigger] split(s, seq![c])[i]).contains(
            c,
        ) by {
            if i > 0 {
                assert(split(s, seq![c])[i] == split(y, seq![c])[i - 1]);
            }
        }
    }
}

// ---------------------------------------------------------------------------
// Lines
// ---------------------------------------------------------------------------

/// `x` without one trailing carriage return.
pub open spec fn strip_cr(x: Seq<char>) -> Seq<char> {
    if x.len() > 0 && x.last() == '\r' {
        x.drop_last()
    } else {
        x
    }
}

/// The lines of `s[pos..]` (`str::lines`): pieces ended by `\n` (with one
/// `\r` before it removed), the last piece kept only when non-empty.
pub open spec fn lines_from(s: Seq<char>, pos: int) -> Seq<Seq<char>>
    decreases s.len() - pos,
{
    if pos < 0 || pos >= s.len() {
        seq![]
    } else {
        match find_from(s, seq!['\n'], pos) {
            None => seq![s.subrange(pos, s.len() as int)],
            Some(k) => {
                proof {
                    lemma_find_from_bounds(s, seq!['\n'], pos);
                }
                seq![strip_cr(s.subrange(pos, k))] + lines_from(s, k + 1)
            },
        }
    }
}

/// The lines of `s` (`str::lines`).
pub open spec fn lines(s: Seq<char>) -> Seq<Seq<char>> {
    lines_from(s, 0)
}

/// The lines of `s`.
pub fn lines_exec(s: &Vec<char>) -> (r: Vec<Vec<char>>)
    ensures
        views(r@) == lines(s@),
{
    let mut nl: Vec<char> = Vec::new();
    nl.push('\n');
    assert(nl@ =~= seq!['\n']);
    let mut r: Vec<Vec<char>> = Vec::new();
    let mut pos: usize = 0;
    loop
        invariant
            nl@ == seq!['\n'],
            pos <= s.len(),
            views(r@) + lines_from(s@, pos as int) == lines(s@),
        decreases s.len() - pos,
    {
        let ghost old_r = r@;
        if pos >= s.len() {
            assert(views(r@) =~= views(r@) + lines_from(s@, pos as int));
            return r;
        }
        match find_from_exec(s, &nl, pos) {
            None => {
                let piece = sub_vec(s, pos, s.len());
                proof {
                    lemma_views_push(old_r, piece);
                }
                r.push(piece);
                assert(views(r@) == lines(s@));
                return r;
            },
            Some(k) => {
                proof {
                    lemma_find_from_bounds(s@, nl@, pos as int);
                }
                let mut piece = sub_vec(s, pos, k);
                if piece.len() > 0 && piece[piece.len() - 1] == '\r' {
                    piece.pop();
                }
                assert(piece@ == strip_cr(s@.subrange(pos as int, k as int)));
                proof {
                    lemma_views_push(old_r, piece);
                    assert(views(r@.push(piece)) + lines_from(s@, k + 1)
                        =~= views(old_r) + lines_from(s@, pos as int));
                }
                r.push(piece);
                pos = k + 1;
            },
        }
    }
}

// ---------------------------------------------------------------------------
// Whitespace
// ---------------------------------------------------------------------------

/// The Unicode `White_Space` characters (`char::is_whitespace`).
pub open spec fn is_ws(c: char) -> bool {
    ||| '\u{9}' <= c <= '\u{d}'
    ||| c == ' '
    ||| c == '\u{85}'
    ||| c == '\u{a0}'
    ||| c == '\u{1680}'
    ||| '\u{2000}' <= c <= '\u{200a}'
    ||| c == '\u{2028}'
    ||| c == '\u{2029}'
    ||| c == '\u{202f}'
    ||| c == '\u{205f}'
    ||| c == '\u{3000}'
}

/// Whether `c` is whitespace (exec).
pub fn is_ws_exec(c: char) -> (b: bool)
    ensures
        b == is_ws(c),
{
    ('\u{9}' <= c && c <= '\u{d}') || c == ' ' || c == '\u{85}' || c == '\u{a0}' || c
        == '\u{1680}' || ('\u{2000}' <= c && c <= '\u{200a}') || c == '\u{2028}' || c
        == '\u{2029}' || c == '\u{202f}' || c == '\u{205f}' || c == '\u{3000}'
}

/// `s` without leading whitespace.
pub open spec fn trim_start(s: Seq<char>) -> Seq<char>
    decreases s.len(),
{
    if s.len() > 0 && is_ws(s[0]) {
        trim_start(s.drop_first())
    } else {
        s
    }
}

/// `s` without trailing whitespace.
pub open spec fn trim_end(s: Seq<char>) -> Seq<char>
    decreases s.len(),
{
    if s.len() > 0 && is_ws(s.last()) {
        trim_end(s.drop_last())
    } else {
        s
    }
}

/// `s` without leading and trailing whitespace (`str::trim`).
pub open spec fn trim(s: Seq<char>) -> Seq<char> {
    trim_end(trim_start(s))
}

/// `s` without leading and trailing whitespace.
pub fn trim_exec(s: &Vec<char>) -> (r: Vec<char>)
    ensures
        r@ == trim(s@),
{
    let mut lo: usize = 0;
    assert(s@.subrange(0, s@.len() as int) =~= s@);
    while lo < s.len() && is_ws_exec(s[lo])
        invariant
            lo <= s.len(),
            trim_start(s@.subrange(lo as int, s@.len() as int)) == trim_start(s@),
        decreases s.len() - lo,
    {
        assert(s@.subrange(lo as int, s@.len() as int).drop_first() =~= s@.subrange(
            lo + 1,
            s@.len() as int,
        ));
        lo = lo + 1;
    }
    assert(s@.subrange(0, s@.len() as int) =~= s@);
    let mut hi: usize = s.len();
    while hi > lo && is_ws_exec(s[hi - 1])
        invariant
            lo <= hi <= s.len(),
            trim_start(s@) == s@.subrange(lo as int, s@.len() as int),
            trim_end(s@.subrange(lo as int, hi as int)) == trim(s@),
        decreases hi - lo,
    {
        assert(s@.subrange(lo as int, hi as int).drop_last() =~= s@.subrange(
            lo as int,
            hi - 1,
        ));
        hi = hi - 1;
    }
    sub_vec(s, lo, hi)
}

/// The index where the whitespace-free run starting at `pos` ends.
pub open spec fn word_end(s: Seq<char>, pos: int) -> int
    decreases s.len() - pos,
{
    if pos < 0 || pos >= s.len() || is_ws(s[pos]) {
        pos
    } else {
        word_end(s, pos + 1)
    }
}

pub proof fn lemma_word_end(s: Seq<char>, pos: int)
    requires
        0 <= pos <= s.len(),
    ensures
        pos <= word_end(s, pos) <= s.len(),
        pos < s.len() && !is_ws(s[pos]) ==> pos < word_end(s, pos),
    decreases s.len() - pos,
{
    if pos < s.len() && !is_ws(s[pos]) {
        lemma_word_end(s, pos + 1);
    }
}

/// The whitespace-separated words of `s[pos..]` (`str::split_whitespace`).
pub open spec fn words_from(s: Seq<char>, pos: int) -> Seq<Seq<char>>
    decreases s.len() - pos,
{
    if pos < 0 || pos >= s.len() {
        seq![]
    } else if is_ws(s[pos]) {
        words_from(s, pos + 1)
    } else {
        proof {
            lemma_word_end(s, pos);
        }
        seq![s.subrange(pos, word_end(s, pos))] + words_from(s, word_end(s, pos))
    }
}

/// The whitespace-separated words of `s` (`str::split_whitespace`).
pub open spec fn words(s: Seq<char>) -> Seq<Seq<char>> {
    words_from(s, 0)
}

/// The whitespace-separated words of `s`.
pub fn words_exec(s: &Vec<char>) -> (r: Vec<Vec<char>>)
    ensures
        views(r@) == words(s@),
{
    let mut r: Vec<Vec<char>> = Vec::new();
    let mut pos: usize = 0;
    while pos < s.len()
        invariant
            pos <= s.len(),
            views(r@) + words_from(s@, pos as int) == words(s@),
        decreases s.len() - pos,
    {
        if is_ws_exec(s[pos]) {
            pos = pos + 1;
        } else {
            let ghost old_r = r@;
            proof {
                lemma_word_end(s@, pos as int);
            }
            let mut e = pos;
            while e < s.len() && !is_ws_exec(s[e])
                invariant
                    pos <= e <= s.len(),
                    word_end(s@, pos as int) == word_end(s@, e as int),
                decreases s.len() - e,
            {
                e = e + 1;
            }
            let piece = sub_vec(s, pos, e);
            proof {
                lemma_views_push(old_r, piece);
                assert(views(r@.push(piece)) + words_from(s@, e as int) =~= views(old_r)
                    + words_from(s@, pos as int));
            }
            r.push(piece);
            pos = e;
        }
    }
    assert(views(r@) =~= views(r@) + words_from(s@, pos as int));
    r
}


// ---------------------------------------------------------------------------
// Decimal integers
// ---------------------------------------------------------------------------

/// An ASCII decimal digit.
pub open spec fn is_digit(c: char) -> bool {
    '0' <= c <= '9'
}

/// The value of a decimal digit.
pub open spec fn digit_val(c: char) -> nat {
    (c as int - '0' as int) as nat
}

/// The value of a sequence of decimal digits.
pub open spec fn digits_value(d: Seq<char>) -> nat
    decreases d.len(),
{
    if d.len() == 0 {
        0
    } else {
        digits_value(d.drop_last()) * 10 + digit_val(d.last())
    }
}

/// Every character of `d` is a decimal digit.
pub open spec fn all_digits(d: Seq<char>) -> bool {
    forall|i: int| 0 <= i < d.len() ==> is_digit(#[trigger] d[i])
}

/// The unsigned integer that `s` denotes when parsed into a type whose
/// largest value is `max` (`str::parse` for `u8`..`u64`): an optional `+`
/// and at least one decimal digit, without overflow.
pub open spec fn parse_unsigned(s: Seq<char>, max: nat) -> Option<nat> {
    let d = if s.len() > 0 && s[0] == '+' {
        s.drop_first()
    } else {
        s
    };
    if d.len() > 0 && all_digits(d) && digits_value(d) <= max {
        Some(digits_value(d))
    } else {
        None
    }
}

/// The signed integer that `s` denotes when parsed into a type with range
/// `min..=max` (`str::parse` for `i8`..`i64`).
pub open spec fn parse_signed(s: Seq<char>, min: int, max: int) -> Option<int> {
    if s.len() > 0 && s[0] == '-' {
        let d = s.drop_first();
        if d.len() > 0 && all_digits(d) && -(digits_value(d) as int) >= min {
            Some(-(digits_value(d) as int))
        } else {
            None
        }
    } else {
        match parse_unsigned(s, max as nat) {
            Some(n) => if max >= 0 {
                Some(n as int)
            } else {
                None
            },
            None => None,
        }
    }
}

pub proof fn lemma_digits_value_prefix(d: Seq<char>, i: int)
    requires
        0 <= i <= d.len(),
    ensures
        digits_value(d.take(i)) <= digits_value(d),
    decreases d.len(),
{
    if i < d.len() {
        lemma_digits_value_prefix(d.drop_last(), i);
        assert(d.drop_last().take(i) =~= d.take(i));
    } else {
        assert(d.take(i) =~= d);
    }
}

/// The value of the digits `v[lo..]`, when they are all digits, non-empty
/// and at most `max`.
fn parse_digits(v: &Vec<char>, lo: usize, max: u64) -> (r: Option<u64>)
    requires
        lo <= v.len(),
    ensures
        ({
            let d = v@.subrange(lo as int, v@.len() as int);
            match r {
                Some(n) => d.len() > 0 && all_digits(d) && digits_value(d) <= max && n
                    == digits_value(d),
                None => !(d.len() > 0 && all_digits(d) && digits_value(d) <= max),
            }
        }),
{
    let ghost d = v@.subrange(lo as int, v@.len() as int);
    if lo == v.len() {
        return None;
    }
    let mut acc: u64 = 0;
    let mut i = lo;
    while i < v.len()
        invariant
            lo <= i <= v.len(),
            d == v@.subrange(lo as int, v@.len() as int),
            acc <= max,
            all_digits(d.take(i - lo)),
            acc == digits_value(d.take(i - lo)),
        decreases v.len() - i,
    {
        let c = v[i];
        if !('0' <= c && c <= '9') {
            assert(d[i - lo] == c);
            return None;
        }
        let dv: u64 = (c as u32 - '0' as u32) as u64;
        let next: u128 = acc as u128 * 10 + dv as u128;
        assert(d.take(i - lo + 1).drop_last() =~= d.take(i - lo));
        assert(d.take(i - lo + 1).last() == c);
        if next > max as u128 {
            proof {
                lemma_digits_value_prefix(d, i - lo + 1);
            }
            return None;
        }
        acc = next as u64;
        assert forall|j: int| 0 <= j < d.take(i - lo + 1).len() implies is_digit(
            #[trigger] d.take(i - lo + 1)[j],
        ) by {
            if j < i - lo {
                assert(d.take(i - lo + 1)[j] == d.take(i - lo)[j]);
            }
        }
        i = i + 1;
    }
    assert(d.take(v@.len() - lo) =~= d);
    Some(acc)
}

/// Parses `s` as an unsigned integer not above `max` (`str::parse::<uN>`).
pub fn parse_unsigned_exec(s: &Vec<char>, max: u64) -> (r: Option<u64>)
    ensures
        match r {
            Some(n) => parse_unsigned(s@, max as nat) == Some(n as nat),
            None => parse_unsigned(s@, max as nat) is None,
        },
{
    if s.len() > 0 && s[0] == '+' {
        assert(s@.subrange(1, s@.len() as int) =~= s@.drop_first());
        parse_digits(s, 1, max)
    } else {
        assert(s@.subrange(0, s@.len() as int) =~= s@);
        parse_digits(s, 0, max)
    }
}

/// Parses `s` as a `u16`.
pub fn parse_u16(s: &Vec<char>) -> (r: Option<u16>)
    ensures
        match r {
            Some(n) => parse_unsigned(s@, u16::MAX as nat) == Some(n as nat),
            None => parse_unsigned(s@, u16::MAX as nat) is None,
        },
{
    match parse_unsigned_exec(s, u16::MAX as u64) {
        Some(n) => Some(n as u16),
        None => None,
    }
}

/// Parses `s` as a `u32`.
pub fn parse_u32(s: &Vec<char>) -> (r: Option<u32>)
    ensures
        match r {
            Some(n) => parse_unsigned(s@, u32::MAX as nat) == Some(n as nat),
            None => parse_unsigned(s@, u32::MAX as nat) is None,
        },
{
    match parse_unsigned_exec(s, u32::MAX as u64) {
        Some(n) => Some(n as u32),
        None => None,
    }
}

/// Parses `s` as a `u64`.
pub fn parse_u64(s: &Vec<char>) -> (r: Option<u64>)
    ensures
        match r {
            Some(n) => parse_unsigned(s@, u64::MAX as nat) == Some(n as nat),
            None => parse_unsigned(s@, u64::MAX as nat) is None,
        },
{
    parse_unsigned_exec(s, u64::MAX)
}

/// Parses `s` as an `i32`.
pub fn parse_i32(s: &Vec<char>) -> (r: Option<i32>)
    ensures
        match r {
            Some(n) => parse_signed(s@, i32::MIN as int, i32::MAX as int) == Some(n as int),
            None => parse_signed(s@, i32::MIN as int, i32::MAX as int) is None,
        },
{
    if s.len() > 0 && s[0] == '-' {
        assert(s@.subrange(1, s@.len() as int) =~= s@.drop_first());
        match parse_digits(s, 1, 2147483648u64) {
            Some(n) => Some((0 - n as i64) as i32),
            None => None,
        }
    } else {
        match parse_unsigned_exec(s, i32::MAX as u64) {
            Some(n) => Some(n as i32),
            None => None,
        }
    }
}

/// The decimal digit character for `d < 10`.
pub open spec fn digit_char(d: nat) -> char {
    if d == 0 {
        '0'
    } else if d == 1 {
        '1'
    } else if d == 2 {
        '2'
    } else if d == 3 {
        '3'
    } else if d == 4 {
        '4'
    } else if d == 5 {
        '5'
    } else if d == 6 {
        '6'
    } else if d == 7 {
        '7'
    } else if d == 8 {
        '8'
    } else {
        '9'
    }
}

/// The decimal text of `n` (`Display` for unsigned integers).
pub open spec fn nat_text(n: nat) -> Seq<char>
    decreases n,
{
    if n < 10 {
        seq![digit_char(n)]
    } else {
        nat_text(n / 10).push(digit_char(n % 10))
    }
}

/// The decimal text of `n` (`Display` for signed integers).
pub open spec fn int_text(n: int) -> Seq<char> {
    if n < 0 {
        seq!['-'] + nat_text((-n) as nat)
    } else {
        nat_text(n as nat)
    }
}

pub fn digit_exec(d: u64) -> (c: char)
    requires
        d < 10,
    ensures
        c == digit_char(d as nat),
{
    match d {
        0 => '0',
        1 => '1',
        2 => '2',
        3 => '3',
        4 => '4',
        5 => '5',
        6 => '6',
        7 => '7',
        8 => '8',
        _ => '9',
    }
}

/// The decimal text of `n`.
pub fn u64_text(n: u64) -> (r: String)
    ensures
        r@ == nat_text(n as nat),
    decreases n,
{
    if n < 10 {
        let mut r = String::new();
        push_char(&mut r, digit_exec(n));
        assert(r@ =~= seq![digit_char(n as nat)]);
        r
    } else {
        let mut r = u64_text(n / 10);
        push_char(&mut r, digit_exec(n % 10));
        r
    }
}

/// The decimal text of `n`.
pub fn i64_text(n: i64) -> (r: String)
    ensures
        r@ == int_text(n as int),
{
    if n < 0 {
        let mut r = String::new();
        push_char(&mut r, '-');
        let m: u64 = if n == i64::MIN {
            9223372036854775808u64
        } else {
            (-n) as u64
        };
        let t = u64_text(m);
        r.append(t.as_str());
        assert(r@ =~= seq!['-'] + nat_text((-n) as nat));
        r
    } else {
        u64_text(n as u64)
    }
}

pub proof fn lemma_nat_text_digits(n: nat)
    ensures
        all_digits(nat_text(n)),
        digits_value(nat_text(n)) == n,
        nat_text(n).len() > 0,
        nat_text(n)[0] != '+' && nat_text(n)[0] != '-',
    decreases n,
{
    if n < 10 {
        assert(nat_text(n).drop_last() =~= Seq::<char>::empty());
        assert(digits_value(Seq::<char>::empty()) == 0);
        assert(digit_val(digit_char(n)) == n);
        assert(nat_text(n).last() == digit_char(n));
    } else {
        lemma_nat_text_digits(n / 10);
        let t = nat_text(n / 10);
        assert(nat_text(n).drop_last() =~= t);
        assert(digit_val(digit_char(n % 10)) == n % 10);
        assert(nat_text(n).last() == digit_char(n % 10));
        assert(digits_value(nat_text(n)) == digits_value(t) * 10 + n % 10);
        assert forall|i: int| 0 <= i < nat_text(n).len() implies is_digit(
            #[trigger] nat_text(n)[i],
        ) by {
            if i < t.len() {
                assert(nat_text(n)[i] == t[i]);
            }
        }
    }
}

/// Law: decimal text read back gives the number it was made from.
pub proof fn lemma_parse_nat_text(n: nat, max: nat)
    requires
        n <= max,
    ensures
        parse_unsigned(nat_text(n), max) == Some(n),
{
    lemma_nat_text_digits(n);
}

// ---------------------------------------------------------------------------
// Replacement, case and byte length
// ---------------------------------------------------------------------------

/// `s` with every `c` replaced by `t` (`str::replace(char, &str)`).
pub open spec fn replace_char(s: Seq<char>, c: char, t: Seq<char>) -> Seq<char>
    decreases s.len(),
{
    if s.len() == 0 {
        s
    } else if s.last() == c {
        replace_char(s.drop_last(), c, t) + t
    } else {
        replace_char(s.drop_last(), c, t).push(s.last())
    }
}

/// `s` with every `c` replaced by `t`.
pub fn replace_char_exec(s: &Vec<char>, c: char, t: &str) -> (r: String)
    ensures
        r@ == replace_char(s@, c, t@),
{
    let mut r = String::new();
    let mut i: usize = 0;
    while i < s.len()
        invariant
            i <= s.len(),
            r@ == replace_char(s@.take(i as int), c, t@),
        decreases s.len() - i,
    {
        assert(s@.take(i + 1).drop_last() =~= s@.take(i as int));
        if s[i] == c {
            r.append(t);
        } else {
            push_char(&mut r, s[i]);
        }
        i = i + 1;
    }
    assert(s@.take(s@.len() as int) =~= s@);
    r
}

/// What `str::to_lowercase` returns for a string with characters `s`.
pub uninterp spec fn lowercase(s: Seq<char>) -> Seq<char>;

/// Every character of `s` is ASCII.
pub open spec fn is_ascii(s: Seq<char>) -> bool {
    forall|i: int| 0 <= i < s.len() ==> (#[trigger] s[i] as u32) < 128
}

/// The ASCII lower case of a character: `A`..`Z` become `a`..`z`, every
/// other character stays.
pub open spec fn ascii_lower_char(c: char) -> char {
    if 'A' <= c <= 'Z' {
        ((c as u32) + 32) as char
    } else {
        c
    }
}

/// The ASCII lower case of every character of `s`.
pub open spec fn ascii_lower(s: Seq<char>) -> Seq<char> {
    Seq::new(s.len(), |i: int| ascii_lower_char(s[i]))
}

/// `str::to_lowercase`: the lower-case mapping of every character, as the
/// standard library defines it. The contract names that result
/// `lowercase`; of ASCII text it states the mapping std documents for
/// ASCII letters (`A`..`Z` to `a`..`z`, everything else kept), and of
/// other text nothing more.
#[verifier::external_body]
pub(crate) fn to_lowercase(s: &str) -> (r: String)
    ensures
        r@ == lowercase(s@),
        is_ascii(s@) ==> r@ == ascii_lower(s@),
{
    s.to_lowercase()
}

/// The number of bytes that `c` takes in UTF-8.
pub open spec fn utf8_width(c: char) -> nat {
    if (c as u32) < 0x80 {
        1
    } else if (c as u32) < 0x800 {
        2
    } else if (c as u32) < 0x10000 {
        3
    } else {
        4
    }
}

/// The number of bytes that `s` takes in UTF-8 (`str::len`).
pub open spec fn utf8_len(s: Seq<char>) -> nat
    decreases s.len(),
{
    if s.len() == 0 {
        0
    } else {
        utf8_len(s.drop_last()) + utf8_width(s.last())
    }
}

/// The UTF-8 byte length of `s`, or `None` when it exceeds `usize::MAX`.
pub fn utf8_len_exec(s: &Vec<char>) -> (r: usize)
    ensures
        r as nat == if utf8_len(s@) <= usize::MAX { utf8_len(s@) } else { usize::MAX as nat },
{
    let mut n: usize = 0;
    let mut i: usize = 0;
    while i < s.len()
        invariant
            i <= s.len(),
            n as nat == if utf8_len(s@.take(i as int)) <= usize::MAX {
                utf8_len(s@.take(i as int))
            } else {
                usize::MAX as nat
            },
        decreases s.len() - i,
    {
        assert(s@.take(i + 1).drop_last() =~= s@.take(i as int));
        let c = s[i] as u32;
        let w: usize = if c < 0x80 {
            1
        } else if c < 0x800 {
            2
        } else if c < 0x10000 {
            3
        } else {
            4
        };
        if n > usize::MAX - w {
            n = usize::MAX;
        } else {
            n = n + w;
        }
        i = i + 1;
    }
    assert(s@.take(s@.len() as int) =~= s@);
    n
}


// ---------------------------------------------------------------------------
// Joining
// ---------------------------------------------------------------------------

/// The pieces of `parts` with `sep` between neighbours (`[..].join(sep)`).
pub open spec fn join(parts: Seq<Seq<char>>, sep: Seq<char>) -> Seq<char>
    decreases parts.len(),
{
    if parts.len() == 0 {
        seq![]
    } else if parts.len() == 1 {
        parts[0]
    } else {
        join(parts.drop_last(), sep) + sep + parts.last()
    }
}

/// The views of a sequence of strings.
pub open spec fn texts(v: Seq<String>) -> Seq<Seq<char>> {
    v.map_values(|x: String| x@)
}

/// The strings of `parts` with `sep` between neighbours.
pub fn join_exec(parts: &Vec<String>, sep: &str) -> (r: String)
    ensures
        r@ == join(texts(parts@), sep@),
{
    let mut r = String::new();
    let mut i: usize = 0;
    while i < parts.len()
        invariant
            i <= parts.len(),
            r@ == join(texts(parts@.take(i as int)), sep@),
        decreases parts.len() - i,
    {
        assert(texts(parts@.take(i + 1)).drop_last() =~= texts(parts@.take(i as int)));
        assert(texts(parts@.take(i + 1)).last() == parts@[i as int]@);
        if i > 0 {
            r.append(sep);
        } else {
            assert(texts(parts@.take(0)) =~= Seq::<Seq<char>>::empty());
        }
        r.append(parts[i].as_str());
        i = i + 1;
    }
    assert(parts@.take(parts@.len() as int) =~= parts@);
    r
}


// ---------------------------------------------------------------------------
// Comparisons against string slices
// ---------------------------------------------------------------------------

/// Whether `a` and `b` hold the same characters.
pub fn seq_equal(a: &Vec<char>, b: &Vec<char>) -> (r: bool)
    ensures
        r == (a@ == b@),
{
    if a.len() != b.len() {
        return false;
    }
    let mut i: usize = 0;
    while i < a.len()
        invariant
            a.len() == b.len(),
            i <= a.len(),
            forall|j: int| 0 <= j < i ==> a@[j] == b@[j],
        decreases a.len() - i,
    {
        if a[i] != b[i] {
            return false;
        }
        i = i + 1;
    }
    assert(a@ =~= b@);
    true
}

/// Whether `v` holds exactly the characters of `s`.
pub fn equals(v: &Vec<char>, s: &str) -> (r: bool)
    ensures
        r == (v@ == s@),
{
    let w = chars_of(s);
    seq_equal(v, &w)
}

/// Whether `s` occurs in `v`.
pub fn contains_str(v: &Vec<char>, s: &str) -> (r: bool)
    ensures
        r == contains(v@, s@),
{
    let w = chars_of(s);
    contains_exec(v, &w)
}

/// Whether `v` begins with `s`.
pub fn starts_with_str(v: &Vec<char>, s: &str) -> (r: bool)
    ensures
        r == starts_with(v@, s@),
{
    let w = chars_of(s);
    starts_with_exec(v, &w)
}

/// Whether `v` ends with `s`.
pub fn ends_with_str(v: &Vec<char>, s: &str) -> (r: bool)
    ensures
        r == ends_with(v@, s@),
{
    let w = chars_of(s);
    ends_with_exec(v, &w)
}

/// Splits `v` on every occurrence of `s`.
pub fn split_str(v: &Vec<char>, s: &str) -> (r: Vec<Vec<char>>)
    ensures
        views(r@) == split(v@, s@),
{
    let w = chars_of(s);
    split_exec(v, &w)
}

/// The lower-case characters of `v` (`str::to_lowercase`).
pub fn lower_chars(v: &Vec<char>) -> (r: Vec<char>)
    ensures
        r@ == lowercase(v@),
        is_ascii(v@) ==> r@ == ascii_lower(v@),
{
    let s = string_from(v);
    let l = to_lowercase(s.as_str());
    chars_of(l.as_str())
}


/// The strings holding the character vectors of `v`.
pub fn strings_of(v: &Vec<Vec<char>>) -> (r: Vec<String>)
    ensures
        texts(r@) == views(v@),
{
    let mut r: Vec<String> = Vec::new();
    let mut i: usize = 0;
    while i < v.len()
        invariant
            i <= v.len(),
            texts(r@) == views(v@).take(i as int),
        decreases v.len() - i,
    {
        let ghost before = r@;
        let s = string_from(&v[i]);
        r.push(s);
        assert(views(v@)[i as int] == v@[i as int]@);
        assert(texts(r@) =~= texts(before).push(s@));
        assert(views(v@).take(i + 1) =~= views(v@).take(i as int).push(v@[i as int]@));
        i = i + 1;
    }
    assert(views(v@).take(v@.len() as int) =~= views(v@));
    r
}

/// `s` with every occurrence of `p` replaced by `t` (`str::replace`).
pub open spec fn replace_all(s: Seq<char>, p: Seq<char>, t: Seq<char>) -> Seq<char> {
    join(split(s, p), t)
}

/// Replaces every occurrence of `p` in `s` by `t`.
pub fn replace_str(s: &str, p: &str, t: &str) -> (r: String)
    ensures
        r@ == replace_all(s@, p@, t@),
{
    let v = chars_of(s);
    let parts = split_str(&v, p);
    let strs = strings_of(&parts);
    join_exec(&strs, t)
}

} // verus!
