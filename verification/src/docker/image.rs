//! Docker image references.

use vstd::prelude::*;
use crate::platform::Error;
use crate::text::{
    chars_of, extend_chars, has_char, has_char_exec, lemma_split_cons, lemma_split_decompose,
    lemma_split_len, lemma_split_nosep, lemma_split_pieces, owned, rfind_char, rfind_char_exec,
    split, split_char, string_from, string_of, sub_vec, views,
};

verus! {

/// A parsed image reference: optional registry, repository and tag.
#[derive(Debug, Clone)]
pub struct ImageRef {
    pub registry: Option<String>,
    pub repository: String,
    pub tag: String,
}

/// An image reference as character sequences.
pub struct ImageRefView {
    pub registry: Option<Seq<char>>,
    pub repository: Seq<char>,
    pub tag: Seq<char>,
}

impl View for ImageRef {
    type V = ImageRefView;

    open spec fn view(&self) -> ImageRefView {
        ImageRefView {
            registry: match self.registry {
                Some(r) => Some(r@),
                None => None,
            },
            repository: self.repository@,
            tag: self.tag@,
        }
    }
}

/// Splits `repository[:tag]` at its last `:`, unless what follows holds a
/// `/` (then the colon belonged to a registry port); the tag defaults to
/// `latest`.
pub open spec fn repo_and_tag(rt: Seq<char>) -> (Seq<char>, Seq<char>) {
    match rfind_char(rt, ':') {
        Some(i) => {
            let after = rt.subrange(i + 1, rt.len() as int);
            if has_char(after, '/') {
                (rt, "latest"@)
            } else {
                (rt.subrange(0, i), after)
            }
        },
        None => (rt, "latest"@),
    }
}

/// The registry (if any) and the `repository[:tag]` part of an image
/// reference, by its `/`-separated parts: one part is a bare repository;
/// with two, the first is a registry when it holds `.` or `:`; with three,
/// the first is the registry; more are refused.
pub open spec fn image_location(s: Seq<char>) -> Option<(Option<Seq<char>>, Seq<char>)> {
    let parts = split(s, seq!['/']);
    if parts.len() == 1 {
        Some((None, parts[0]))
    } else if parts.len() == 2 {
        if has_char(parts[0], '.') || has_char(parts[0], ':') {
            Some((Some(parts[0]), parts[1]))
        } else {
            Some((None, s))
        }
    } else if parts.len() == 3 {
        Some((Some(parts[0]), parts[1] + seq!['/'] + parts[2]))
    } else {
        None
    }
}

/// The reference that `s` denotes, or `None` when it is invalid.
pub open spec fn parse_image(s: Seq<char>) -> Option<ImageRefView> {
    match image_location(s) {
        Some((registry, rt)) => Some(
            ImageRefView { registry, repository: repo_and_tag(rt).0, tag: repo_and_tag(rt).1 },
        ),
        None => None,
    }
}

/// The full text of a reference: `registry/repository:tag` or `repository:tag`.
pub open spec fn image_text(r: ImageRefView) -> Seq<char> {
    match r.registry {
        Some(reg) => reg + "/"@ + r.repository + ":"@ + r.tag,
        None => r.repository + ":"@ + r.tag,
    }
}

/// The last occurrence found is the last one there is.
proof fn lemma_rfind(s: Seq<char>, c: char)
    ensures
        rfind_char(s, c) matches Some(i) ==> 0 <= i < s.len() && s[i] == c && (forall|j: int|
            i < j < s.len() ==> s[j] != c),
        rfind_char(s, c) is None ==> !s.contains(c),
    decreases s.len(),
{
    if s.len() > 0 && s.last() != c {
        lemma_rfind(s.drop_last(), c);
        if let Some(i) = rfind_char(s, c) {
            assert forall|j: int| i < j < s.len() implies s[j] != c by {
                if j < s.len() - 1 {
                    assert(s[j] == s.drop_last()[j]);
                }
            }
        }
        if rfind_char(s, c) is None {
            assert forall|j: int| 0 <= j < s.len() implies s[j] != c by {
                if j < s.len() - 1 {
                    assert(s[j] == s.drop_last()[j]);
                }
            }
        }
    }
}

/// A separator followed by a tail without it is the last occurrence.
proof fn lemma_rfind_after(x: Seq<char>, c: char, t: Seq<char>)
    requires
        !t.contains(c),
    ensures
        rfind_char(x + seq![c] + t, c) == Some(x.len() as int),
    decreases t.len(),
{
    let s = x + seq![c] + t;
    if t.len() > 0 {
        assert(s.last() == t.last());
        assert(s.drop_last() =~= x + seq![c] + t.drop_last());
        assert(!t.drop_last().contains(c)) by {
            if t.drop_last().contains(c) {
                let j = choose|j: int| 0 <= j < t.drop_last().len() && t.drop_last()[j] == c;
                assert(t[j] == c);
            }
        }
        lemma_rfind_after(x, c, t.drop_last());
    }
}

proof fn lemma_lacks_concat(x: Seq<char>, y: Seq<char>, c: char)
    requires
        !x.contains(c),
        !y.contains(c),
    ensures
        !(x + y).contains(c),
{
    if (x + y).contains(c) {
        let j = choose|j: int| 0 <= j < (x + y).len() && (x + y)[j] == c;
        if j < x.len() {
            assert(x[j] == c);
        } else {
            assert(y[j - x.len()] == c);
        }
    }
}

proof fn lemma_lacks_sub(x: Seq<char>, lo: int, hi: int, c: char)
    requires
        0 <= lo <= hi <= x.len(),
        !x.contains(c),
    ensures
        !x.subrange(lo, hi).contains(c),
{
    if x.subrange(lo, hi).contains(c) {
        let j = choose|j: int| 0 <= j < hi - lo && x.subrange(lo, hi)[j] == c;
        assert(x[lo + j] == c);
    }
}

/// A text splits into one piece exactly when it lacks the separator.
proof fn lemma_split_single(x: Seq<char>, c: char)
    ensures
        split(x, seq![c]).len() == 1 <==> !x.contains(c),
{
    if x.contains(c) {
        let (a, y) = lemma_split_decompose(x, c);
        lemma_split_len(y, c);
    } else {
        lemma_split_nosep(x, c);
    }
}

/// The tag has neither `:` nor `/`, and the repository is the whole text
/// or the text up to the `:` before the tag.
proof fn lemma_repo_tag_shape(rt: Seq<char>)
    ensures
        !repo_and_tag(rt).1.contains(':'),
        !repo_and_tag(rt).1.contains('/'),
        repo_and_tag(rt).0 == rt || rt == repo_and_tag(rt).0 + seq![':'] + repo_and_tag(rt).1,
{
    reveal_strlit("latest");
    lemma_rfind(rt, ':');
    match rfind_char(rt, ':') {
        Some(i) => {
            let after = rt.subrange(i + 1, rt.len() as int);
            if !has_char(after, '/') {
                assert(rt =~= rt.subrange(0, i) + seq![':'] + after);
                assert(!after.contains(':')) by {
                    if after.contains(':') {
                        let j = choose|j: int| 0 <= j < after.len() && after[j] == ':';
                        assert(rt[i + 1 + j] == ':');
                    }
                }
            }
        },
        None => {},
    }
}

/// A repository, `:` and a tag without `:` or `/` read back as that
/// repository and tag.
proof fn lemma_repo_tag_join(repo: Seq<char>, tag: Seq<char>)
    requires
        !tag.contains(':'),
        !tag.contains('/'),
    ensures
        repo_and_tag(repo + seq![':'] + tag) == (repo, tag),
{
    let rt = repo + seq![':'] + tag;
    lemma_rfind_after(repo, ':', tag);
    assert(rt.subrange(repo.len() + 1int, rt.len() as int) =~= tag);
    assert(rt.subrange(0, repo.len() as int) =~= repo);
}

/// What every parsed reference looks like: a tag without `:` or `/`, a
/// repository with at most one `/`, a registry without `/` that holds `.`
/// or `:` when the repository has no `/`, and, without a registry, a
/// repository whose first part holds neither `.` nor `:`.
pub open spec fn image_shaped(r: ImageRefView) -> bool {
    let parts = split(r.repository, seq!['/']);
    &&& !r.tag.contains(':')
    &&& !r.tag.contains('/')
    &&& parts.len() <= 2
    &&& match r.registry {
        Some(g) => !g.contains('/') && (parts.len() == 1 ==> (g.contains('.') || g.contains(':'))),
        None => parts.len() == 2 ==> (!parts[0].contains('.') && !parts[0].contains(':')),
    }
}

/// When `a + "/" + y` is also a repository, `:` and a tag without `/`,
/// the repository is `a`, `/` and a part of `y`.
proof fn lemma_repo_past_slash(a: Seq<char>, y: Seq<char>, repo: Seq<char>, tag: Seq<char>)
    requires
        a + seq!['/'] + y == repo + seq![':'] + tag,
        !a.contains('/'),
        !y.contains('/'),
        !tag.contains('/'),
    ensures
        split(repo, seq!['/']) == seq![a, repo.subrange(a.len() + 1int, repo.len() as int)],
{
    let a1 = a + seq!['/'];
    let r1 = repo + seq![':'];
    let s1 = a1 + y;
    let s2 = r1 + tag;
    assert(s1 == s2);
    assert(a1[a.len() as int] == '/');
    assert(s1[a.len() as int] == '/');
    if repo.len() < a.len() {
        assert(s2[a.len() as int] == tag[a.len() - r1.len()]);
        assert(tag.contains('/'));
    } else if repo.len() == a.len() {
        assert(r1[repo.len() as int] == ':');
        assert(s2[repo.len() as int] == ':');
    }
    assert(repo.len() > a.len());
    let q = repo.subrange(a.len() + 1int, repo.len() as int);
    assert forall|k: int| 0 <= k < repo.len() implies #[trigger] repo[k] == (a1 + q)[k] by {
        assert(r1[k] == repo[k]);
        assert(s2[k] == r1[k]);
        if k < a.len() {
            assert(a1[k] == a[k]);
            assert(s1[k] == a1[k]);
        } else if k > a.len() {
            assert(s1[k] == y[k - a1.len()]);
        }
    }
    assert(repo =~= a1 + q);
    assert(repo == a + seq!['/'] + q);
    assert forall|k: int| 0 <= k < q.len() implies #[trigger] q[k] == y[k] by {
        let m = a1.len() + k;
        assert(r1[m] == repo[m]);
        assert(s2[m] == r1[m]);
        assert(s1[m] == y[k]);
    }
    assert(q =~= y.subrange(0, q.len() as int));
    lemma_lacks_sub(y, 0, q.len() as int, '/');
    lemma_split_cons(a, q, '/');
    lemma_split_nosep(q, '/');
    assert(seq![a] + seq![q] =~= seq![a, q]);
}

/// Every reference that parses has the shape above.
proof fn lemma_parse_shape(s: Seq<char>)
    requires
        parse_image(s) is Some,
    ensures
        image_shaped(parse_image(s)->Some_0),
{
    let parts = split(s, seq!['/']);
    lemma_split_pieces(s, '/');
    let (registry, rt) = image_location(s)->Some_0;
    lemma_repo_tag_shape(rt);
    let repo = repo_and_tag(rt).0;
    let tag = repo_and_tag(rt).1;
    if parts.len() == 1 || (parts.len() == 2 && (has_char(parts[0], '.') || has_char(parts[0], ':'))) {
        let p = if parts.len() == 1 { parts[0] } else { parts[1] };
        assert(!p.contains('/'));
        assert(rt == p);
        if repo != rt {
            assert(repo =~= rt.subrange(0, repo.len() as int));
            lemma_lacks_sub(rt, 0, repo.len() as int, '/');
        }
        lemma_split_nosep(repo, '/');
    } else if parts.len() == 2 {
        lemma_split_single(s, '/');
        let (a, y) = lemma_split_decompose(s, '/');
        lemma_split_single(y, '/');
        assert(parts[0] == a);
        if repo == rt {
            lemma_split_cons(a, y, '/');
            lemma_split_nosep(y, '/');
            assert(seq![a] + seq![y] =~= seq![a, y]);
        } else {
            lemma_repo_past_slash(a, y, repo, tag);
        }
    } else {
        let p1 = parts[1];
        let p2 = parts[2];
        assert(!p1.contains('/') && !p2.contains('/'));
        assert(rt == p1 + seq!['/'] + p2);
        if repo == rt {
            lemma_split_cons(p1, p2, '/');
            lemma_split_nosep(p2, '/');
            assert(seq![p1] + seq![p2] =~= seq![p1, p2]);
        } else {
            lemma_repo_past_slash(p1, p2, repo, tag);
        }
    }
}

/// Every shaped reference reads back from its text as itself.
proof fn lemma_reparse(r: ImageRefView)
    requires
        image_shaped(r),
    ensures
        parse_image(image_text(r)) == Some(r),
{
    reveal_strlit("/");
    reveal_strlit(":");
    let repo = r.repository;
    let tag = r.tag;
    let parts = split(repo, seq!['/']);
    lemma_split_len(repo, '/');
    lemma_split_single(repo, '/');
    lemma_split_pieces(repo, '/');
    let rt = repo + seq![':'] + tag;
    lemma_repo_tag_join(repo, tag);
    if parts.len() == 1 {
        lemma_lacks_concat(repo, seq![':'], '/');
        lemma_lacks_concat(repo + seq![':'], tag, '/');
        match r.registry {
            Some(g) => {
                assert(image_text(r) =~= g + seq!['/'] + rt);
                lemma_split_cons(g, rt, '/');
                lemma_split_nosep(rt, '/');
                assert(split(image_text(r), seq!['/']) =~= seq![g, rt]);
            },
            None => {
                assert(image_text(r) =~= rt);
                lemma_split_nosep(rt, '/');
            },
        }
    } else {
        let (a, y) = lemma_split_decompose(repo, '/');
        lemma_split_single(y, '/');
        assert(parts[0] == a);
        let yt = y + seq![':'] + tag;
        lemma_lacks_concat(y, seq![':'], '/');
        lemma_lacks_concat(y + seq![':'], tag, '/');
        assert(rt =~= a + seq!['/'] + yt);
        lemma_split_cons(a, yt, '/');
        lemma_split_nosep(yt, '/');
        assert(split(rt, seq!['/']) =~= seq![a, yt]);
        match r.registry {
            Some(g) => {
                assert(image_text(r) =~= g + seq!['/'] + rt);
                lemma_split_cons(g, rt, '/');
                assert(split(image_text(r), seq!['/']) =~= seq![g, a, yt]);
                assert(a + seq!['/'] + yt == rt);
            },
            None => {
                assert(image_text(r) =~= rt);
            },
        }
    }
}

/// Law: a reference that parses prints to a text that parses back to
/// the same registry, repository and tag.
pub proof fn law_image_round_trip(s: Seq<char>)
    requires
        parse_image(s) is Some,
    ensures
        parse_image(image_text(parse_image(s)->Some_0)) == parse_image(s),
{
    lemma_parse_shape(s);
    lemma_reparse(parse_image(s)->Some_0);
}

fn split_repo_and_tag(rt: &Vec<char>) -> (r: (String, String))
    ensures
        (r.0@, r.1@) == repo_and_tag(rt@),
{
    match rfind_char_exec(rt, ':') {
        Some(i) => {
            let after = sub_vec(rt, i + 1, rt.len());
            if has_char_exec(&after, '/') {
                (string_from(rt), owned("latest"))
            } else {
                (string_of(rt, 0, i), string_from(&after))
            }
        },
        None => (string_from(rt), owned("latest")),
    }
}

impl ImageRef {
    /// Parse an image reference string
    pub fn parse(image: &str) -> (r: Result<ImageRef, Error>)
        ensures
            match r {
                Ok(img) => parse_image(image@) == Some(img@),
                Err(e) => parse_image(image@) is None && (e matches Error::Validation(m)
                    && m@ == "Invalid image reference"@),
            },
    {
        let v = chars_of(image);
        let parts = split_char(&v, '/');
        proof {
            assert(views(parts@).len() == parts@.len());
        }
        let n = parts.len();
        let (registry, rt): (Option<String>, Vec<char>) = if n == 1 {
            assert(views(parts@)[0] == parts@[0]@);
            let rt = sub_vec(&parts[0], 0, parts[0].len());
            assert(rt@ =~= parts@[0]@);
            (None, rt)
        } else if n == 2 {
            assert(views(parts@)[0] == parts@[0]@);
            assert(views(parts@)[1] == parts@[1]@);
            if has_char_exec(&parts[0], '.') || has_char_exec(&parts[0], ':') {
                let rt = sub_vec(&parts[1], 0, parts[1].len());
                assert(rt@ =~= parts@[1]@);
                (Some(string_from(&parts[0])), rt)
            } else {
                (None, v)
            }
        } else if n == 3 {
            assert(views(parts@)[0] == parts@[0]@);
            assert(views(parts@)[1] == parts@[1]@);
            assert(views(parts@)[2] == parts@[2]@);
            let mut rt = sub_vec(&parts[1], 0, parts[1].len());
            assert(rt@ =~= parts@[1]@);
            rt.push('/');
            extend_chars(&mut rt, &parts[2]);
            assert(rt@ =~= parts@[1]@ + seq!['/'] + parts@[2]@);
            (Some(string_from(&parts[0])), rt)
        } else {
            return Err(Error::Validation(owned("Invalid image reference")));
        };
        assert(image_location(image@) == Some((
            match registry {
                Some(r) => Some(r@),
                None => None,
            },
            rt@,
        )));
        let (repository, tag) = split_repo_and_tag(&rt);
        let img = ImageRef { registry, repository, tag };
        Ok(img)
    }

    /// Convert back to full image reference
    pub fn to_string(&self) -> (r: String)
        ensures
            r@ == image_text(self@),
    {
        match &self.registry {
            Some(reg) => {
                let mut r = reg.clone();
                r.append("/");
                r.append(self.repository.as_str());
                r.append(":");
                r.append(self.tag.as_str());
                r
            },
            None => {
                let mut r = self.repository.clone();
                r.append(":");
                r.append(self.tag.as_str());
                r
            },
        }
    }

    /// Check if this is an official Docker Hub image
    pub fn is_official(&self) -> (b: bool)
        ensures
            b == (self.registry is None && !has_char(self.repository@, '/')),
    {
        let repo = chars_of(self.repository.as_str());
        self.registry.is_none() && !has_char_exec(&repo, '/')
    }
}

} // verus!
