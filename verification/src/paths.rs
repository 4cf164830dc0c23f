//! Unix path arithmetic on strings, as `std::path` performs it for
//! `Path::join`, `Path::file_name` and `Path::with_extension`.

use vstd::prelude::*;

verus! {

/// Index at which the `/`-delimited segment ending at `end` begins.
pub open spec fn segment_start(p: Seq<char>, end: int) -> int
    decreases end,
{
    if end <= 0 {
        0
    } else if p[end - 1] == '/' {
        end
    } else {
        segment_start(p, end - 1)
    }
}

pub proof fn lemma_segment_start_bounds(p: Seq<char>, end: int)
    requires
        0 <= end <= p.len(),
    ensures
        0 <= segment_start(p, end) <= end,
        end > 0 && p[end - 1] != '/' ==> segment_start(p, end) < end,
        segment_start(p, end) == 0 || p[segment_start(p, end) - 1] == '/',
        forall|i: int| segment_start(p, end) <= i < end ==> p[i] != '/',
    decreases end,
{
    if end > 0 && p[end - 1] != '/' {
        lemma_segment_start_bounds(p, end - 1);
    }
}

/// The span `[start, end)` of the last path component before `end` that is
/// neither empty nor `.`; `None` when there is none.
pub open spec fn component_before(p: Seq<char>, end: int) -> Option<(int, int)>
    decreases end,
{
    if end <= 0 || end > p.len() {
        None
    } else if p[end - 1] == '/' {
        component_before(p, end - 1)
    } else {
        let s = segment_start(p, end);
        proof {
            lemma_segment_start_bounds(p, end);
        }
        if p.subrange(s, end) == seq!['.'] {
            component_before(p, s)
        } else {
            Some((s, end))
        }
    }
}

pub proof fn lemma_component_before(p: Seq<char>, end: int)
    requires
        0 <= end <= p.len(),
    ensures
        match component_before(p, end) {
            None => true,
            Some((s, e)) => {
                &&& 0 <= s < e <= end
                &&& s == 0 || p[s - 1] == '/'
                &&& forall|i: int| s <= i < e ==> p[i] != '/'
                &&& p.subrange(s, e) != seq!['.']
            },
        },
    decreases end,
{
    if end > 0 {
        lemma_segment_start_bounds(p, end);
        if p[end - 1] == '/' {
            lemma_component_before(p, end - 1);
        } else {
            let s = segment_start(p, end);
            if p.subrange(s, end) == seq!['.'] {
                lemma_component_before(p, s);
            }
        }
    }
}

/// The span of the last component of `p` (`..` included).
pub open spec fn last_component(p: Seq<char>) -> Option<(int, int)> {
    component_before(p, p.len() as int)
}

/// `Path::file_name`: the last component, unless it is `..` or absent.
pub open spec fn file_name(p: Seq<char>) -> Option<Seq<char>> {
    match last_component(p) {
        None => None,
        Some((s, e)) => if p.subrange(s, e) == seq!['.', '.'] {
            None
        } else {
            Some(p.subrange(s, e))
        },
    }
}

/// Index of the last `c` in `n` before `end`, or -1.
pub open spec fn last_index_of(n: Seq<char>, c: char, end: int) -> int
    decreases end,
{
    if end <= 0 {
        -1
    } else if n[end - 1] == c {
        end - 1
    } else {
        last_index_of(n, c, end - 1)
    }
}

/// `Path::file_stem` of a file name `n`: the part before the last `.`, or
/// all of `n` when that dot is missing or leading.
pub open spec fn stem(n: Seq<char>) -> Seq<char> {
    let k = last_index_of(n, '.', n.len() as int);
    if k <= 0 {
        n
    } else {
        n.subrange(0, k)
    }
}

/// `Path::with_extension`: the path cut just after the stem of its file name,
/// followed by `.` and `ext` (no dot for an empty `ext`); the path itself when
/// it has no file name.
pub open spec fn with_extension(p: Seq<char>, ext: Seq<char>) -> Seq<char> {
    match last_component(p) {
        None => p,
        Some((s, e)) => if p.subrange(s, e) == seq!['.', '.'] {
            p
        } else {
            let kept = p.subrange(0, s + stem(p.subrange(s, e)).len());
            if ext.len() == 0 {
                kept
            } else {
                kept + seq!['.'] + ext
            }
        },
    }
}

/// `Path::join`: an absolute `sub` replaces `base`; otherwise `sub` is
/// appended, with a `/` in between when `base` is non-empty and does not
/// already end in one.
pub open spec fn path_join(base: Seq<char>, sub: Seq<char>) -> Seq<char> {
    if sub.len() > 0 && sub[0] == '/' {
        sub
    } else if base.len() > 0 && base.last() != '/' {
        base + seq!['/'] + sub
    } else {
        base + sub
    }
}

/// Whether `s` ends in `.gif`.
pub open spec fn ends_with_gif(s: Seq<char>) -> bool {
    s.len() >= 4 && s.subrange(s.len() - 4, s.len() as int) == seq!['.', 'g', 'i', 'f']
}

fn segment_start_exec(s: &str, end: usize) -> (r: usize)
    requires
        end <= s@.len(),
    ensures
        r == segment_start(s@, end as int),
{
    let mut i = end;
    while i > 0
        invariant
            i <= end <= s@.len(),
            segment_start(s@, i as int) == segment_start(s@, end as int),
        ensures
            segment_start(s@, end as int) == i,
        decreases i,
    {
        if s.get_char(i - 1) == '/' {
            break;
        }
        i = i - 1;
    }
    i
}

/// The span of the last component of `s`.
pub fn last_component_span(s: &str) -> (r: Option<(usize, usize)>)
    ensures
        match r {
            None => last_component(s@) is None,
            Some((a, b)) => last_component(s@) == Some((a as int, b as int)) && a < b <= s@.len(),
        },
{
    let len = s.unicode_len();
    let mut end = len;
    proof {
        lemma_component_before(s@, len as int);
    }
    loop
        invariant
            end <= len == s@.len(),
            component_before(s@, end as int) == last_component(s@),
        decreases end,
    {
        if end == 0 {
            return None;
        }
        if s.get_char(end - 1) == '/' {
            end = end - 1;
        } else {
            let st = segment_start_exec(s, end);
            proof {
                lemma_segment_start_bounds(s@, end as int);
            }
            if end - st == 1 && s.get_char(st) == '.' {
                assert(s@.subrange(st as int, end as int) =~= seq!['.']);
                end = st;
            } else {
                assert(s@.subrange(st as int, end as int) != seq!['.']) by {
                    let n = s@.subrange(st as int, end as int);
                    if n == seq!['.'] {
                        assert(n.len() == 1);
                        assert(n[0] == s@[st as int]);
                    }
                }
                return Some((st, end));
            }
        }
    }
}

fn is_dot_dot(s: &str, a: usize, b: usize) -> (r: bool)
    requires
        a <= b <= s@.len(),
    ensures
        r == (s@.subrange(a as int, b as int) == seq!['.', '.']),
{
    if b - a == 2 && s.get_char(a) == '.' && s.get_char(a + 1) == '.' {
        assert(s@.subrange(a as int, b as int) =~= seq!['.', '.']);
        true
    } else {
        proof {
            let n = s@.subrange(a as int, b as int);
            if n == seq!['.', '.'] {
                assert(n.len() == 2);
                assert(n[0] == s@[a as int]);
                assert(n[1] == s@[a + 1]);
            }
        }
        false
    }
}

proof fn lemma_segment_start_zero(b: Seq<char>, end: int)
    requires
        0 <= end <= b.len(),
        forall|i: int| 0 <= i < end ==> b[i] != '/',
    ensures
        segment_start(b, end) == 0,
    decreases end,
{
    if end > 0 {
        lemma_segment_start_zero(b, end - 1);
    }
}

/// Components of `b` keep their spans, shifted by `o`, inside a path `q`
/// that ends with `b` right after a separator (or that is `b`).
proof fn lemma_shift(q: Seq<char>, o: int, b: Seq<char>, end: int)
    requires
        0 <= o <= q.len(),
        q.subrange(o, q.len() as int) == b,
        o == 0 || q[o - 1] == '/',
        0 <= end <= b.len(),
    ensures
        segment_start(q, o + end) == o + segment_start(b, end),
        component_before(b, end) matches Some((s, e)) ==> component_before(q, o + end) == Some(
            (s + o, e + o),
        ),
    decreases end,
{
    if end > 0 {
        assert(b[end - 1] == q[o + end - 1]);
        lemma_shift(q, o, b, end - 1);
        lemma_segment_start_bounds(b, end);
        if b[end - 1] != '/' {
            let sb = segment_start(b, end);
            assert(q.subrange(o + sb, o + end) =~= b.subrange(sb, end));
            if b.subrange(sb, end) == seq!['.'] {
                lemma_shift(q, o, b, sb);
            }
        }
    }
}

proof fn lemma_last_index_of_bounds(n: Seq<char>, c: char, end: int)
    requires
        0 <= end <= n.len(),
    ensures
        -1 <= last_index_of(n, c, end) < end,
    decreases end,
{
    if end > 0 {
        lemma_last_index_of_bounds(n, c, end - 1);
    }
}

/// The stem of a non-empty name is a non-empty prefix of it.
pub proof fn lemma_stem_prefix(n: Seq<char>)
    requires
        n.len() > 0,
    ensures
        1 <= stem(n).len() <= n.len(),
        stem(n) == n.subrange(0, stem(n).len() as int),
{
    lemma_last_index_of_bounds(n, '.', n.len() as int);
    if last_index_of(n, '.', n.len() as int) <= 0 {
        assert(n.subrange(0, n.len() as int) =~= n);
    }
}

/// Law: giving a path an extension leaves its stem as the file name's base,
/// followed by `.` and the extension.
pub proof fn lemma_file_name_with_extension(p: Seq<char>, ext: Seq<char>)
    requires
        file_name(p) is Some,
        ext.len() > 0,
        forall|i: int| 0 <= i < ext.len() ==> ext[i] != '/',
    ensures
        file_name(with_extension(p, ext)) == Some(stem(file_name(p)->0) + seq!['.'] + ext),
{
    lemma_component_before(p, p.len() as int);
    let (s, e) = last_component(p)->0;
    let name = p.subrange(s, e);
    lemma_stem_prefix(name);
    let m = stem(name).len() as int;
    let q = with_extension(p, ext);
    assert(q == p.subrange(0, s + m) + seq!['.'] + ext);
    let b = stem(name) + seq!['.'] + ext;
    assert(q.subrange(s, q.len() as int) =~= b);
    assert forall|i: int| 0 <= i < b.len() implies b[i] != '/' by {
        if i < m {
            assert(b[i] == name[i]);
            assert(name[i] == p[s + i]);
        } else if i > m {
            assert(b[i] == ext[i - m - 1]);
        }
    }
    lemma_segment_start_zero(b, b.len() as int);
    assert(b.subrange(0, b.len() as int) =~= b);
    assert(b != seq!['.']) by {
        assert(b.len() >= 3);
    }
    assert(component_before(b, b.len() as int) == Some((0int, b.len() as int)));
    if s > 0 {
        assert(q[s - 1] == p[s - 1]);
    }
    lemma_shift(q, s, b, b.len() as int);
    assert(q.subrange(s, q.len() as int) != seq!['.', '.']) by {
        assert(b.len() >= 3);
    }
}

/// Law: joining a path that has a file name onto any base keeps that file
/// name.
pub proof fn lemma_file_name_join(base: Seq<char>, sub: Seq<char>)
    requires
        file_name(sub) is Some,
    ensures
        file_name(path_join(base, sub)) == file_name(sub),
{
    let q = path_join(base, sub);
    if !(sub.len() > 0 && sub[0] == '/') {
        let o: int = if base.len() > 0 && base.last() != '/' {
            base.len() + 1int
        } else {
            base.len() as int
        };
        assert(q.subrange(o, q.len() as int) =~= sub);
        if o > 0 {
            assert(q[o - 1] == '/');
        }
        lemma_component_before(sub, sub.len() as int);
        lemma_shift(q, o, sub, sub.len() as int);
        let (s, e) = last_component(sub)->0;
        assert(q.subrange(s + o, e + o) =~= sub.subrange(s, e));
    }
}

/// `Path::file_name` of `s`.
pub fn file_name_of(s: &str) -> (r: Option<String>)
    ensures
        match r {
            None => file_name(s@) is None,
            Some(n) => file_name(s@) == Some(n@),
        },
{
    match last_component_span(s) {
        None => None,
        Some((a, b)) => {
            if is_dot_dot(s, a, b) {
                None
            } else {
                Some(String::from_str(s.substring_char(a, b)))
            }
        },
    }
}

/// Length of the stem of the segment `s[a..b)`.
fn stem_len(s: &str, a: usize, b: usize) -> (r: usize)
    requires
        a <= b <= s@.len(),
    ensures
        r == stem(s@.subrange(a as int, b as int)).len(),
        r <= b - a,
{
    let ghost n = s@.subrange(a as int, b as int);
    let mut i = b - a;
    while i > 0
        invariant
            i <= b - a,
            a <= b <= s@.len(),
            n == s@.subrange(a as int, b as int),
            last_index_of(n, '.', i as int) == last_index_of(n, '.', n.len() as int),
        ensures
            last_index_of(n, '.', n.len() as int) == i - 1,
        decreases i,
    {
        if s.get_char(a + i - 1) == '.' {
            assert(n[i - 1] == s@[a + i - 1]);
            break;
        }
        assert(n[i - 1] == s@[a + i - 1]);
        i = i - 1;
    }
    if i <= 1 {
        b - a
    } else {
        i - 1
    }
}

/// `Path::with_extension(ext)` on `s`.
pub fn with_extension_of(s: &str, ext: &str) -> (r: String)
    ensures
        r@ == with_extension(s@, ext@),
{
    match last_component_span(s) {
        None => String::from_str(s),
        Some((a, b)) => {
            if is_dot_dot(s, a, b) {
                String::from_str(s)
            } else {
                let m = stem_len(s, a, b);
                let kept = String::from_str(s.substring_char(0, a + m));
                if ext.unicode_len() == 0 {
                    kept
                } else {
                    let dot = ".";
                    proof {
                        reveal_strlit(".");
                    }
                    let r = kept.concat(dot).concat(ext);
                    assert(r@ =~= s@.subrange(0, a + m) + seq!['.'] + ext@);
                    r
                }
            }
        },
    }
}

/// `Path::join(sub)` on `base`.
pub fn path_join_of(base: &str, sub: &str) -> (r: String)
    ensures
        r@ == path_join(base@, sub@),
{
    let sub_len = sub.unicode_len();
    let base_len = base.unicode_len();
    if sub_len > 0 && sub.get_char(0) == '/' {
        String::from_str(sub)
    } else if base_len > 0 && base.get_char(base_len - 1) != '/' {
        let slash = "/";
        proof {
            reveal_strlit("/");
        }
        let r = String::from_str(base).concat(slash).concat(sub);
        assert(r@ =~= base@ + seq!['/'] + sub@);
        r
    } else {
        String::from_str(base).concat(sub)
    }
}

/// Whether `s` ends in `.gif`.
pub fn ends_with_gif_of(s: &str) -> (r: bool)
    ensures
        r == ends_with_gif(s@),
{
    let n = s.unicode_len();
    if n < 4 {
        return false;
    }
    let r = s.get_char(n - 4) == '.' && s.get_char(n - 3) == 'g' && s.get_char(n - 2) == 'i'
        && s.get_char(n - 1) == 'f';
    let ghost tail = s@.subrange(n - 4, n as int);
    assert(tail[0] == s@[n - 4] && tail[1] == s@[n - 3] && tail[2] == s@[n - 2] && tail[3]
        == s@[n - 1]);
    if r {
        assert(tail =~= seq!['.', 'g', 'i', 'f']);
    }
    r
}

} // verus!
