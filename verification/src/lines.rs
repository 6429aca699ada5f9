use vstd::prelude::*;
use crate::text::{chars_of, string_of_range, push_str, trim, trim_start, trim_end, is_ws, str_trim, str_starts_with};

verus! {

/// The index of the first line feed in `s`, or its length when it has none.
pub open spec fn line_end(s: Seq<char>) -> nat
    decreases s.len(),
{
    if s.len() == 0 {
        0
    } else if s[0] == '\n' {
        0
    } else {
        1 + line_end(s.drop_first())
    }
}

/// `line_end` points at a line feed, or at the end.
pub proof fn lemma_line_end(s: Seq<char>)
    ensures
        line_end(s) <= s.len(),
        line_end(s) < s.len() ==> s[line_end(s) as int] == '\n',
        forall|k: int| 0 <= k < line_end(s) ==> s[k] != '\n',
    decreases s.len(),
{
    if s.len() > 0 && s[0] != '\n' {
        lemma_line_end(s.drop_first());
        assert forall|k: int| 0 <= k < line_end(s) implies s[k] != '\n' by {
            if k > 0 {
                assert(s[k] == s.drop_first()[k - 1]);
            }
        }
    }
}

/// A line without the carriage return that ends it, if any.
pub open spec fn strip_cr(l: Seq<char>) -> Seq<char> {
    if l.len() > 0 && l.last() == '\r' { l.drop_last() } else { l }
}

/// The lines of `s`, as `str::lines` gives them: split at each line feed, a carriage
/// return before the feed dropped; no empty line after a final line feed.
pub open spec fn lines(s: Seq<char>) -> Seq<Seq<char>>
    decreases s.len(),
{
    if s.len() == 0 {
        Seq::empty()
    } else {
        let e = line_end(s);
        if e >= s.len() {
            seq![s]
        } else {
            proof {
                lemma_line_end(s);
            }
            seq![strip_cr(s.take(e as int))] + lines(s.skip((e + 1) as int))
        }
    }
}

/// Lines joined with line feeds between them.
pub open spec fn join_lines(ls: Seq<Seq<char>>) -> Seq<char>
    decreases ls.len(),
{
    if ls.len() == 0 {
        Seq::empty()
    } else if ls.len() == 1 {
        ls[0]
    } else {
        join_lines(ls.drop_last()) + seq!['\n'] + ls.last()
    }
}

/// The texts of a list of strings.
pub open spec fn views(v: Seq<String>) -> Seq<Seq<char>> {
    v.map_values(|x: String| x@)
}

/// The lines of `s` (see `lines`).
pub fn split_lines(s: &str) -> (r: Vec<String>)
    ensures
        views(r@) == lines(s@),
{
    let v = chars_of(s);
    let n = v.len();
    let mut out: Vec<String> = Vec::new();
    let mut p: usize = 0;
    assert(v@.skip(0) == v@);
    while p < n
        invariant
            n == v@.len(),
            v@ == s@,
            p <= n,
            lines(v@) == views(out@) + lines(v@.skip(p as int)),
        decreases n - p,
    {
        let ghost rest = v@.skip(p as int);
        let mut j: usize = p;
        proof {
            assert(rest.len() > 0);
        }
        while j < n && v[j] != '\n'
            invariant
                n == v@.len(),
                rest == v@.skip(p as int),
                p <= j <= n,
                line_end(rest) == (j - p) + line_end(v@.skip(j as int)),
            decreases n - j,
        {
            assert(v@.skip(j as int).drop_first() == v@.skip(j + 1));
            j = j + 1;
        }
        proof {
            lemma_line_end(rest);
            assert(line_end(v@.skip(j as int)) == 0);
        }
        if j == n {
            let line = string_of_range(&v, p, n);
            proof {
                assert(v@.subrange(p as int, n as int) == rest);
                assert(lines(rest) == seq![rest]);
            }
            let ghost before = views(out@);
            out.push(line);
            proof {
                assert(views(out@) == before.push(rest));
                assert(v@.skip(n as int) == Seq::<char>::empty());
                assert(lines(v@.skip(n as int)) == Seq::<Seq<char>>::empty());
                assert(before + seq![rest] == before.push(rest));
            }
            p = n;
        } else {
            let e = if j > p && v[j - 1] == '\r' { j - 1 } else { j };
            let line = string_of_range(&v, p, e);
            proof {
                assert(rest.take((j - p) as int) == v@.subrange(p as int, j as int));
                assert(strip_cr(v@.subrange(p as int, j as int)) == v@.subrange(p as int, e as int));
                assert(rest.skip(j - p + 1) == v@.skip(j + 1));
            }
            let ghost before = views(out@);
            out.push(line);
            proof {
                assert(views(out@) == before.push(v@.subrange(p as int, e as int)));
                assert(lines(rest) == seq![v@.subrange(p as int, e as int)] + lines(v@.skip(j + 1)));
                assert(before + (seq![v@.subrange(p as int, e as int)] + lines(v@.skip(j + 1)))
                    == before.push(v@.subrange(p as int, e as int)) + lines(v@.skip(j + 1)));
            }
            p = j + 1;
        }
    }
    proof {
        assert(v@.skip(n as int) == Seq::<char>::empty());
        assert(views(out@) + Seq::<Seq<char>>::empty() == views(out@));
    }
    out
}

/// `ls[lo..hi]` joined with line feeds.
pub fn join_range(ls: &Vec<String>, lo: usize, hi: usize) -> (r: String)
    requires
        lo <= hi <= ls@.len(),
    ensures
        r@ == join_lines(views(ls@).subrange(lo as int, hi as int)),
{
    let mut r = String::new();
    let mut i = lo;
    while i < hi
        invariant
            lo <= i <= hi <= ls@.len(),
            r@ == join_lines(views(ls@).subrange(lo as int, i as int)),
        decreases hi - i,
    {
        let ghost prev = views(ls@).subrange(lo as int, i as int);
        let ghost next = views(ls@).subrange(lo as int, i + 1);
        assert(next.drop_last() == prev);
        assert(next.last() == ls@[i as int]@);
        if i > lo {
            push_str(&mut r, "\n");
            proof {
                reveal_strlit("\n");
            }
        }
        push_str(&mut r, ls[i].as_str());
        i = i + 1;
    }
    r
}

/// The index of the first line that begins with `## [` (the number of lines when
/// none does).
pub open spec fn first_heading_index(ls: Seq<Seq<char>>) -> nat
    decreases ls.len(),
{
    if ls.len() == 0 {
        0
    } else if "## ["@.is_prefix_of(ls[0]) {
        0
    } else {
        1 + first_heading_index(ls.drop_first())
    }
}

/// The first line of `md` that begins with `## [`, trimmed; `## [未知版本]` when none.
pub open spec fn heading_of(md: Seq<char>) -> Seq<char> {
    let ls = lines(md);
    let k = first_heading_index(ls);
    if k < ls.len() { trim(ls[k as int]) } else { "## [未知版本]"@ }
}

/// The index of the next line after `from` that begins with `## [`, or the number of
/// lines.
pub open spec fn next_heading_index(ls: Seq<Seq<char>>, from: int) -> int
    decreases ls.len() - from,
{
    if from + 1 >= ls.len() {
        ls.len() as int
    } else if "## ["@.is_prefix_of(ls[from + 1]) {
        from + 1
    } else {
        next_heading_index(ls, from + 1)
    }
}

/// The first section of `md`: its first heading line and the lines up to the next
/// heading, joined and trimmed; empty when it has no heading.
pub open spec fn section_of(md: Seq<char>) -> Seq<char> {
    let ls = lines(md);
    let k = first_heading_index(ls) as int;
    if k < ls.len() {
        trim(join_lines(ls.subrange(k, next_heading_index(ls, k))))
    } else {
        trim(Seq::empty())
    }
}

proof fn lemma_first_heading(ls: Seq<Seq<char>>)
    ensures
        first_heading_index(ls) <= ls.len(),
        first_heading_index(ls) < ls.len() ==> "## ["@.is_prefix_of(ls[first_heading_index(ls) as int]),
        forall|i: int| 0 <= i < first_heading_index(ls) ==> !"## ["@.is_prefix_of(#[trigger] ls[i]),
    decreases ls.len(),
{
    if ls.len() > 0 && !"## ["@.is_prefix_of(ls[0]) {
        lemma_first_heading(ls.drop_first());
        assert forall|i: int| 0 <= i < first_heading_index(ls) implies !"## ["@.is_prefix_of(#[trigger] ls[i]) by {
            if i > 0 {
                assert(ls[i] == ls.drop_first()[i - 1]);
            }
        }
    }
}

proof fn lemma_next_heading(ls: Seq<Seq<char>>, from: int)
    requires
        0 <= from < ls.len(),
    ensures
        from < next_heading_index(ls, from) <= ls.len(),
        forall|i: int| from < i < next_heading_index(ls, from) ==> !"## ["@.is_prefix_of(#[trigger] ls[i]),
        next_heading_index(ls, from) < ls.len() ==> "## ["@.is_prefix_of(ls[next_heading_index(ls, from)]),
    decreases ls.len() - from,
{
    if from + 1 < ls.len() && !"## ["@.is_prefix_of(ls[from + 1]) {
        lemma_next_heading(ls, from + 1);
    }
}

/// No line that `lines` gives holds a line feed.
proof fn lemma_lines_no_newline(s: Seq<char>)
    ensures
        forall|i: int| 0 <= i < lines(s).len() ==> !(#[trigger] lines(s)[i]).contains('\n'),
    decreases s.len(),
{
    if s.len() > 0 {
        let e = line_end(s);
        lemma_line_end(s);
        if e >= s.len() {
            assert(lines(s) == seq![s]);
            assert(!s.contains('\n'));
        } else {
            let first = strip_cr(s.take(e as int));
            assert(!first.contains('\n')) by {
                assert forall|k: int| 0 <= k < first.len() implies first[k] != '\n' by {
                    assert(first[k] == s[k]);
                }
            }
            lemma_lines_no_newline(s.skip((e + 1) as int));
            let rest = lines(s.skip((e + 1) as int));
            assert(lines(s) == seq![first] + rest);
            assert forall|i: int| 0 <= i < lines(s).len() implies !(#[trigger] lines(s)[i]).contains('\n') by {
                if i > 0 {
                    assert(lines(s)[i] == rest[i - 1]);
                }
            }
        }
    }
}

/// Joining two or more lines is the first, a line feed, and the rest joined.
proof fn lemma_join_first(m: Seq<Seq<char>>)
    requires
        m.len() >= 2,
    ensures
        join_lines(m) == m[0] + seq!['\n'] + join_lines(m.drop_first()),
    decreases m.len(),
{
    if m.len() == 2 {
        assert(m.drop_last() == seq![m[0]]);
        assert(m.drop_first() == seq![m[1]]);
        assert(join_lines(m.drop_last()) == m[0]);
        assert(join_lines(m.drop_first()) == m[1]);
        assert(m.last() == m[1]);
    } else {
        lemma_join_first(m.drop_last());
        assert(m.drop_last().drop_first() == m.drop_first().drop_last());
        assert(m.drop_first().last() == m.last());
        assert(join_lines(m) == m[0] + seq!['\n'] + join_lines(m.drop_first()));
    }
}

/// A line feed at `i` after none before it ends the first line there.
proof fn lemma_line_end_at(s: Seq<char>, i: int)
    requires
        0 <= i < s.len(),
        s[i] == '\n',
        forall|k: int| 0 <= k < i ==> s[k] != '\n',
    ensures
        line_end(s) == i,
{
    lemma_line_end(s);
}

/// The lines of a text with no line feed: none when it is empty, else the text.
proof fn lemma_lines_single(s: Seq<char>)
    requires
        !s.contains('\n'),
    ensures
        lines(s) == (if s.len() == 0 { Seq::<Seq<char>>::empty() } else { seq![s] }),
{
    if s.len() > 0 {
        lemma_line_end(s);
        if line_end(s) < s.len() {
            assert(s[line_end(s) as int] == '\n');
        }
    }
}

/// The lines of a prefix of joined lines: each is a prefix of the line it comes
/// from, and there are no more of them; a prefix within the first line is that line's
/// start, and one that goes past it has the first line (its carriage return dropped)
/// as its first line.
proof fn lemma_lines_prefix(m: Seq<Seq<char>>, p: Seq<char>)
    requires
        m.len() >= 1,
        forall|i: int| 0 <= i < m.len() ==> !(#[trigger] m[i]).contains('\n'),
        p.is_prefix_of(join_lines(m)),
    ensures
        lines(p).len() <= m.len(),
        forall|j: int| 0 <= j < lines(p).len() ==> (#[trigger] lines(p)[j]).is_prefix_of(m[j]),
        p.len() <= m[0].len() ==> lines(p) == (if p.len() == 0 { Seq::<Seq<char>>::empty() } else { seq![p] }),
        p.len() > m[0].len() ==> lines(p)[0] == strip_cr(m[0]),
    decreases m.len(),
{
    let m0 = m[0];
    let t = join_lines(m);
    if m.len() >= 2 {
        lemma_join_first(m);
    }
    assert(t.take(m0.len() as int) == m0);
    if p.len() <= m0.len() {
        assert(p == m0.take(p.len() as int));
        assert(!p.contains('\n')) by {
            assert forall|k: int| 0 <= k < p.len() implies p[k] != '\n' by {
                assert(p[k] == m0[k]);
            }
        }
        lemma_lines_single(p);
    } else {
        assert(m.len() >= 2);
        let rest = join_lines(m.drop_first());
        assert(t[m0.len() as int] == '\n');
        assert(p[m0.len() as int] == '\n');
        assert forall|k: int| 0 <= k < m0.len() implies p[k] != '\n' by {
            assert(p[k] == m0[k]);
        }
        lemma_line_end_at(p, m0.len() as int);
        let q = p.skip((m0.len() + 1) as int);
        assert(q.is_prefix_of(rest)) by {
            assert forall|k: int| 0 <= k < q.len() implies q[k] == rest[k] by {
                assert(q[k] == p[m0.len() + 1 + k]);
                assert(t[m0.len() + 1 + k] == rest[k]);
            }
        }
        assert forall|i: int| 0 <= i < m.drop_first().len() implies !(#[trigger] m.drop_first()[i]).contains('\n') by {
            assert(m.drop_first()[i] == m[i + 1]);
        }
        lemma_lines_prefix(m.drop_first(), q);
        assert(p.take(m0.len() as int) == m0);
        let first = strip_cr(m0);
        assert(lines(p) == seq![first] + lines(q));
        assert(first.is_prefix_of(m0));
        assert forall|j: int| 0 <= j < lines(p).len() implies (#[trigger] lines(p)[j]).is_prefix_of(m[j]) by {
            if j > 0 {
                assert(lines(p)[j] == lines(q)[j - 1]);
                assert(m.drop_first()[j - 1] == m[j]);
            }
        }
    }
}

/// What `trim_end` cuts off is white space.
proof fn lemma_trim_end_rest(s: Seq<char>)
    ensures
        forall|i: int| trim_end(s).len() <= i < s.len() ==> is_ws(#[trigger] s[i]),
    decreases s.len(),
{
    crate::text::lemma_trim_end(s);
    if s.len() > 0 && is_ws(s.last()) {
        lemma_trim_end_rest(s.drop_last());
        assert forall|i: int| trim_end(s).len() <= i < s.len() implies is_ws(#[trigger] s[i]) by {
            if i < s.len() - 1 {
                assert(s[i] == s.drop_last()[i]);
            }
        }
    }
}

/// A text that ends in a non-space, followed by white space, trims back to itself.
proof fn lemma_trim_end_ws_tail(a: Seq<char>, w: Seq<char>)
    requires
        a.len() == 0 || !is_ws(a.last()),
        forall|i: int| 0 <= i < w.len() ==> is_ws(#[trigger] w[i]),
    ensures
        trim_end(a + w) == a,
    decreases w.len(),
{
    if w.len() == 0 {
        assert(a + w == a);
        crate::text::lemma_trim_end(a);
    } else {
        assert((a + w).drop_last() == a + w.drop_last());
        assert((a + w).last() == w.last());
        lemma_trim_end_ws_tail(a, w.drop_last());
    }
}

/// The first line of a first section trims to the heading of the log.
proof fn lemma_first_line(m0: Seq<char>, sec: Seq<char>, t: Seq<char>)
    requires
        m0.len() > 0 && !is_ws(m0[0]),
        m0.is_prefix_of(t),
        sec == trim_end(t),
    ensures
        sec.len() <= m0.len() ==> trim(sec) == trim(m0),
        sec.len() > m0.len() ==> trim(strip_cr(m0)) == trim(m0),
        sec.len() > 0,
{
    crate::text::lemma_trim_end(t);
    lemma_trim_end_rest(t);
    crate::text::lemma_trim_start(m0);
    crate::text::lemma_trim_start(t);
    if sec.len() == 0 {
        assert(is_ws(t[0]));
        assert(t[0] == m0[0]);
    }
    if sec.len() <= m0.len() {
        let w = m0.skip(sec.len() as int);
        assert forall|i: int| 0 <= i < w.len() implies is_ws(#[trigger] w[i]) by {
            assert(w[i] == t[sec.len() + i]);
        }
        assert(m0 == sec + w) by {
            assert forall|i: int| 0 <= i < sec.len() implies m0[i] == sec[i] by {
                assert(sec[i] == t[i]);
            }
        }
        lemma_trim_end_ws_tail(sec, w);
        assert(trim(m0) == trim_end(m0));
        if sec.len() > 0 {
            assert(sec[0] == t[0]);
        }
        crate::text::lemma_trim_fixed(sec);
    } else {
        let x = strip_cr(m0);
        if m0.last() == '\r' {
            assert(is_ws('\r'));
            assert(trim_end(m0) == trim_end(x));
            if x.len() > 0 {
                assert(x[0] == m0[0]);
                crate::text::lemma_trim_start(x);
            } else {
                assert(trim_start(x) == x);
            }
        }
        assert(trim(m0) == trim_end(m0));
    }
}

/// The first section of a change log that has a heading starts at its first heading
/// and holds no second one. With `k` the first heading line and `e` the next heading
/// line (or the end), the section is the lines from `k` up to `e` joined and trimmed;
/// the section's own first line, trimmed, is the heading read from the log; none of
/// its later lines starts a heading; and the section is its own trim.
pub proof fn law_first_section(md: Seq<char>)
    requires
        first_heading_index(lines(md)) < lines(md).len(),
    ensures
        ({
            let ls = lines(md);
            let k = first_heading_index(ls) as int;
            let e = next_heading_index(ls, k);
            let sec = section_of(md);
            &&& k < e <= ls.len()
            &&& "## ["@.is_prefix_of(ls[k])
            &&& forall|i: int| 0 <= i < k ==> !"## ["@.is_prefix_of(#[trigger] ls[i])
            &&& forall|i: int| k < i < e ==> !"## ["@.is_prefix_of(#[trigger] ls[i])
            &&& heading_of(md) == trim(ls[k])
            &&& sec == trim(join_lines(ls.subrange(k, e)))
            &&& lines(sec).len() > 0
            &&& trim(lines(sec)[0]) == heading_of(md)
            &&& forall|j: int| 1 <= j < lines(sec).len() ==> !"## ["@.is_prefix_of(#[trigger] lines(sec)[j])
            &&& trim(sec) == sec
        }),
{
    let ls = lines(md);
    lemma_first_heading(ls);
    let k = first_heading_index(ls) as int;
    lemma_next_heading(ls, k);
    let e = next_heading_index(ls, k);
    let m = ls.subrange(k, e);
    let t = join_lines(m);
    crate::text::lemma_trim(t);
    lemma_lines_no_newline(md);
    assert forall|i: int| 0 <= i < m.len() implies !(#[trigger] m[i]).contains('\n') by {
        assert(m[i] == ls[k + i]);
    }
    let m0 = m[0];
    reveal_strlit("## [");
    assert(m0 == ls[k]);
    assert("## ["@.len() == 4 && "## ["@[0] == '#');
    assert(m0.len() >= 4);
    assert(m0[0] == "## ["@[0]);
    assert(!is_ws('#'));
    if m.len() >= 2 {
        lemma_join_first(m);
    }
    assert(m0.is_prefix_of(t)) by {
        assert(t.take(m0.len() as int) == m0);
    }
    crate::text::lemma_trim_start(t);
    assert(t[0] == m0[0]);
    assert(trim_start(t) == t);
    let sec = trim_end(t);
    assert(section_of(md) == sec);
    crate::text::lemma_trim_end(t);
    lemma_lines_prefix(m, sec);
    lemma_first_line(m0, sec, t);
    assert forall|j: int| 1 <= j < lines(sec).len() implies !"## ["@.is_prefix_of(#[trigger] lines(sec)[j]) by {
        assert(lines(sec)[j].is_prefix_of(m[j]));
        assert(m[j] == ls[k + j]);
        if "## ["@.is_prefix_of(lines(sec)[j]) {
            assert("## ["@.is_prefix_of(m[j])) by {
                assert forall|c: int| 0 <= c < 4 implies m[j][c] == "## ["@[c] by {
                    assert(lines(sec)[j][c] == m[j][c]);
                }
            }
        }
    }
}

fn is_heading(l: &String) -> (b: bool)
    ensures
        b == "## ["@.is_prefix_of(l@),
{
    str_starts_with(l.as_str(), "## [")
}

/// The first heading of a change log (see `heading_of`).
pub fn first_heading(md: &str) -> (r: String)
    ensures
        r@ == heading_of(md@),
{
    let ls = split_lines(md);
    let ghost vs = views(ls@);
    proof {
        lemma_first_heading(vs);
    }
    let mut i: usize = 0;
    while i < ls.len()
        invariant
            vs == views(ls@),
            vs == lines(md@),
            i <= ls@.len(),
            i <= first_heading_index(vs),
            first_heading_index(vs) <= vs.len(),
            first_heading_index(vs) < vs.len() ==> "## ["@.is_prefix_of(vs[first_heading_index(vs) as int]),
            forall|j: int| 0 <= j < first_heading_index(vs) ==> !"## ["@.is_prefix_of(#[trigger] vs[j]),
        decreases ls@.len() - i,
    {
        if is_heading(&ls[i]) {
            assert(vs[i as int] == ls@[i as int]@);
            assert(first_heading_index(vs) == i);
            return str_trim(ls[i].as_str());
        }
        proof {
            assert(vs[i as int] == ls@[i as int]@);
            if first_heading_index(vs) == i {
                assert(false);
            }
        }
        i = i + 1;
    }
    "## [未知版本]".to_owned()
}

/// The first section of a change log (see `section_of`).
pub fn first_section(md: &str) -> (r: String)
    ensures
        r@ == section_of(md@),
{
    let ls = split_lines(md);
    let ghost vs = views(ls@);
    proof {
        lemma_first_heading(vs);
    }
    let mut k: usize = 0;
    while k < ls.len() && !is_heading(&ls[k])
        invariant
            vs == views(ls@),
            vs == lines(md@),
            k <= ls@.len(),
            k <= first_heading_index(vs),
            first_heading_index(vs) <= vs.len(),
            first_heading_index(vs) < vs.len() ==> "## ["@.is_prefix_of(vs[first_heading_index(vs) as int]),
            forall|j: int| 0 <= j < first_heading_index(vs) ==> !"## ["@.is_prefix_of(#[trigger] vs[j]),
        decreases ls@.len() - k,
    {
        proof {
            assert(vs[k as int] == ls@[k as int]@);
            if first_heading_index(vs) == k {
                assert(false);
            }
        }
        k = k + 1;
    }
    if k == ls.len() {
        proof {
            reveal_strlit("");
        }
        return str_trim("");
    }
    assert(vs[k as int] == ls@[k as int]@);
    assert(first_heading_index(vs) == k);
    proof {
        lemma_next_heading(vs, k as int);
    }
    let mut e: usize = k + 1;
    while e < ls.len() && !is_heading(&ls[e])
        invariant
            vs == views(ls@),
            k < e <= ls@.len(),
            e <= next_heading_index(vs, k as int),
            forall|i: int| k < i < next_heading_index(vs, k as int) ==> !"## ["@.is_prefix_of(#[trigger] vs[i]),
            next_heading_index(vs, k as int) < vs.len() ==> "## ["@.is_prefix_of(vs[next_heading_index(vs, k as int)]),
            next_heading_index(vs, k as int) <= vs.len(),
        decreases ls@.len() - e,
    {
        proof {
            assert(vs[e as int] == ls@[e as int]@);
        }
        e = e + 1;
    }
    proof {
        if e < ls@.len() {
            assert(vs[e as int] == ls@[e as int]@);
        }
        assert(e == next_heading_index(vs, k as int));
    }
    let joined = join_range(&ls, k, e);
    str_trim(joined.as_str())
}

/// The last `n` lines of `text`, joined with line feeds.
pub open spec fn tail_of(text: Seq<char>, n: nat) -> Seq<char> {
    let ls = lines(text);
    join_lines(ls.skip(if ls.len() > n { ls.len() - n } else { 0 }))
}

/// The last `n` lines of `text` (see `tail_of`).
pub fn tail_lines(text: &str, n: usize) -> (r: String)
    ensures
        r@ == tail_of(text@, n as nat),
{
    let ls = split_lines(text);
    let start = if ls.len() > n { ls.len() - n } else { 0 };
    let r = join_range(&ls, start, ls.len());
    assert(views(ls@).subrange(start as int, ls@.len() as int) == views(ls@).skip(start as int));
    r
}

} // verus!
