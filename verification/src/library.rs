//! How the server's function library is put together from its sources, and where
//! its version stands.

use vstd::prelude::*;
use vstd::string::*;

use crate::text;

verus! {

/// The sources of the library in the order in which they are joined. The helpers
/// come first, since every function depends on them.
pub open spec fn source_names() -> Seq<Seq<char>> {
    seq![
        "helpers.lua"@,
        "version.lua"@,
        "lease.lua"@,
        "execution.lua"@,
        "scheduling.lua"@,
        "suspension.lua"@,
        "signal.lua"@,
        "stream.lua"@,
        "budget.lua"@,
        "quota.lua"@,
        "flow.lua"@,
    ]
}

/// The sources of the library in the order in which they are joined.
pub fn sources() -> (r: Vec<String>)
    ensures
        text::texts(r@) == source_names(),
{
    let mut out: Vec<String> = Vec::new();
    out.push("helpers.lua".to_owned());
    out.push("version.lua".to_owned());
    out.push("lease.lua".to_owned());
    out.push("execution.lua".to_owned());
    out.push("scheduling.lua".to_owned());
    out.push("suspension.lua".to_owned());
    out.push("signal.lua".to_owned());
    out.push("stream.lua".to_owned());
    out.push("budget.lua".to_owned());
    out.push("quota.lua".to_owned());
    out.push("flow.lua".to_owned());
    assert(text::texts(out@) =~= source_names());
    out
}

/// The library made of named sources: a declaration, then each source under a
/// line with its name.
pub open spec fn joined(parts: Seq<(Seq<char>, Seq<char>)>) -> Seq<char>
    decreases parts.len(),
{
    if parts.len() == 0 {
        "#!lua name=flowfabric\n"@
    } else {
        joined(parts.drop_last()) + "\n-- source: lua/"@ + parts.last().0 + "\n"@ + parts.last().1
            + "\n"@
    }
}

/// Names and texts of sources.
pub open spec fn named(parts: Seq<(String, String)>) -> Seq<(Seq<char>, Seq<char>)> {
    parts.map_values(|p: (String, String)| (p.0@, p.1@))
}

/// Put the library together.
pub fn assemble(parts: &Vec<(String, String)>) -> (r: String)
    ensures
        r@ == joined(named(parts@)),
{
    let n: usize = parts.len();
    let mut out = "#!lua name=flowfabric\n".to_owned();
    let mut i: usize = 0;
    assert(named(parts@.take(0)) =~= Seq::empty());
    while i < n
        invariant
            n == parts@.len(),
            i <= n,
            out@ == joined(named(parts@.take(i as int))),
        decreases n - i,
    {
        proof {
            let next = named(parts@.take(i as int + 1));
            assert(next.drop_last() =~= named(parts@.take(i as int)));
            assert(next.last() == (parts@[i as int].0@, parts@[i as int].1@));
        }
        out.append("\n-- source: lua/");
        out.append(parts[i].0.as_str());
        out.append("\n");
        out.append(parts[i].1.as_str());
        out.append("\n");
        i = i + 1;
    }
    assert(parts@.take(n as int) =~= parts@);
    out
}

// ── The version ──

/// Whether `v` is what the first `return '<v>'` of a line gives back. A comment
/// gives nothing back.
pub open spec fn returned_by(line: Seq<char>, v: Option<Seq<char>>) -> bool {
    let t = text::trim_start(line);
    if text::occurs_at(t, "--"@, 0) {
        v is None
    } else if !text::occurs(t, "return '"@) {
        v is None
    } else {
        forall|i: int| #[trigger]
            text::occurs_at(t, "return '"@, i) && (forall|k: int|
                0 <= k < i ==> !text::occurs_at(t, "return '"@, k)) ==> up_to_quote(
                t.skip(i + 8),
                v,
            )
    }
}

/// Whether `v` is what stands before the first quote of a text, if it has one.
pub open spec fn up_to_quote(rest: Seq<char>, v: Option<Seq<char>>) -> bool {
    match v {
        None => !rest.contains('\''),
        Some(v) => !v.contains('\'') && v.len() < rest.len() && rest.take(v.len() as int) == v
            && rest[v.len() as int] == '\'',
    }
}

/// The length of the first line of a text, without its end.
pub open spec fn line_len(s: Seq<char>) -> nat
    decreases s.len(),
{
    if s.len() == 0 || s[0] == '\n' {
        0
    } else {
        1 + line_len(s.drop_first())
    }
}

proof fn lemma_line_len(s: Seq<char>)
    ensures
        line_len(s) <= s.len(),
    decreases s.len(),
{
    if s.len() > 0 {
        lemma_line_len(s.drop_first());
    }
}

/// Whether `v` is what the first line of a source that gives something back gives
/// back.
pub open spec fn version_of(s: Seq<char>, v: Option<Seq<char>>) -> bool
    decreases s.len(),
{
    if s.len() == 0 {
        v is None
    } else {
        let n = line_len(s) as int;
        ||| v is Some && returned_by(s.take(n), v)
        ||| returned_by(s.take(n), None) && if n >= s.len() {
            v is None
        } else {
            version_of(s.skip(n + 1), v)
        }
    }
}

fn line_end(x: &Vec<char>, from: usize) -> (r: usize)
    requires
        from <= x@.len(),
    ensures
        r == from + line_len(x@.skip(from as int)),
        r <= x@.len(),
{
    let n: usize = x.len();
    let mut i: usize = from;
    while i < n && x[i] != '\n'
        invariant
            n == x@.len(),
            from <= i <= n,
            from + line_len(x@.skip(from as int)) == i + line_len(x@.skip(i as int)),
        ensures
            from <= i <= n,
            i < n ==> x@[i as int] == '\n',
            from + line_len(x@.skip(from as int)) == i + line_len(x@.skip(i as int)),
        decreases n - i,
    {
        assert(x@.skip(i as int)[0] == x@[i as int]);
        assert(x@.skip(i as int).drop_first() =~= x@.skip(i as int + 1));
        i = i + 1;
    }
    if i < n {
        assert(x@.skip(i as int)[0] == x@[i as int]);
    }
    i
}

fn read_line(line: &str) -> (r: Option<String>)
    ensures
        returned_by(line@, text::opt_text(r)),
{
    let x = text::chars_of(line);
    assert(x@.skip(0) =~= x@);
    let start: usize = text::skip_space(&x, 0);
    let t = text::chars_of(text::slice(&x, start, x.len()).as_str());
    assert(t@ =~= x@.skip(start as int));
    assert(t@ == text::trim_start(line@));
    let dashes = text::chars_of("--");
    let marker = text::chars_of("return '");
    let quote = text::chars_of("'");
    proof {
        reveal_strlit("--");
        reveal_strlit("return '");
        reveal_strlit("'");
    }
    match text::find(&t, &dashes, 0) {
        Some(0) => {
            return None;
        },
        Some(_) => {},
        None => {},
    }
    match text::find(&t, &marker, 0) {
        None => None,
        Some(i) => {
            assert(text::occurs_at(t@, "return '"@, i as int));
            let ghost rest = t@.skip(i + 8);
            let found = text::find(&t, &quote, i + 8);
            match found {
                None => {
                    assert(!rest.contains('\'')) by {
                        if rest.contains('\'') {
                            let k = choose|k: int| 0 <= k < rest.len() && rest[k] == '\'';
                            assert(t@[i + 8 + k] == '\'');
                            assert(t@.subrange(i + 8 + k, i + 8 + k + 1) =~= "'"@);
                            assert(text::occurs_at(t@, "'"@, i + 8 + k));
                        }
                    }
                    assert(up_to_quote(rest, None));
                    assert forall|j: int| #[trigger]
                        text::occurs_at(t@, "return '"@, j) && (forall|k: int|
                            0 <= k < j ==> !text::occurs_at(
                                t@,
                                "return '"@,
                                k,
                            )) implies up_to_quote(t@.skip(j + 8), None) by {
                        assert(j == i) by {
                            if j > i {
                                assert(!text::occurs_at(t@, "return '"@, i as int));
                            }
                        }
                    }
                    None
                },
                Some(j) => {
                    let v = text::slice(&t, i + 8, j);
                    proof {
                        assert(t@.subrange(j as int, j + 1)[0] == "'"@[0]);
                        assert(t@[j as int] == '\'');
                        assert(rest.take(v@.len() as int) =~= v@);
                        assert(rest[v@.len() as int] == '\'');
                        assert(!v@.contains('\'')) by {
                            if v@.contains('\'') {
                                let k = choose|k: int| 0 <= k < v@.len() && v@[k] == '\'';
                                assert(t@[i + 8 + k] == '\'');
                                assert(t@.subrange(i + 8 + k, i + 8 + k + 1) =~= "'"@);
                                assert(text::occurs_at(t@, "'"@, i + 8 + k));
                            }
                        }
                        assert(up_to_quote(rest, Some(v@)));
                        assert forall|l: int| #[trigger]
                            text::occurs_at(t@, "return '"@, l) && (forall|k: int|
                                0 <= k < l ==> !text::occurs_at(
                                    t@,
                                    "return '"@,
                                    k,
                                )) implies up_to_quote(t@.skip(l + 8), Some(v@)) by {
                            assert(l == i) by {
                                if l > i {
                                    assert(!text::occurs_at(t@, "return '"@, i as int));
                                }
                            }
                        }
                    }
                    Some(v)
                },
            }
        },
    }
}

/// The version that a source gives back.
pub fn extract_version(source: &str) -> (r: Option<String>)
    ensures
        version_of(source@, text::opt_text(r)),
{
    let x = text::chars_of(source);
    let n: usize = x.len();
    let mut at: usize = 0;
    assert(x@.skip(0) =~= x@);
    while at < n
        invariant
            x@ == source@,
            n == x@.len(),
            at <= n,
            forall|v: Option<Seq<char>>|
                #[trigger] version_of(x@.skip(at as int), v) ==> version_of(source@, v),
        decreases n - at,
    {
        let ghost rest = x@.skip(at as int);
        let end: usize = line_end(&x, at);
        assert(x@.subrange(at as int, end as int) =~= rest.take(end - at));
        match read_line(text::slice(&x, at, end).as_str()) {
            Some(v) => {
                assert(version_of(rest, Some(v@)));
                return Some(v);
            },
            None => {
                if end == n {
                    assert(version_of(rest, None));
                    return None;
                }
                proof {
                    assert(rest.skip(end - at + 1) =~= x@.skip(end + 1));
                    assert(returned_by(rest.take(end - at), None));
                    assert forall|v: Option<Seq<char>>| #[trigger]
                        version_of(x@.skip(end + 1), v) implies version_of(source@, v) by {
                        assert(version_of(rest, v));
                    }
                }
                at = end + 1;
            },
        }
    }
    assert(x@.skip(at as int) =~= Seq::empty());
    assert(version_of(x@.skip(at as int), None));
    None
}

/// Whether a version is fit to be used: not empty, short, on one line and without
/// quotes.
pub open spec fn fit_version(v: Seq<char>) -> bool {
    v.len() > 0 && vstd::utf8::encode_utf8(v).len() < 64 && !v.contains('\n') && !v.contains('\'')
}

/// Whether a version is fit to be used.
pub fn is_fit_version(v: &str) -> (r: bool)
    ensures
        r == fit_version(v@),
{
    !v.is_empty() && v.as_bytes().len() < 64 && !text::contains_char(v, '\n')
        && !text::contains_char(v, '\'')
}

/// A source gives back at most one version.
pub proof fn law_version_is_unique(s: Seq<char>, a: Option<Seq<char>>, b: Option<Seq<char>>)
    requires
        version_of(s, a),
        version_of(s, b),
    ensures
        a == b,
    decreases s.len(),
{
    if s.len() > 0 {
        let n = line_len(s) as int;
        lemma_line_len(s);
        let line = s.take(n);
        if returned_by(line, None) {
            lemma_returned_unique(line, a, None);
            lemma_returned_unique(line, b, None);
            if n < s.len() {
                law_version_is_unique(s.skip(n + 1), a, b);
            }
        } else {
            lemma_returned_unique(line, a, b);
        }
    }
}

proof fn lemma_first_occurrence(s: Seq<char>, needle: Seq<char>, i: int) -> (r: int)
    requires
        text::occurs_at(s, needle, i),
    ensures
        0 <= r <= i,
        text::occurs_at(s, needle, r),
        forall|k: int| 0 <= k < r ==> !text::occurs_at(s, needle, k),
    decreases i,
{
    if exists|k: int| 0 <= k < i && text::occurs_at(s, needle, k) {
        let k = choose|k: int| 0 <= k < i && text::occurs_at(s, needle, k);
        lemma_first_occurrence(s, needle, k)
    } else {
        i
    }
}

proof fn lemma_returned_unique(line: Seq<char>, a: Option<Seq<char>>, b: Option<Seq<char>>)
    ensures
        returned_by(line, a) && returned_by(line, b) ==> a == b,
{
    let t = text::trim_start(line);
    if returned_by(line, a) && returned_by(line, b) && !text::occurs_at(t, "--"@, 0)
        && text::occurs(t, "return '"@) {
        let i = choose|i: int| text::occurs_at(t, "return '"@, i);
        let first = lemma_first_occurrence(t, "return '"@, i);
        let rest = t.skip(first + 8);
        assert(up_to_quote(rest, a));
        assert(up_to_quote(rest, b));
        match (a, b) {
            (Some(x), Some(y)) => {
                if x.len() < y.len() {
                    assert(y[x.len() as int] == rest[x.len() as int]);
                    assert(y.contains('\''));
                } else if y.len() < x.len() {
                    assert(x[y.len() as int] == rest[y.len() as int]);
                    assert(x.contains('\''));
                }
                assert(x =~= y);
            },
            (Some(x), None) => {
                assert(rest[x.len() as int] == '\'');
            },
            (None, Some(y)) => {
                assert(rest[y.len() as int] == '\'');
            },
            (None, None) => {},
        }
    }
}

} // verus!
