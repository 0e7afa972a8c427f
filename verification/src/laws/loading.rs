//! Loading: how the server's library comes to the expected version, and what is loaded.

use vstd::prelude::*;
use vstd::string::*;

use crate::error::ServerError;
use crate::library;
use crate::library::{assemble, extract_version, is_fit_version, sources};
use crate::loader::{
    after_check, after_load, after_report, after_verify, after_wait, backoff, ensure_library,
    force_reload, is_permanent_load_error, LoadError, LoadStep,
};
use crate::text;

verus! {

/// The library is left as it is only where its version is the expected one, and only where
/// no load is forced; else it is loaded.
pub proof fn law_load_unless_expected(
    force: bool,
    got: &Result<String, ServerError>,
    expected: &str,
    first: LoadStep,
    next: LoadStep,
)
    requires
        call_ensures(ensure_library, (force,), first),
        call_ensures(after_check, (got, expected), next),
    ensures
        force ==> (first matches LoadStep::Load { attempt } && attempt == 1),
        !force ==> first is Check,
        (*got matches Ok(v) && v@ == expected@) ==> next is Ready,
        !(*got matches Ok(v) && v@ == expected@) ==> (next matches LoadStep::Load { attempt }
            && attempt == 1),
{
}

/// A load that succeeded is checked. One that failed for good ends with its error; any other
/// failure is tried again after a pause, six attempts in all, and the last failure is the
/// error.
pub proof fn law_load_is_tried_six_times(
    attempt: u32,
    reply: Result<(), ServerError>,
    p: bool,
    pause: u64,
    r: LoadStep,
)
    requires
        1 <= attempt <= 6,
        call_ensures(after_load, (attempt, reply), r),
        reply matches Err(e) ==> call_ensures(is_permanent_load_error, (&e,), p),
        call_ensures(backoff, (attempt,), pause),
    ensures
        reply is Ok ==> r is Verify,
        (reply is Err && (p || attempt == 6)) ==> (r matches LoadStep::Failed(LoadError::Valkey(e))
            && e@ == reply->Err_0@),
        (reply is Err && !p && attempt < 6) ==> (r matches LoadStep::Wait { attempt: a, backoff_ms }
            && a == attempt && backoff_ms == pause),
{
}

/// The pauses grow from half a second to seven seconds, and come to fourteen and a half in
/// all.
pub proof fn law_pauses_grow(a: u64, b: u64, c: u64, d: u64, e: u64)
    requires
        call_ensures(backoff, (1u32,), a),
        call_ensures(backoff, (2u32,), b),
        call_ensures(backoff, (3u32,), c),
        call_ensures(backoff, (4u32,), d),
        call_ensures(backoff, (5u32,), e),
    ensures
        a == 500,
        b == 2 * a,
        c == 2 * b,
        d == 2 * c,
        e == 7_000,
        a + b + c + d + e == 14_500,
{
}

/// After a pause comes the next attempt.
pub proof fn law_next_attempt(attempt: u32, r: LoadStep)
    requires
        attempt < 6,
        call_ensures(after_wait, (attempt,), r),
    ensures
        r matches LoadStep::Load { attempt: a } && a == attempt + 1,
{
}

/// A loaded library is ready only at the expected version. At another one it is a mismatch,
/// told with both versions; where it cannot be asked, that is the error.
pub proof fn law_loaded_version_is_checked(
    got: Result<String, ServerError>,
    expected: &str,
    r: LoadStep,
    again: Result<String, ServerError>,
    last: LoadStep,
)
    requires
        call_ensures(after_verify, (got, expected), r),
        call_ensures(after_report, (again, expected), last),
    ensures
        (got matches Ok(v) && v@ == expected@) <==> r is Ready,
        (got matches Ok(v) && v@ != expected@) ==> r is Report,
        got matches Err(e) ==> (r matches LoadStep::Failed(LoadError::Valkey(x)) && x@ == e@),
        last matches LoadStep::Failed(LoadError::VersionMismatch { expected: w, got: g }) && w@
            == expected@ && (again matches Ok(v) ==> g@ == v@) && (again is Err ==> g@.len() == 0),
{
    reveal_strlit("");
}

/// A load fails for good exactly where the server says that the library does not compile.
pub proof fn law_permanent_failures(e: &ServerError, r: bool)
    requires
        call_ensures(is_permanent_load_error, (e,), r),
    ensures
        r <==> (exists|i: int| #[trigger] text::occurs_at(e.text@, "Error compiling"@, i)) || (
        exists|i: int| #[trigger] text::occurs_at(e.text@, "syntax error"@, i)) || (exists|i: int|
            #[trigger] text::occurs_at(e.text@, "ERR Error"@, i)),
{
}

/// A setting forces a load exactly where it says yes, in one of three words and any case,
/// with space round it or not. Without a setting nothing is forced.
pub proof fn law_forced_by_setting(v: &str, r: bool, none: bool)
    requires
        call_ensures(force_reload, (Some(v),), r),
        call_ensures(force_reload, (None::<&str>,), none),
    ensures
        !none,
        r <==> ({
            let word = text::lower(text::trim_end(text::trim_start(v@)));
            word == "1"@ || word == "true"@ || word == "yes"@
        }),
{
}

/// The helpers are the first source, the version the second, and no source comes twice.
pub proof fn law_helpers_come_first(r: Vec<String>)
    requires
        call_ensures(sources, (), r),
    ensures
        r@.len() == 11,
        r@[0]@ == "helpers.lua"@,
        r@[1]@ == "version.lua"@,
        r@[2]@ == "lease.lua"@,
        r@[3]@ == "execution.lua"@,
        r@[4]@ == "scheduling.lua"@,
        r@[5]@ == "suspension.lua"@,
        r@[6]@ == "signal.lua"@,
        r@[7]@ == "stream.lua"@,
        r@[8]@ == "budget.lua"@,
        r@[9]@ == "quota.lua"@,
        r@[10]@ == "flow.lua"@,
{
    let t = text::texts(r@);
    assert(t.len() == r@.len());
    assert(t[0] == r@[0]@ && t[1] == r@[1]@ && t[2] == r@[2]@ && t[3] == r@[3]@);
    assert(t[4] == r@[4]@ && t[5] == r@[5]@ && t[6] == r@[6]@ && t[7] == r@[7]@);
    assert(t[8] == r@[8]@ && t[9] == r@[9]@ && t[10] == r@[10]@);
}

/// The library begins with its declaration, and every further source stands at its end,
/// whole, under a line with its name.
pub proof fn law_sources_are_appended(
    parts: &Vec<(String, String)>,
    more: &Vec<(String, String)>,
    a: String,
    b: String,
    empty: &Vec<(String, String)>,
    c: String,
)
    requires
        call_ensures(assemble, (parts,), a),
        call_ensures(assemble, (more,), b),
        call_ensures(assemble, (empty,), c),
        more@.len() == parts@.len() + 1,
        more@.drop_last() == parts@,
        empty@.len() == 0,
    ensures
        c@ == "#!lua name=flowfabric\n"@,
        b@ == a@ + "\n-- source: lua/"@ + more@.last().0@ + "\n"@ + more@.last().1@ + "\n"@,
{
    let x = library::named(more@);
    assert(x.drop_last() =~= library::named(parts@));
    assert(x.last() == (more@.last().0@, more@.last().1@));
    assert(library::named(empty@) =~= Seq::empty());
}

/// A line that gives a quoted text back gives the version of its source, whatever stands
/// behind the quote.
pub proof fn law_version_is_found(source: &str, v: Seq<char>, rest: Seq<char>, r: Option<String>)
    requires
        call_ensures(extract_version, (source,), r),
        source@ == "return '"@ + v + "'"@ + rest,
        forall|i: int| 0 <= i < v.len() ==> (#[trigger] v[i]) != '\'' && v[i] != '\n',
        forall|i: int| 0 <= i < rest.len() ==> (#[trigger] rest[i]) != '\n',
    ensures
        r matches Some(x) && x@ == v,
{
    reveal_strlit("return '");
    reveal_strlit("'");
    reveal_strlit("--");
    let s = source@;
    assert(s.len() == 9 + v.len() + rest.len());
    assert forall|i: int| 0 <= i < s.len() implies s[i] != '\n' by {
        if 8 <= i < 8 + v.len() {
            assert(s[i] == v[i - 8]);
        } else if i >= 9 + v.len() {
            assert(s[i] == rest[i - 9 - v.len()]);
        }
    }
    lemma_one_line(s);
    assert(s.take(s.len() as int) =~= s);
    assert(s[0] == 'r');
    assert(text::trim_start(s) == s);
    assert(!text::occurs_at(s, "--"@, 0)) by {
        if text::occurs_at(s, "--"@, 0) {
            assert(s.subrange(0, 2)[0] == "--"@[0]);
        }
    }
    assert(s.subrange(0, 8) =~= "return '"@);
    assert(text::occurs_at(s, "return '"@, 0));
    let tail = s.skip(8);
    assert(tail.take(v.len() as int) =~= v);
    assert(tail[v.len() as int] == '\'');
    assert(!v.contains('\'')) by {
        if v.contains('\'') {
            let k = choose|k: int| 0 <= k < v.len() && v[k] == '\'';
            assert(v[k] != '\'');
        }
    }
    assert(library::up_to_quote(tail, Some(v)));
    assert(library::returned_by(s, Some(v))) by {
        assert forall|i: int| #[trigger]
            text::occurs_at(s, "return '"@, i) && (forall|k: int|
                0 <= k < i ==> !text::occurs_at(s, "return '"@, k)) implies library::up_to_quote(
            s.skip(i + 8),
            Some(v),
        ) by {
            if i > 0 {
                assert(!text::occurs_at(s, "return '"@, 0));
            }
        }
    }
    assert(library::version_of(s, Some(v)));
    library::law_version_is_unique(s, Some(v), text::opt_text(r));
}

proof fn lemma_one_line(s: Seq<char>)
    requires
        forall|i: int| 0 <= i < s.len() ==> (#[trigger] s[i]) != '\n',
    ensures
        library::line_len(s) == s.len(),
    decreases s.len(),
{
    if s.len() > 0 {
        assert forall|i: int| 0 <= i < s.drop_first().len() implies (#[trigger] s.drop_first()[i])
            != '\n' by {
            assert(s.drop_first()[i] == s[i + 1]);
        }
        lemma_one_line(s.drop_first());
    }
}

/// A comment gives no version.
pub proof fn law_comments_give_no_version(source: &str, rest: Seq<char>, r: Option<String>)
    requires
        call_ensures(extract_version, (source,), r),
        source@ == "--"@ + rest,
        forall|i: int| 0 <= i < rest.len() ==> (#[trigger] rest[i]) != '\n',
    ensures
        r is None,
{
    reveal_strlit("--");
    let s = source@;
    assert forall|i: int| 0 <= i < s.len() implies s[i] != '\n' by {
        if i >= 2 {
            assert(s[i] == rest[i - 2]);
        }
    }
    lemma_one_line(s);
    assert(s.take(s.len() as int) =~= s);
    assert(s[0] == '-');
    assert(text::trim_start(s) == s);
    assert(s.subrange(0, 2) =~= "--"@);
    assert(text::occurs_at(s, "--"@, 0));
    assert(library::version_of(s, None));
    library::law_version_is_unique(s, None, text::opt_text(r));
}

/// A version is short, on one line, without quotes, and not empty.
pub proof fn law_fit_versions(v: &str, r: bool)
    requires
        call_ensures(is_fit_version, (v,), r),
    ensures
        v@.len() == 0 ==> !r,
        v@.contains('\n') ==> !r,
        v@.contains('\'') ==> !r,
        vstd::utf8::encode_utf8(v@).len() >= 64 ==> !r,
        (v@.len() > 0 && !v@.contains('\n') && !v@.contains('\'') && vstd::utf8::encode_utf8(
            v@,
        ).len() < 64) ==> r,
{
}

} // verus!
