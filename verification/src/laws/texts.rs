//! Texts: what errors say, how they are found again, and how texts are cut and joined.

use vstd::prelude::*;
use vstd::string::*;

use crate::engine_error;
use crate::engine_error::{EngineError, TransportSource};
use crate::error::{ErrorClass, ScriptError};
use crate::error_laws;
use crate::json;
use crate::loader::LoadError;
use crate::retry::ErrorKind;
use crate::sdk_error::fmt_config;
use crate::text;

verus! {

// ── Errors ──

/// A code is read as the error whose code it is, and with the details as the error that
/// carries them.
pub proof fn law_codes_are_read(
    code: &str,
    details: &[&str],
    e: ScriptError<Seq<char>>,
    r: Option<ScriptError>,
    s: Option<ScriptError>,
)
    requires
        call_ensures(ScriptError::<String>::from_code, (code,), r),
        call_ensures(ScriptError::<String>::from_code_with_details, (code, details), s),
        e.code_spec() is Some,
        code@ == e.code_spec()->0@,
        details@.len() == error_laws::details_of(e).len(),
        forall|i: int|
            0 <= i < details@.len() ==> (#[trigger] details@[i])@ == error_laws::details_of(e)[i],
    ensures
        r matches Some(x) && x@ == error_laws::emptied(e),
        s matches Some(x) && x@ == e,
{
    error_laws::law_code_round_trip(e);
    error_laws::law_answer_round_trip(e);
    assert(crate::error::slices(details@) =~= error_laws::details_of(e));
}

/// The class of a transport fault is that of the server function's error inside it, and the
/// kind that of the client fault inside that; a label changes neither. A fault without such an
/// error is final, and has no kind.
pub proof fn law_faults_are_looked_into(
    e: &EngineError,
    c: ErrorClass,
    k: Option<ErrorKind>,
    t: bool,
)
    requires
        call_ensures(engine_error::class, (e,), c),
        call_ensures(engine_error::valkey_kind, (e,), k),
        call_ensures(engine_error::is_transport, (e,), t),
    ensures
        *e matches EngineError::Transport { source: TransportSource::Script(s), .. } ==> c
            == s.class_spec() && t,
        *e matches EngineError::Transport {
            source: TransportSource::Script(ScriptError::Valkey(f)),
            ..
        } ==> k == Some(f.kind),
        *e matches EngineError::Transport { source: TransportSource::Other(_), .. } ==> c is Terminal
            && k is None && t,
        *e matches EngineError::Contextual { source, .. } ==> c == source.class_spec() && k
            == source.kind_spec() && t == source.is_transport_spec(),
        !(*e is Transport || *e is Contextual) ==> k is None && !t,
{
}

/// An error of the engine says what it is before it says more.
pub proof fn law_engine_errors_say_what_they_are(e: &EngineError, r: String)
    requires
        call_ensures(EngineError::<String>::text, (e,), r),
    ensures
        *e matches EngineError::NotFound { entity } ==> r@ == "not found: "@ + entity@,
        *e matches EngineError::Validation { kind, detail } ==> r@ == "validation: "@
            + kind.name_spec()@ + ": "@ + detail@,
        *e matches EngineError::State(k) ==> r@ == "state: "@ + k.name_spec()@,
        *e matches EngineError::Unavailable { op } ==> r@ == "unavailable: "@ + op@,
        *e matches EngineError::Transport { backend, source: TransportSource::Other(t) } ==> r@
            == "transport ("@ + backend@ + "): "@ + t@,
        *e matches EngineError::Contextual { source, context } ==> r@ == context@ + ": "@
            + source@.text_spec(),
{
}

/// A wrong configuration is told with the place and, where there is one, the field.
pub proof fn law_configuration_errors(
    context: &str,
    field: &str,
    message: &str,
    r: String,
    s: String,
)
    requires
        call_ensures(fmt_config, (context, Some(field), message), r),
        call_ensures(fmt_config, (context, None::<&str>, message), s),
    ensures
        r@ == "config: "@ + context@ + "."@ + field@ + ": "@ + message@,
        s@ == "config: "@ + context@ + ": "@ + message@,
{
}

/// A load error tells the client's fault, or both versions; only the first has a kind.
pub proof fn law_load_errors(e: &LoadError, r: String, k: Option<ErrorKind>)
    requires
        call_ensures(LoadError::<String>::text, (e,), r),
        call_ensures(LoadError::<String>::valkey_kind, (e,), k),
    ensures
        *e matches LoadError::Valkey(f) ==> r@ == "valkey: "@ + f.text@ && k == Some(f.kind),
        *e matches LoadError::VersionMismatch { expected, got } ==> r@
            == "version mismatch after load: expected "@ + expected@ + ", got "@ + got@ && k is None,
{
}

// ── JSON ──

/// An object without members is a pair of braces; each further member follows a comma, its
/// name before its value.
pub proof fn law_members_are_appended(
    pairs: Seq<(Seq<char>, Seq<char>)>,
    p: (Seq<char>, Seq<char>),
)
    ensures
        json::object_text(Seq::empty()) == "{"@ + "}"@,
        json::object_text(seq![p]) == "{"@ + (json::json_string_text(p.0) + ":"@
            + json::json_string_text(p.1)) + "}"@,
        pairs.len() > 0 ==> json::object_text(pairs.push(p)) == json::object_text(
            pairs,
        ).drop_last() + ","@ + (json::json_string_text(p.0) + ":"@ + json::json_string_text(p.1))
            + "}"@,
{
    reveal_strlit("");
    reveal_strlit("{");
    reveal_strlit("}");
    reveal_strlit(",");
    let member = |q: (Seq<char>, Seq<char>)| json::member_text(q);
    assert(Seq::<(Seq<char>, Seq<char>)>::empty().map_values(member) =~= Seq::empty());
    assert(json::object_text(Seq::empty()) =~= "{"@ + "}"@);
    assert(seq![p].map_values(member) =~= seq![json::member_text(p)]);
    if pairs.len() > 0 {
        assert(pairs.push(p).map_values(member) =~= pairs.map_values(member).push(
            json::member_text(p),
        ));
        assert(pairs.map_values(member).push(json::member_text(p)).drop_last()
            =~= pairs.map_values(member));
        assert(json::object_text(pairs.push(p)) =~= json::object_text(pairs).drop_last()
            + ","@ + (json::json_string_text(p.0) + ":"@ + json::json_string_text(p.1)) + "}"@);
    }
}

// ── Cutting and joining ──

/// Joined texts stand in order, with the separator between any two and nowhere else.
pub proof fn law_joining(parts: &Vec<String>, more: &Vec<String>, sep: &str, r: String, s: String)
    requires
        call_ensures(text::join, (parts, sep), r),
        call_ensures(text::join, (more, sep), s),
        more@.len() == parts@.len() + 1,
        more@.drop_last() == parts@,
    ensures
        parts@.len() == 0 ==> r@.len() == 0 && s@ == more@[0]@,
        parts@.len() > 0 ==> s@ == r@ + sep@ + more@.last()@,
{
    let t = text::texts(more@);
    assert(t.drop_last() =~= text::texts(parts@));
    assert(t.last() == more@.last()@);
    if parts@.len() == 0 {
        assert(t[0] == more@[0]@);
    }
}

/// What is trimmed off is white space, and what is left has none at its ends.
pub proof fn law_trimming(s: &str, r: String)
    requires
        call_ensures(text::trim, (s,), r),
    ensures
        r@.len() > 0 ==> !text::unicode_space(r@[0]) && !text::unicode_space(r@.last()),
        exists|a: Seq<char>, b: Seq<char>| #[trigger]
            (a + r@ + b) == s@ && (forall|i: int|
                0 <= i < a.len() ==> text::unicode_space(#[trigger] a[i])) && (forall|i: int|
                0 <= i < b.len() ==> text::unicode_space(#[trigger] b[i])),
{
    let rest = text::trim_start(s@);
    let a = lemma_cut_start(s@);
    let b = lemma_cut_end(rest);
    assert(a + r@ + b =~= s@);
    if r@.len() > 0 {
        assert(r@[0] == rest[0]);
    }
}

proof fn lemma_cut_start(s: Seq<char>) -> (a: Seq<char>)
    ensures
        a + text::trim_start(s) == s,
        forall|i: int| 0 <= i < a.len() ==> text::unicode_space(#[trigger] a[i]),
        text::trim_start(s).len() > 0 ==> !text::unicode_space(text::trim_start(s)[0]),
    decreases s.len(),
{
    if s.len() > 0 && text::unicode_space(s[0]) {
        let b = lemma_cut_start(s.drop_first());
        let a = seq![s[0]] + b;
        assert(a + text::trim_start(s) =~= seq![s[0]] + (b + text::trim_start(s.drop_first())));
        assert(seq![s[0]] + s.drop_first() =~= s);
        a
    } else {
        assert(Seq::<char>::empty() + s =~= s);
        Seq::empty()
    }
}

proof fn lemma_cut_end(s: Seq<char>) -> (b: Seq<char>)
    ensures
        text::trim_end(s) + b == s,
        forall|i: int| 0 <= i < b.len() ==> text::unicode_space(#[trigger] b[i]),
        text::trim_end(s).len() > 0 ==> !text::unicode_space(text::trim_end(s).last()),
    decreases s.len(),
{
    if s.len() > 0 && text::unicode_space(s.last()) {
        let a = lemma_cut_end(s.drop_last());
        let b = a.push(s.last());
        assert(text::trim_end(s) + b =~= (text::trim_end(s.drop_last()) + a).push(s.last()));
        assert(s.drop_last().push(s.last()) =~= s);
        b
    } else {
        assert(s + Seq::<char>::empty() =~= s);
        Seq::empty()
    }
}

/// A text is in another exactly where it stands at some place of it.
pub proof fn law_containing(s: &str, needle: &str, r: bool)
    requires
        call_ensures(text::contains, (s, needle), r),
    ensures
        r <==> exists|i: int|
            0 <= i && i + needle@.len() <= s@.len() && #[trigger] s@.subrange(
                i,
                i + needle@.len(),
            ) == needle@,
{
    if r {
        let i = choose|i: int| text::occurs_at(s@, needle@, i);
        assert(s@.subrange(i, i + needle@.len()) == needle@);
    }
    if exists|i: int|
        0 <= i && i + needle@.len() <= s@.len() && #[trigger] s@.subrange(i, i + needle@.len())
            == needle@ {
        let i = choose|i: int|
            0 <= i && i + needle@.len() <= s@.len() && #[trigger] s@.subrange(
                i,
                i + needle@.len(),
            ) == needle@;
        assert(text::occurs_at(s@, needle@, i));
    }
}

/// The spaces are the tab and the four line ends behind it, the blank, the next line and the
/// hard blank, and those of Unicode's later blocks; the control codes are those below the
/// blank, and from the delete code up to the hard blank.
pub proof fn law_spaces_and_controls(c: char, space: bool, control: bool)
    requires
        call_ensures(text::is_space, (c,), space),
        call_ensures(text::is_control, (c,), control),
    ensures
        c < '\u{80}' ==> (space <==> (c == ' ' || c == '\t' || c == '\n' || c == '\u{b}' || c
            == '\u{c}' || c == '\r')),
        '\u{80}' <= c <= '\u{ff}' ==> (space <==> (c == '\u{85}' || c == '\u{a0}')),
        c > '\u{ff}' ==> (space <==> (c == '\u{1680}' || '\u{2000}' <= c <= '\u{200a}' || c
            == '\u{2028}' || c == '\u{2029}' || c == '\u{202f}' || c == '\u{205f}' || c
            == '\u{3000}')),
        control <==> (c < ' ' || '\u{7f}' <= c < '\u{a0}'),
{
}

} // verus!
