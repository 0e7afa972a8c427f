//! Text tools: comparison, order, decimal rendering and parsing.
//!
//! Every function is stated over the characters of its arguments.

use vstd::prelude::*;
use vstd::string::*;

verus! {

// ── Comparison ──

proof fn lemma_same_bytes(a: &str, b: &str)
    requires
        a.spec_bytes() == b.spec_bytes(),
    ensures
        a@ == b@,
{
    vstd::utf8::encode_utf8_decode_utf8(a@);
    vstd::utf8::encode_utf8_decode_utf8(b@);
}

/// Whether two byte slices hold the same bytes.
pub fn same_bytes(x: &[u8], y: &[u8]) -> (r: bool)
    ensures
        r == (x@ == y@),
{
    if x.len() != y.len() {
        return false;
    }
    let n: usize = x.len();
    let mut i: usize = 0;
    while i < n
        invariant
            i <= n,
            n == x@.len(),
            n == y@.len(),
            forall|j: int| 0 <= j < i ==> x@[j] == y@[j],
        decreases n - i,
    {
        if x[i] != y[i] {
            return false;
        }
        i = i + 1;
    }
    assert(x@ =~= y@);
    true
}

/// Whether two strings are equal.
pub fn same(a: &str, b: &str) -> (r: bool)
    ensures
        r == (a@ == b@),
{
    let r = same_bytes(a.as_bytes(), b.as_bytes());
    proof {
        if r {
            lemma_same_bytes(a, b);
        }
    }
    r
}

/// The characters of a string, in order.
pub fn chars_of(s: &str) -> (r: Vec<char>)
    ensures
        r@ == s@,
{
    let mut out: Vec<char> = Vec::new();
    for c in it: s.chars()
        invariant
            out@ == it.seq().take(it.index()),
            it.seq() == s@,
    {
        out.push(c);
        assert(it.seq().take(it.index() + 1) =~= it.seq().take(it.index()).push(c));
    }
    assert(s@.take(s@.len() as int) =~= s@);
    out
}

/// Lexicographic order by code point.
pub open spec fn precedes_spec(a: Seq<char>, b: Seq<char>) -> bool
    decreases a.len(),
{
    if b.len() == 0 {
        false
    } else if a.len() == 0 {
        true
    } else if a[0] != b[0] {
        a[0] < b[0]
    } else {
        precedes_spec(a.skip(1), b.skip(1))
    }
}

/// Whether `a` sorts strictly before `b`.
pub fn precedes(a: &str, b: &str) -> (r: bool)
    ensures
        r == precedes_spec(a@, b@),
{
    let x = chars_of(a);
    let y = chars_of(b);
    let mut i: usize = 0;
    assert(x@.skip(0) =~= x@);
    assert(y@.skip(0) =~= y@);
    loop
        invariant
            x@ == a@,
            y@ == b@,
            i <= x@.len(),
            i <= y@.len(),
            precedes_spec(a@, b@) == precedes_spec(x@.skip(i as int), y@.skip(i as int)),
        decreases x@.len() - i,
    {
        if i == y.len() {
            return false;
        }
        if i == x.len() {
            return true;
        }
        let c = x[i];
        let d = y[i];
        if c != d {
            return c < d;
        }
        assert(x@.skip(i as int).skip(1) =~= x@.skip(i as int + 1));
        assert(y@.skip(i as int).skip(1) =~= y@.skip(i as int + 1));
        i = i + 1;
    }
}

/// The order is irreflexive.
pub proof fn lemma_precedes_irreflexive(a: Seq<char>)
    ensures
        !precedes_spec(a, a),
    decreases a.len(),
{
    if a.len() > 0 {
        lemma_precedes_irreflexive(a.skip(1));
    }
}

/// The order is transitive.
pub proof fn lemma_precedes_transitive(a: Seq<char>, b: Seq<char>, c: Seq<char>)
    requires
        precedes_spec(a, b),
        precedes_spec(b, c),
    ensures
        precedes_spec(a, c),
    decreases a.len(),
{
    if a.len() > 0 && b.len() > 0 && c.len() > 0 {
        if a[0] == b[0] && b[0] == c[0] {
            lemma_precedes_transitive(a.skip(1), b.skip(1), c.skip(1));
        }
    }
}

/// Two different texts are ordered one way or the other.
pub proof fn lemma_precedes_total(a: Seq<char>, b: Seq<char>)
    requires
        a != b,
    ensures
        precedes_spec(a, b) || precedes_spec(b, a),
    decreases a.len(),
{
    if a.len() == 0 && b.len() == 0 {
        assert(a =~= b);
    } else if a.len() > 0 && b.len() > 0 && a[0] == b[0] {
        if a.skip(1) == b.skip(1) {
            assert(a =~= seq![a[0]] + a.skip(1));
            assert(b =~= seq![b[0]] + b.skip(1));
        } else {
            lemma_precedes_total(a.skip(1), b.skip(1));
        }
    }
}

// ── Searching ──

/// Whether `needle` occurs in `s` at position `i`.
pub open spec fn occurs_at(s: Seq<char>, needle: Seq<char>, i: int) -> bool {
    0 <= i && i + needle.len() <= s.len() && s.subrange(i, i + needle.len()) == needle
}

/// Whether `needle` occurs anywhere in `s`.
pub open spec fn occurs(s: Seq<char>, needle: Seq<char>) -> bool {
    exists|i: int| occurs_at(s, needle, i)
}

fn occurs_here(s: &Vec<char>, needle: &Vec<char>, i: usize) -> (r: bool)
    requires
        i + needle@.len() <= s@.len(),
    ensures
        r == occurs_at(s@, needle@, i as int),
{
    let n: usize = needle.len();
    let m: usize = s.len();
    let mut j: usize = 0;
    while j < n
        invariant
            j <= n,
            n == needle@.len(),
            m == s@.len(),
            i + n <= m,
            forall|k: int| 0 <= k < j ==> s@[i + k] == needle@[k],
        decreases n - j,
    {
        if s[i + j] != needle[j] {
            assert(s@.subrange(i as int, i + n)[j as int] == s@[i + j]);
            return false;
        }
        j = j + 1;
    }
    assert(s@.subrange(i as int, i + n) =~= needle@);
    true
}

/// Whether `needle` occurs anywhere in `s`.
pub fn contains(s: &str, needle: &str) -> (r: bool)
    ensures
        r == occurs(s@, needle@),
{
    let x = chars_of(s);
    let y = chars_of(needle);
    if y.len() > x.len() {
        return false;
    }
    let last: usize = x.len() - y.len();
    let mut i: usize = 0;
    while i <= last
        invariant
            x@ == s@,
            y@ == needle@,
            last == x@.len() - y@.len(),
            i <= last + 1,
            forall|k: int| 0 <= k < i ==> !occurs_at(s@, needle@, k),
        decreases last + 1 - i,
    {
        if occurs_here(&x, &y, i) {
            return true;
        }
        if i == last {
            return false;
        }
        i = i + 1;
    }
    false
}

/// Whether a character occurs in a string.
pub fn contains_char(s: &str, c: char) -> (r: bool)
    ensures
        r == s@.contains(c),
{
    let x = chars_of(s);
    let n: usize = x.len();
    let mut i: usize = 0;
    while i < n
        invariant
            x@ == s@,
            n == x@.len(),
            i <= n,
            forall|k: int| 0 <= k < i ==> x@[k] != c,
        decreases n - i,
    {
        if x[i] == c {
            return true;
        }
        i = i + 1;
    }
    false
}

// ── Building ──

/// `String::push` appends one character.
pub assume_specification[ String::push ](s: &mut String, ch: char)
    ensures
        final(s)@ == old(s)@.push(ch),
;

/// `String::pop` removes the last character and returns it, or returns `None`
/// on an empty string.
pub assume_specification[ String::pop ](s: &mut String) -> (r: Option<char>)
    ensures
        old(s)@.len() == 0 ==> r is None && final(s)@ == old(s)@,
        old(s)@.len() > 0 ==> r == Some(old(s)@.last()) && final(s)@ == old(s)@.drop_last(),
;

/// The texts of a list of strings.
pub open spec fn texts(v: Seq<String>) -> Seq<Seq<char>> {
    v.map_values(|s: String| s@)
}

/// The same texts.
pub fn copies(v: &Vec<String>) -> (r: Vec<String>)
    ensures
        texts(r@) == texts(v@),
{
    let n: usize = v.len();
    let mut out: Vec<String> = Vec::new();
    let mut i: usize = 0;
    while i < n
        invariant
            n == v@.len(),
            i <= n,
            out@.len() == i,
            forall|k: int| 0 <= k < i ==> (#[trigger] out@[k])@ == v@[k]@,
        decreases n - i,
    {
        out.push(v[i].clone());
        i = i + 1;
    }
    assert(texts(out@) =~= texts(v@));
    out
}

/// The text of an optional string.
pub open spec fn opt_text(v: Option<String>) -> Option<Seq<char>> {
    match v {
        Some(s) => Some(s@),
        None => None,
    }
}

/// The parts, one after another, with `sep` between neighbours.
pub open spec fn joined(parts: Seq<Seq<char>>, sep: Seq<char>) -> Seq<char>
    decreases parts.len(),
{
    if parts.len() == 0 {
        Seq::empty()
    } else if parts.len() == 1 {
        parts[0]
    } else {
        joined(parts.drop_last(), sep) + sep + parts.last()
    }
}

/// Concatenate the parts with `sep` between neighbours.
pub fn join(parts: &Vec<String>, sep: &str) -> (r: String)
    ensures
        r@ == joined(texts(parts@), sep@),
{
    let mut out = String::new();
    let n: usize = parts.len();
    let mut i: usize = 0;
    while i < n
        invariant
            n == parts@.len(),
            i <= n,
            out@ == joined(texts(parts@.take(i as int)), sep@),
        decreases n - i,
    {
        if i > 0 {
            out.append(sep);
        }
        out.append(parts[i].as_str());
        proof {
            let before = texts(parts@.take(i as int));
            let after = texts(parts@.take(i as int + 1));
            assert(after.drop_last() =~= before);
            assert(after.last() == parts@[i as int]@);
            if i == 0 {
                assert(after.len() == 1);
                assert(out@ =~= parts@[0]@);
            }
        }
        i = i + 1;
    }
    assert(parts@.take(n as int) =~= parts@);
    out
}

/// ASCII letters in lower case, every other character kept.
pub open spec fn ascii_lower(c: char) -> char {
    if 'A' <= c && c <= 'Z' {
        ((c as u8) + 32) as char
    } else {
        c
    }
}

/// `str::to_ascii_lowercase` on one character.
pub fn lower_char(c: char) -> (r: char)
    ensures
        r == ascii_lower(c),
{
    if 'A' <= c && c <= 'Z' {
        (c as u8 + 32) as char
    } else {
        c
    }
}

// ── Standard library text functions ──

/// What `String::from_utf8_lossy` makes of bytes that are not valid UTF-8.
pub uninterp spec fn replaced_text(bytes: Seq<u8>) -> Seq<char>;

/// The text of bytes: their decoding, with something in the place of what does not
/// decode.
pub open spec fn lossy_text(bytes: Seq<u8>) -> Seq<char> {
    if vstd::utf8::valid_utf8(bytes) {
        vstd::utf8::decode_utf8(bytes)
    } else {
        replaced_text(bytes)
    }
}

/// `String::from_utf8_lossy`, owned: the decoding of bytes that are valid UTF-8, and
/// for others the text named `replaced_text`.
#[verifier::external_body]
pub(crate) fn lossy(bytes: &[u8]) -> (r: String)
    ensures
        vstd::utf8::valid_utf8(bytes@) ==> r@ == vstd::utf8::decode_utf8(bytes@),
        !vstd::utf8::valid_utf8(bytes@) ==> r@ == replaced_text(bytes@),
{
    String::from_utf8_lossy(bytes).into_owned()
}

/// What the `Debug` rendering of a string is: the string in double quotes, with
/// escapes.
pub uninterp spec fn debug_text(s: Seq<char>) -> Seq<char>;

/// `format!("{:?}")` of a string: the text named `debug_text`. Which characters
/// are escaped is left unsaid.
#[verifier::external_body]
pub(crate) fn debug(s: &str) -> (r: String)
    ensures
        r@ == debug_text(s@),
{
    format!("{:?}", s)
}

/// Whether a character has the Unicode property `White_Space`.
pub open spec fn unicode_space(c: char) -> bool {
    let n = c as u32;
    (9 <= n && n <= 13) || n == 0x20 || n == 0x85 || n == 0xa0 || n == 0x1680 || (0x2000 <= n && n
        <= 0x200a) || n == 0x2028 || n == 0x2029 || n == 0x202f || n == 0x205f || n == 0x3000
}

/// Whether a character has the Unicode property `White_Space`.
pub fn is_space(c: char) -> (r: bool)
    ensures
        r == unicode_space(c),
{
    let n: u32 = c as u32;
    (9 <= n && n <= 13) || n == 0x20 || n == 0x85 || n == 0xa0 || n == 0x1680 || (0x2000 <= n && n
        <= 0x200a) || n == 0x2028 || n == 0x2029 || n == 0x202f || n == 0x205f || n == 0x3000
}

/// Whether a character is a control code: U+0000 to U+001F and U+007F to U+009F.
pub open spec fn is_control_spec(c: char) -> bool {
    (c as u32) <= 0x1f || (0x7f <= (c as u32) && (c as u32) <= 0x9f)
}

/// Whether a character is a control code.
pub fn is_control(c: char) -> (r: bool)
    ensures
        r == is_control_spec(c),
{
    let n: u32 = c as u32;
    n <= 0x1f || (0x7f <= n && n <= 0x9f)
}

/// Whether every character is whitespace.
pub open spec fn blank(s: Seq<char>) -> bool {
    forall|i: int| 0 <= i < s.len() ==> #[trigger] unicode_space(s[i])
}

/// Whether a string is empty once trimmed.
pub fn is_blank(s: &str) -> (r: bool)
    ensures
        r == blank(s@),
{
    let x = chars_of(s);
    let n: usize = x.len();
    let mut i: usize = 0;
    while i < n
        invariant
            x@ == s@,
            n == x@.len(),
            i <= n,
            forall|k: int| 0 <= k < i ==> #[trigger] unicode_space(s@[k]),
        decreases n - i,
    {
        if !is_space(x[i]) {
            return false;
        }
        i = i + 1;
    }
    true
}

// ── Trimming ──

/// A text without the whitespace at its start.
pub open spec fn trim_start(s: Seq<char>) -> Seq<char>
    decreases s.len(),
{
    if s.len() > 0 && unicode_space(s[0]) {
        trim_start(s.drop_first())
    } else {
        s
    }
}

/// A text without the whitespace at its end.
pub open spec fn trim_end(s: Seq<char>) -> Seq<char>
    decreases s.len(),
{
    if s.len() > 0 && unicode_space(s.last()) {
        trim_end(s.drop_last())
    } else {
        s
    }
}

/// The position of the first character from `from` on that is not whitespace, or
/// the end.
pub fn skip_space(x: &Vec<char>, from: usize) -> (r: usize)
    requires
        from <= x@.len(),
    ensures
        from <= r <= x@.len(),
        trim_start(x@.skip(from as int)) == x@.skip(r as int),
{
    let n: usize = x.len();
    let mut i: usize = from;
    while i < n && is_space(x[i])
        invariant
            n == x@.len(),
            from <= i <= n,
            trim_start(x@.skip(from as int)) == trim_start(x@.skip(i as int)),
        ensures
            from <= i <= n,
            i < n ==> !unicode_space(x@[i as int]),
            trim_start(x@.skip(from as int)) == trim_start(x@.skip(i as int)),
        decreases n - i,
    {
        assert(x@.skip(i as int)[0] == x@[i as int]);
        assert(x@.skip(i as int).drop_first() =~= x@.skip(i as int + 1));
        i = i + 1;
    }
    if i < n {
        assert(x@.skip(i as int)[0] == x@[i as int]);
    }
    i
}

/// The characters from `from` up to `to`.
pub fn slice(x: &Vec<char>, from: usize, to: usize) -> (r: String)
    requires
        from <= to <= x@.len(),
    ensures
        r@ == x@.subrange(from as int, to as int),
{
    let mut out = "".to_owned();
    let mut i: usize = from;
    proof {
        reveal_strlit("");
        assert(out@ =~= x@.subrange(from as int, from as int));
    }
    while i < to
        invariant
            from <= i <= to <= x@.len(),
            out@ == x@.subrange(from as int, i as int),
        decreases to - i,
    {
        out.push(x[i]);
        assert(out@ =~= x@.subrange(from as int, i as int + 1));
        i = i + 1;
    }
    out
}

/// A text without the whitespace at its start and its end.
pub fn trim(s: &str) -> (r: String)
    ensures
        r@ == trim_end(trim_start(s@)),
{
    let x = chars_of(s);
    let from: usize = skip_space(&x, 0);
    assert(x@.skip(0) =~= x@);
    let ghost rest = x@.skip(from as int);
    let mut to: usize = x.len();
    assert(rest =~= x@.subrange(from as int, to as int));
    while to > from && is_space(x[to - 1])
        invariant
            from <= to <= x@.len(),
            rest == x@.skip(from as int),
            trim_end(rest) == trim_end(x@.subrange(from as int, to as int)),
        ensures
            from <= to <= x@.len(),
            to > from ==> !unicode_space(x@[to - 1]),
            trim_end(rest) == trim_end(x@.subrange(from as int, to as int)),
        decreases to,
    {
        let ghost part = x@.subrange(from as int, to as int);
        assert(part.last() == x@[to - 1]);
        assert(part.drop_last() =~= x@.subrange(from as int, to - 1));
        to = to - 1;
    }
    if to > from {
        assert(x@.subrange(from as int, to as int).last() == x@[to - 1]);
    }
    slice(&x, from, to)
}

/// A text with its ASCII letters in lower case.
pub open spec fn lower(s: Seq<char>) -> Seq<char> {
    s.map_values(|c: char| ascii_lower(c))
}

/// A text with its ASCII letters in lower case.
pub fn to_lower(s: &str) -> (r: String)
    ensures
        r@ == lower(s@),
{
    let x = chars_of(s);
    let n: usize = x.len();
    let mut out = "".to_owned();
    let mut i: usize = 0;
    proof {
        reveal_strlit("");
        assert(out@ =~= lower(x@.take(0)));
    }
    while i < n
        invariant
            n == x@.len(),
            i <= n,
            out@ == lower(x@.take(i as int)),
        decreases n - i,
    {
        out.push(lower_char(x[i]));
        assert(out@ =~= lower(x@.take(i as int + 1)));
        i = i + 1;
    }
    assert(x@.take(n as int) =~= x@);
    out
}

/// The first position from `from` on at which `needle` occurs.
pub fn find(x: &Vec<char>, needle: &Vec<char>, from: usize) -> (r: Option<usize>)
    requires
        from <= x@.len(),
    ensures
        match r {
            Some(i) => from <= i && occurs_at(x@, needle@, i as int) && forall|k: int|
                from <= k < i ==> !occurs_at(x@, needle@, k),
            None => forall|k: int| from <= k ==> !occurs_at(x@, needle@, k),
        },
{
    let n: usize = x.len();
    let m: usize = needle.len();
    let mut i: usize = from;
    while i <= n && m <= n - i
        invariant
            n == x@.len(),
            m == needle@.len(),
            from <= i,
            forall|k: int| from <= k < i ==> !occurs_at(x@, needle@, k),
        ensures
            from <= i,
            i <= n ==> m > n - i,
            forall|k: int| from <= k < i ==> !occurs_at(x@, needle@, k),
        decreases n + 1 - i,
    {
        if occurs_here(x, needle, i) {
            return Some(i);
        }
        if i == n {
            assert forall|k: int| from <= k implies !occurs_at(x@, needle@, k) by {}
            return None;
        }
        i = i + 1;
    }
    None
}

} // verus!
