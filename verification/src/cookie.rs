//! The session cookie: how it is written at login, cleared at logout and
//! read back from a `Cookie` request header.
//!
//! A `Cookie` header is a list of segments separated by `;`. Each segment is
//! trimmed of whitespace; the first one that then begins with `session_id=`
//! carries the session identifier, which is all that follows that prefix.

use crate::text::{chars_of, is_whitespace, range_starts_with, trim, trim_bounds, trim_end, trim_start};
use vstd::prelude::*;
use vstd::string::StringExecFns;

verus! {

/// The cookie's name followed by `=`.
pub open spec fn session_prefix() -> Seq<char> {
    "session_id="@
}

/// The attributes that follow the identifier in the cookie set at login.
/// The cookie lives for thirty days (2592000 seconds).
pub open spec fn cookie_attributes(production: bool) -> Seq<char> {
    if production {
        "; HttpOnly; Secure; Path=/; Domain=admin.seemsgood.org; SameSite=Lax; Max-Age=2592000"@
    } else {
        "; HttpOnly; Path=/; SameSite=Lax; Max-Age=2592000"@
    }
}

/// The value of the `Set-Cookie` header that hands `session_id` to the client.
pub open spec fn session_cookie(session_id: Seq<char>, production: bool) -> Seq<char> {
    session_prefix() + session_id + cookie_attributes(production)
}

/// The value of the `Set-Cookie` header that makes the client drop its cookie.
pub open spec fn cleared_cookie() -> Seq<char> {
    "session_id=; HttpOnly; Path=/; Max-Age=0"@
}

/// The number of characters of `s` before its first `;`, or its length if
/// it has none.
pub open spec fn segment_len(s: Seq<char>) -> int
    decreases s.len(),
{
    if s.len() == 0 || s[0] == ';' {
        0
    } else {
        1 + segment_len(s.drop_first())
    }
}

/// The session identifier that one segment of a `Cookie` header carries.
pub open spec fn session_in_segment(segment: Seq<char>) -> Option<Seq<char>> {
    let trimmed = trim(segment);
    if session_prefix().is_prefix_of(trimmed) {
        Some(trimmed.skip(session_prefix().len() as int))
    } else {
        None
    }
}

/// The session identifier that a `Cookie` header carries: that of its first
/// segment that has one.
pub open spec fn cookie_session_id(header: Seq<char>) -> Option<Seq<char>>
    decreases header.len(),
{
    let n = segment_len(header);
    match session_in_segment(header.take(n)) {
        Some(id) => Some(id),
        None => if 0 <= n < header.len() {
            cookie_session_id(header.skip(n + 1))
        } else {
            None
        },
    }
}

/// Text without a `;` is one segment.
pub proof fn lemma_segment_without_separator(s: Seq<char>)
    requires
        forall|k: int| 0 <= k < s.len() ==> s[k] != ';',
    ensures
        segment_len(s) == s.len(),
    decreases s.len(),
{
    if s.len() > 0 {
        let rest = s.drop_first();
        assert forall|k: int| 0 <= k < rest.len() implies rest[k] != ';' by {
            assert(rest[k] == s[k + 1]);
        }
        lemma_segment_without_separator(rest);
    }
}

/// In front of a `;`, text without a `;` is the first segment.
pub proof fn lemma_segment_before_separator(first: Seq<char>, rest: Seq<char>)
    requires
        forall|k: int| 0 <= k < first.len() ==> first[k] != ';',
    ensures
        segment_len(first + seq![';'] + rest) == first.len(),
    decreases first.len(),
{
    let whole = first + seq![';'] + rest;
    if first.len() == 0 {
        assert(whole[0] == ';');
    } else {
        let shorter = first.drop_first();
        assert(whole[0] == first[0]);
        assert(whole.drop_first() =~= shorter + seq![';'] + rest);
        assert forall|k: int| 0 <= k < shorter.len() implies shorter[k] != ';' by {
            assert(shorter[k] == first[k + 1]);
        }
        lemma_segment_before_separator(shorter, rest);
    }
}

/// How a header is read, segment by segment: the first segment counts
/// where it carries an identifier, and the rest of the header where it does
/// not.
pub proof fn lemma_first_segment_decides(first: Seq<char>, rest: Seq<char>)
    requires
        forall|k: int| 0 <= k < first.len() ==> first[k] != ';',
    ensures
        cookie_session_id(first) == session_in_segment(first),
        cookie_session_id(first + seq![';'] + rest) == match session_in_segment(first) {
            Some(id) => Some(id),
            None => cookie_session_id(rest),
        },
{
    lemma_segment_without_separator(first);
    assert(first.take(first.len() as int) =~= first);
    let whole = first + seq![';'] + rest;
    lemma_segment_before_separator(first, rest);
    assert(whole.take(first.len() as int) =~= first);
    assert(whole.skip(first.len() as int + 1) =~= rest);
}

/// An identifier that comes back unchanged when it is sent as the value of
/// the session cookie: it holds no `;` and does not end in whitespace.
pub open spec fn survives_cookie(id: Seq<char>) -> bool {
    &&& forall|k: int| 0 <= k < id.len() ==> id[k] != ';'
    &&& id.len() > 0 ==> !is_whitespace(id.last())
}

/// A segment made of the cookie's name, `=` and such an identifier carries
/// that identifier.
pub proof fn lemma_session_segment(id: Seq<char>)
    requires
        survives_cookie(id),
    ensures
        session_in_segment(session_prefix() + id) == Some(id),
        forall|k: int|
            0 <= k < (session_prefix() + id).len() ==> (session_prefix() + id)[k] != ';',
{
    reveal_strlit("session_id=");
    let segment = session_prefix() + id;
    assert(segment[0] == 's');
    assert(trim_start(segment) == segment);
    if id.len() > 0 {
        assert(segment.last() == id.last());
    } else {
        assert(segment.last() == '=');
    }
    assert(trim_end(segment) == segment);
    assert(segment.subrange(0, session_prefix().len() as int) =~= session_prefix());
    assert(segment.skip(session_prefix().len() as int) =~= id);
    assert forall|k: int| 0 <= k < segment.len() implies segment[k] != ';' by {
        if k >= 11 {
            assert(segment[k] == id[k - 11]);
        }
    }
}

/// What login writes, a client can send back: both the bare cookie and the
/// whole value of the `Set-Cookie` header, read as a `Cookie` header, carry
/// the identifier that was handed out.
pub proof fn lemma_session_cookie_reads_back(id: Seq<char>, production: bool)
    requires
        survives_cookie(id),
    ensures
        cookie_session_id(session_prefix() + id) == Some(id),
        cookie_session_id(session_cookie(id, production)) == Some(id),
{
    lemma_session_segment(id);
    let segment = session_prefix() + id;
    lemma_first_segment_decides(segment, Seq::empty());
    reveal_strlit(
        "; HttpOnly; Secure; Path=/; Domain=admin.seemsgood.org; SameSite=Lax; Max-Age=2592000",
    );
    reveal_strlit("; HttpOnly; Path=/; SameSite=Lax; Max-Age=2592000");
    let attributes = cookie_attributes(production);
    assert(attributes[0] == ';');
    let rest = attributes.skip(1);
    assert(session_cookie(id, production) =~= segment + seq![';'] + rest);
    lemma_first_segment_decides(segment, rest);
}

/// The cookie that logout writes carries an empty identifier, which no
/// session has.
pub proof fn lemma_cleared_cookie_is_empty()
    ensures
        cookie_session_id(cleared_cookie()) == Some(Seq::<char>::empty()),
{
    reveal_strlit("session_id=; HttpOnly; Path=/; Max-Age=0");
    reveal_strlit("session_id=");
    let id = Seq::<char>::empty();
    lemma_session_segment(id);
    let segment = session_prefix() + id;
    let rest = cleared_cookie().skip(12);
    assert(cleared_cookie() =~= segment + seq![';'] + rest);
    lemma_first_segment_decides(segment, rest);
}

/// Finds where the segment that starts at `from` ends.
fn segment_end(v: &Vec<char>, from: usize) -> (end: usize)
    requires
        from <= v.len(),
    ensures
        from <= end <= v.len(),
        end - from == segment_len(v@.skip(from as int)),
{
    let mut i: usize = from;
    while i < v.len() && v[i] != ';'
        invariant
            from <= i <= v.len(),
            segment_len(v@.skip(from as int)) == (i - from) + segment_len(v@.skip(i as int)),
        decreases v.len() - i,
    {
        assert(v@.skip(i as int).drop_first() =~= v@.skip(i + 1));
        i += 1;
    }
    i
}

/// Reads the session identifier out of the value of a `Cookie` header.
pub fn session_id_from_cookie<'a>(header: &'a str) -> (r: Option<&'a str>)
    ensures
        cookie_session_id(header@) == match r {
            Some(id) => Some(id@),
            None => None,
        },
{
    let chars = chars_of(header);
    let prefix = chars_of("session_id=");
    let n = chars.len();
    let mut from: usize = 0;
    assert(header@.skip(0) =~= header@);
    loop
        invariant
            from <= n,
            n == chars.len(),
            chars@ == header@,
            prefix@ == session_prefix(),
            cookie_session_id(header@) == cookie_session_id(header@.skip(from as int)),
        decreases n - from,
    {
        let ghost rest = header@.skip(from as int);
        let end = segment_end(&chars, from);
        let (a, b) = trim_bounds(&chars, from, end);
        assert(rest.take(end - from) =~= chars@.subrange(from as int, end as int));
        if range_starts_with(&chars, a, b, &prefix) {
            let id = header.substring_char(a + prefix.len(), b);
            assert(id@ =~= chars@.subrange(a as int, b as int).skip(prefix@.len() as int));
            return Some(id);
        }
        if end >= n {
            return None;
        }
        assert(rest.skip(end - from + 1) =~= header@.skip(end + 1));
        from = end + 1;
    }
}

/// Writes the value of the `Set-Cookie` header that hands `session_id` to
/// the client. In production the cookie is marked `Secure` and bound to the
/// service's domain.
pub fn session_cookie_value(session_id: &str, production: bool) -> (cookie: String)
    ensures
        cookie@ == session_cookie(session_id@, production),
{
    let mut cookie = String::from_str("session_id=");
    cookie.append(session_id);
    if production {
        cookie.append(
            "; HttpOnly; Secure; Path=/; Domain=admin.seemsgood.org; SameSite=Lax; Max-Age=2592000",
        );
    } else {
        cookie.append("; HttpOnly; Path=/; SameSite=Lax; Max-Age=2592000");
    }
    cookie
}

/// Writes the value of the `Set-Cookie` header that makes the client drop
/// its session cookie.
pub fn cleared_cookie_value() -> (cookie: String)
    ensures
        cookie@ == cleared_cookie(),
{
    String::from_str("session_id=; HttpOnly; Path=/; Max-Age=0")
}

} // verus!
