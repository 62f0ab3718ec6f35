use vstd::prelude::*;
use vstd::string::{StrSliceExecFns, StringExecFns};

use crate::utils::{uuid_text, uuid_v4};

verus! {

/// What `str::to_lowercase` makes of a text.
pub uninterp spec fn lower_of(s: Seq<char>) -> Seq<char>;

/// What `char::is_alphanumeric` says of a character.
pub uninterp spec fn alphanumeric(c: char) -> bool;

/// Relies on `str::to_lowercase`: the lowercase mapping of each character,
/// which depends on the characters alone.
#[verifier::external_body]
fn lowercase(s: &str) -> (r: String)
    ensures
        r@ == lower_of(s@),
{
    s.to_lowercase()
}

/// Relies on `char::is_alphanumeric`: whether the character is Unicode
/// `Alphabetic` or `Numeric`.
#[verifier::external_body]
fn is_alphanumeric(c: char) -> (r: bool)
    ensures
        r == alphanumeric(c),
{
    c.is_alphanumeric()
}

/// Relies on `String::push`: appends one character.
#[verifier::external_body]
fn push_char(s: &mut String, c: char)
    ensures
        final(s)@ == old(s)@.push(c),
{
    s.push(c)
}

/// Alphanumeric characters are kept, and each run of other characters
/// becomes one dash. The flag tells whether the last thing written was a
/// dash for such a run.
pub open spec fn dashed(s: Seq<char>) -> (Seq<char>, bool)
    decreases s.len(),
{
    if s.len() == 0 {
        (Seq::empty(), false)
    } else {
        let (p, last_was_dash) = dashed(s.drop_last());
        let c = s.last();
        if alphanumeric(c) {
            (p.push(c), false)
        } else if !last_was_dash {
            (p.push('-'), true)
        } else {
            (p, true)
        }
    }
}

pub open spec fn trim_start_dashes(t: Seq<char>) -> Seq<char>
    decreases t.len(),
{
    if t.len() > 0 && t[0] == '-' {
        trim_start_dashes(t.drop_first())
    } else {
        t
    }
}

pub open spec fn trim_end_dashes(t: Seq<char>) -> Seq<char>
    decreases t.len(),
{
    if t.len() > 0 && t.last() == '-' {
        trim_end_dashes(t.drop_last())
    } else {
        t
    }
}

/// The slug of an already lowercased text: runs of characters that are not
/// alphanumeric become single dashes, and dashes at either end are dropped.
pub open spec fn slug_of(s: Seq<char>) -> Seq<char> {
    trim_end_dashes(trim_start_dashes(dashed(s).0))
}

/// The slug of an already lowercased text (see `slug_of`).
pub fn slug_from_lowercase(s: &str) -> (r: String)
    ensures
        r@ == slug_of(s@),
{
    let mut out: Vec<char> = Vec::new();
    let mut last_was_dash: bool = false;
    for c in it: s.chars()
        invariant
            it.seq() == s@,
            (out@, last_was_dash) == dashed(s@.subrange(0, it.index() as int)),
    {
        let ghost k = it.index();
        assert(s@.subrange(0, k + 1).drop_last() =~= s@.subrange(0, k as int));
        assert(s@.subrange(0, k + 1).last() == c);
        if is_alphanumeric(c) {
            out.push(c);
            last_was_dash = false;
        } else if !last_was_dash {
            out.push('-');
            last_was_dash = true;
        }
    }
    assert(s@.subrange(0, s@.len() as int) =~= s@);
    let ghost t = out@;
    let n = out.len();
    let mut start: usize = 0;
    assert(t.subrange(0, n as int) =~= t);
    while start < n && out[start] == '-'
        invariant
            start <= n,
            n == t.len(),
            out@ == t,
            trim_start_dashes(t) == trim_start_dashes(t.subrange(start as int, n as int)),
        decreases n - start,
    {
        assert(t.subrange(start as int, n as int).drop_first() =~= t.subrange(start + 1, n as int));
        start = start + 1;
    }
    let ghost u = t.subrange(start as int, n as int);
    assert(trim_start_dashes(t) == u) by {
        if u.len() > 0 {
            assert(u[0] == t[start as int]);
        }
    }
    let mut end: usize = n;
    while end > start && out[end - 1] == '-'
        invariant
            start <= end <= n,
            n == t.len(),
            out@ == t,
            u == t.subrange(start as int, n as int),
            trim_end_dashes(u) == trim_end_dashes(t.subrange(start as int, end as int)),
        decreases end - start,
    {
        assert(t.subrange(start as int, end as int).drop_last() =~= t.subrange(
            start as int,
            end - 1,
        ));
        end = end - 1;
    }
    let ghost w = t.subrange(start as int, end as int);
    assert(trim_end_dashes(u) == w) by {
        if w.len() > 0 {
            assert(w.last() == t[end - 1]);
        }
    }
    let mut r = String::new();
    let mut k: usize = start;
    while k < end
        invariant
            start <= k <= end <= n,
            n == t.len(),
            out@ == t,
            r@ == t.subrange(start as int, k as int),
        decreases end - k,
    {
        push_char(&mut r, out[k]);
        assert(t.subrange(start as int, k + 1) =~= t.subrange(start as int, k as int).push(t[k as int]));
        k = k + 1;
    }
    r
}

/// The slug of a display name: lowercased, then as `slug_from_lowercase`.
pub fn slugify(name: &str) -> (r: String)
    ensures
        r@ == slug_of(lower_of(name@)),
{
    let lowered = lowercase(name);
    slug_from_lowercase(lowered.as_str())
}

/// A slug followed by a dash and the first eight characters of an
/// identifier.
pub fn suffixed_slug(slug: &str, id: &str) -> (r: String)
    requires
        id@.len() >= 8,
    ensures
        r@ == slug@ + "-"@ + id@.subrange(0, 8),
{
    String::from_str(slug).concat("-").concat(id.substring_char(0, 8))
}

/// The slug of `name` made unique by the first eight characters of a fresh
/// random uuid.
pub fn unique_slug(name: &str) -> (r: String)
    ensures
        exists|u: Seq<char>|
            uuid_text(u) && r@ == slug_of(lower_of(name@)) + "-"@ + u.subrange(0, 8),
{
    let base = slugify(name);
    let id = uuid_v4();
    suffixed_slug(base.as_str(), id.as_str())
}

} // verus!
