//! The basename rules of the router: how the configured path prefix is added
//! to a route before it is handed to the history layer, and how it is removed
//! from a location path before the route is dispatched.

use vstd::prelude::*;
use vstd::string::*;

verus! {

/// A basename is kept in normal form: either empty, or not ending in `/`.
pub open spec fn basename_normal(base: Seq<char>) -> bool {
    base.len() == 0 || base[base.len() - 1] != '/'
}

/// `s` begins with `prefix`.
pub open spec fn starts_with(s: Seq<char>, prefix: Seq<char>) -> bool {
    s.len() >= prefix.len() && s.subrange(0, prefix.len() as int) == prefix
}

/// What prefixing a route with the basename yields: with an empty basename the
/// route itself; otherwise the concatenation, except that an empty route
/// yields `/` alone.
pub open spec fn spec_prefix_basename(base: Seq<char>, route: Seq<char>) -> Seq<char> {
    if base.len() == 0 {
        route
    } else if route.len() == 0 {
        seq!['/']
    } else {
        base + route
    }
}

/// What stripping the basename from a path yields: with an empty basename the
/// path itself; otherwise the path with a leading basename match removed, and
/// where the remainder does not begin with `/`, the basename reinstated as a
/// leading segment (`/` followed by the basename) instead.
pub open spec fn spec_strip_basename(base: Seq<char>, path: Seq<char>) -> Seq<char> {
    if base.len() == 0 {
        path
    } else {
        let rest = if starts_with(path, base) {
            path.skip(base.len() as int)
        } else {
            path
        };
        if rest.len() > 0 && rest[0] == '/' {
            rest
        } else {
            seq!['/'] + base
        }
    }
}

/// Whether `s` begins with `prefix`, decided character by character.
pub fn str_starts_with(s: &str, prefix: &str) -> (r: bool)
    ensures
        r == starts_with(s@, prefix@),
{
    let n = prefix.unicode_len();
    let m = s.unicode_len();
    if m < n {
        return false;
    }
    let mut i: usize = 0;
    while i < n
        invariant
            0 <= i <= n,
            n == prefix@.len(),
            n <= s@.len(),
            forall|j: int| 0 <= j < i ==> s@[j] == prefix@[j],
        decreases n - i,
    {
        if s.get_char(i) != prefix.get_char(i) {
            assert(!starts_with(s@, prefix@)) by {
                if starts_with(s@, prefix@) {
                    assert(s@.subrange(0, n as int)[i as int] == prefix@[i as int]);
                }
            }
            return false;
        }
        i += 1;
    }
    assert(s@.subrange(0, n as int) =~= prefix@);
    true
}

/// Whether two path strings hold the same characters.
pub fn str_eq(a: &str, b: &str) -> (r: bool)
    ensures
        r == (a@ == b@),
{
    let n = a.unicode_len();
    if b.unicode_len() != n {
        assert(a@ != b@);
        return false;
    }
    let mut i: usize = 0;
    while i < n
        invariant
            0 <= i <= n,
            n == a@.len(),
            n == b@.len(),
            forall|j: int| 0 <= j < i ==> a@[j] == b@[j],
        decreases n - i,
    {
        if a.get_char(i) != b.get_char(i) {
            return false;
        }
        i += 1;
    }
    assert(a@ =~= b@);
    true
}

/// Prefixing after stripping is idempotent on any path that already starts
/// with the basename: applying the strip-then-prefix pass a second time
/// returns what the first pass returned.
pub proof fn lemma_prefix_strip_idempotent(base: Seq<char>, p: Seq<char>)
    requires
        starts_with(p, base),
    ensures
        ({
            let once = spec_prefix_basename(base, spec_strip_basename(base, p));
            spec_prefix_basename(base, spec_strip_basename(base, once)) == once
        }),
{
    if base.len() == 0 {
        // Stripping and prefixing are both the identity.
    } else {
        let rest = p.skip(base.len() as int);
        if rest.len() > 0 && rest[0] == '/' {
            // The first pass returns the path itself.
            assert(base + rest =~= p);
        } else {
            // The first pass returns the basename reinstated under `/`.
            let fallback = seq!['/'] + base;
            let once = base + fallback;
            assert(once.subrange(0, base.len() as int) =~= base);
            assert(once.skip(base.len() as int) =~= fallback);
            assert(spec_strip_basename(base, once) == fallback);
        }
    }
}

} // verus!
