//! Pure path-string utilities: sanitization of relative paths, joining with a
//! single separator, trailing-slash normalization and parent-directory
//! computation. Every function is specified over the character sequence view
//! of its arguments.

use vstd::prelude::*;

verus! {

/// A path is in sanitized form when it neither starts with `/` nor with `./`.
pub open spec fn is_sanitized(s: Seq<char>) -> bool {
    &&& !(s.len() >= 1 && s[0] == '/')
    &&& !(s.len() >= 2 && s[0] == '.' && s[1] == '/')
}

/// Drop one leading `/`, or else one leading `./`, from a relative path.
pub open spec fn spec_sanitize(s: Seq<char>) -> Seq<char> {
    if s.len() >= 1 && s[0] == '/' {
        s.subrange(1, s.len() as int)
    } else if s.len() >= 2 && s[0] == '.' && s[1] == '/' {
        s.subrange(2, s.len() as int)
    } else {
        s
    }
}

/// Join two paths with exactly one separator between them; the second path is
/// sanitized first, and whether it ends in a separator is preserved.
pub open spec fn spec_join(a: Seq<char>, b: Seq<char>) -> Seq<char> {
    if a.len() == 0 {
        spec_sanitize(b)
    } else if a[a.len() - 1] == '/' {
        a + spec_sanitize(b)
    } else {
        a + seq!['/'] + spec_sanitize(b)
    }
}

/// Append a trailing separator iff one is not already present.
pub open spec fn spec_with_trailing_slash(s: Seq<char>) -> Seq<char> {
    if s.len() >= 1 && s[s.len() - 1] == '/' {
        s
    } else {
        s.push('/')
    }
}

/// Everything before the final separator; the empty string when the path has
/// no separator at all.
pub open spec fn spec_parent(s: Seq<char>) -> Seq<char> {
    if exists|i: int| 0 <= i < s.len() && s[i] == '/' {
        s.subrange(0, last_slash_index(s))
    } else {
        Seq::empty()
    }
}

/// Index of the last separator of a path that contains one.
pub open spec fn last_slash_index(s: Seq<char>) -> int
    recommends
        exists|i: int| 0 <= i < s.len() && s[i] == '/',
{
    choose|i: int|
        0 <= i < s.len() && s[i] == '/' && (forall|j: int| i < j < s.len() ==> s[j] != '/')
}

/// Relative paths read from configuration may carry a leading `/` or `./`,
/// which breaks joining; drop that one marker and return the rest unchanged.
pub fn sanitize_relative_path(rel_path: &str) -> (r: String)
    ensures
        r@ == spec_sanitize(rel_path@),
{
    let n: usize = rel_path.unicode_len();
    if n >= 1 && rel_path.get_char(0) == '/' {
        let sub = rel_path.substring_char(1, n);
        return sub.to_owned();
    }
    if n >= 2 && rel_path.get_char(0) == '.' && rel_path.get_char(1) == '/' {
        let sub = rel_path.substring_char(2, n);
        return sub.to_owned();
    }
    rel_path.to_owned()
}

/// Join two paths given as strings, placing exactly one separator between the
/// first path and the sanitized second path.
pub fn join_two_paths(first: &str, second: &str) -> (r: String)
    ensures
        r@ == spec_join(first@, second@),
{
    let second_sanitized = sanitize_relative_path(second);
    let n: usize = first.unicode_len();
    if n == 0 {
        return second_sanitized;
    }
    let mut joined = first.to_owned();
    if first.get_char(n - 1) != '/' {
        joined.append("/");
        proof {
            reveal_strlit("/");
            assert(joined@ =~= first@ + seq!['/']);
        }
    }
    joined.append(second_sanitized.as_str());
    proof {
        if first@[first@.len() - 1] != '/' {
            assert(joined@ =~= first@ + seq!['/'] + spec_sanitize(second@));
        }
    }
    joined
}

/// Append a final separator iff the path does not already end in one; the
/// external mirroring tool distinguishes `a/b` from `a/b/`.
pub fn add_last_slash_to_path(path: &str) -> (r: String)
    ensures
        r@ == spec_with_trailing_slash(path@),
{
    let n: usize = path.unicode_len();
    if n >= 1 && path.get_char(n - 1) == '/' {
        return path.to_owned();
    }
    let mut transformed = path.to_owned();
    transformed.append("/");
    proof {
        reveal_strlit("/");
        assert(transformed@ =~= path@.push('/'));
    }
    transformed
}

/// The parent directory of a file path: everything before the last separator,
/// or the empty string for a bare file name.
pub fn parent_dir(to: &str) -> (r: &str)
    ensures
        r@ == spec_parent(to@),
{
    let n: usize = to.unicode_len();
    let mut i: usize = n;
    while i > 0
        invariant
            i <= n,
            n == to@.len(),
            forall|j: int| i <= j < to@.len() ==> to@[j] != '/',
        decreases i,
    {
        i = i - 1;
        if to.get_char(i) == '/' {
            let r = to.substring_char(0, i);
            proof {
                assert(to@[i as int] == '/');
                assert(last_slash_index(to@) == i) by {
                    let k: int = last_slash_index(to@);
                    assert(0 <= k < to@.len() && to@[k] == '/' && (forall|j: int|
                        k < j < to@.len() ==> to@[j] != '/'));
                }
            }
            return r;
        }
    }
    let r = to.substring_char(0, 0);
    proof {
        assert(r@ =~= Seq::<char>::empty());
    }
    r
}

/// Sanitizing is idempotent, except on paths that stack two of the markers it
/// strips (a second leading `/` or `./` behind the first); those are excluded
/// here.
pub proof fn lemma_sanitize_idempotent(s: Seq<char>)
    requires
        !(s.len() >= 2 && s[0] == '/' && s[1] == '/'),
        !(s.len() >= 3 && s[0] == '/' && s[1] == '.' && s[2] == '/'),
        !(s.len() >= 3 && s[0] == '.' && s[1] == '/' && s[2] == '/'),
        !(s.len() >= 4 && s[0] == '.' && s[1] == '/' && s[2] == '.' && s[3] == '/'),
    ensures
        spec_sanitize(spec_sanitize(s)) == spec_sanitize(s),
{
}

/// A path already in sanitized form is left unchanged by sanitizing.
pub proof fn lemma_sanitized_is_fixed(s: Seq<char>)
    requires
        is_sanitized(s),
    ensures
        spec_sanitize(s) == s,
{
}

} // verus!
