//! Textual model of Unix-style paths: composing a base directory with a
//! relative fragment, and taking the parent of a path.
//!
//! A path is modelled as its sequence of characters, with `/` as the
//! separator. Composition is a purely syntactic join: it never consults the
//! filesystem and cannot fail.

use vstd::prelude::*;

verus! {

/// A path is absolute when it starts with the separator.
pub open spec fn is_absolute(s: Seq<char>) -> bool {
    s.len() > 0 && s[0] == '/'
}

/// Composition of a base directory and a relative fragment as the scoped
/// composer performs it: an empty fragment leaves the base alone, an
/// absolute fragment overrides the base, an empty base yields the fragment,
/// and otherwise the two are joined with exactly one separator inserted
/// (none when the base already ends in one).
pub open spec fn compose_spec(base: Seq<char>, rel: Seq<char>) -> Seq<char> {
    if rel.len() == 0 {
        base
    } else if is_absolute(rel) {
        rel
    } else if base.len() == 0 {
        rel
    } else if base.last() == '/' {
        base + rel
    } else {
        base + seq!['/'] + rel
    }
}

/// The owned join of a base and a fragment, as `Dir::join` performs it.
/// It differs from `compose_spec` only on an empty fragment, where a
/// trailing separator is appended to a non-empty base.
pub open spec fn join_spec(base: Seq<char>, rel: Seq<char>) -> Seq<char> {
    if is_absolute(rel) {
        rel
    } else if base.len() == 0 {
        rel
    } else if base.last() == '/' {
        base + rel
    } else {
        base + seq!['/'] + rel
    }
}

/// The path with every trailing separator dropped.
pub open spec fn strip_trailing_slashes(s: Seq<char>) -> Seq<char>
    decreases s.len(),
{
    if s.len() > 0 && s.last() == '/' {
        strip_trailing_slashes(s.drop_last())
    } else {
        s
    }
}

/// The index of the last separator in the path, if it has one.
pub open spec fn last_slash(s: Seq<char>) -> Option<int>
    decreases s.len(),
{
    if s.len() == 0 {
        None
    } else if s.last() == '/' {
        Some(s.len() - 1)
    } else {
        last_slash(s.drop_last())
    }
}

/// The parent of a path: the path with its last component and any
/// separators around it removed. A path that is empty or consists only of
/// separators has no parent; a bare file name has the empty parent; a path
/// whose only component sits directly under the root has the root as its
/// parent. Separators are treated purely textually: repeated separators
/// collapse, and no component (such as a lone dot) is special.
pub open spec fn parent_spec(s: Seq<char>) -> Option<Seq<char>> {
    let t = strip_trailing_slashes(s);
    if t.len() == 0 {
        None
    } else {
        match last_slash(t) {
            None => Some(Seq::empty()),
            Some(k) => {
                let head = strip_trailing_slashes(t.subrange(0, k));
                if head.len() == 0 {
                    Some(seq!['/'])
                } else {
                    Some(head)
                }
            },
        }
    }
}

/// Whether a path has a parent component of its own: a parent that is
/// neither missing nor empty. A bare file name, the empty path and the root
/// all lack one.
pub open spec fn has_parent_component(s: Seq<char>) -> bool {
    match parent_spec(s) {
        Some(p) => p.len() > 0,
        None => false,
    }
}

proof fn lemma_strip_subrange(s: Seq<char>, e: int)
    requires
        0 <= e <= s.len(),
        forall|j: int| e <= j < s.len() ==> s[j] == '/',
        e > 0 ==> s[e - 1] != '/',
    ensures
        strip_trailing_slashes(s) == s.subrange(0, e),
    decreases s.len(),
{
    if e == s.len() {
        assert(s.subrange(0, e) =~= s);
    } else {
        assert(s.last() == '/');
        lemma_strip_subrange(s.drop_last(), e);
        assert(s.drop_last().subrange(0, e) =~= s.subrange(0, e));
    }
}

proof fn lemma_no_slash(s: Seq<char>)
    requires
        forall|j: int| 0 <= j < s.len() ==> s[j] != '/',
    ensures
        last_slash(s) is None,
    decreases s.len(),
{
    if s.len() > 0 {
        lemma_no_slash(s.drop_last());
    }
}

proof fn lemma_last_slash_at(s: Seq<char>, k: int)
    requires
        0 <= k < s.len(),
        s[k] == '/',
        forall|j: int| k < j < s.len() ==> s[j] != '/',
    ensures
        last_slash(s) == Some(k),
    decreases s.len(),
{
    if k < s.len() - 1 {
        lemma_last_slash_at(s.drop_last(), k);
    }
}

/// The parent of a path, as [`parent_spec`] defines it.
pub fn parent_of(path: &str) -> (r: Option<String>)
    ensures
        match r {
            Some(p) => parent_spec(path@) == Some(p@),
            None => parent_spec(path@) is None,
        },
{
    let ghost s = path@;
    let n = path.unicode_len();
    let mut e: usize = n;
    while e > 0 && path.get_char(e - 1) == '/'
        invariant
            e <= n,
            n == s.len(),
            s == path@,
            forall|j: int| e <= j < n ==> s[j] == '/',
        decreases e,
    {
        e = e - 1;
    }
    proof {
        lemma_strip_subrange(s, e as int);
    }
    let ghost t = s.subrange(0, e as int);
    if e == 0 {
        return None;
    }
    let mut i: usize = e;
    while i > 0 && path.get_char(i - 1) != '/'
        invariant
            i <= e <= n,
            n == s.len(),
            s == path@,
            forall|j: int| i <= j < e ==> s[j] != '/',
        decreases i,
    {
        i = i - 1;
    }
    if i == 0 {
        proof {
            assert(forall|j: int| 0 <= j < t.len() ==> t[j] != '/');
            lemma_no_slash(t);
        }
        let r = String::new();
        proof {
            assert(parent_spec(s) == Some(r@)) by {
                assert(parent_spec(s)->Some_0 =~= r@);
            }
        }
        return Some(r);
    }
    let ghost k = i - 1;
    proof {
        assert(t[k] == '/');
        assert(forall|j: int| k < j < t.len() ==> t[j] != '/');
        lemma_last_slash_at(t, k);
    }
    let ghost u = t.subrange(0, k);
    let mut m: usize = i - 1;
    while m > 0 && path.get_char(m - 1) == '/'
        invariant
            m <= k,
            k < e <= n,
            n == s.len(),
            s == path@,
            forall|j: int| m <= j < k ==> s[j] == '/',
        decreases m,
    {
        m = m - 1;
    }
    proof {
        assert(u =~= s.subrange(0, k));
        assert(forall|j: int| m <= j < u.len() ==> u[j] == '/');
        lemma_strip_subrange(u, m as int);
        assert(u.subrange(0, m as int) =~= s.subrange(0, m as int));
    }
    if m == 0 {
        let r = slash_string();
        proof {
            assert(parent_spec(s) == Some(r@)) by {
                assert(parent_spec(s)->Some_0 =~= r@);
            }
        }
        Some(r)
    } else {
        let r = path.substring_char(0, m).to_owned();
        proof {
            assert(parent_spec(s) == Some(r@)) by {
                assert(parent_spec(s)->Some_0 =~= r@);
            }
        }
        Some(r)
    }
}

/// A path made of the separator alone.
fn slash_string() -> (r: String)
    ensures
        r@ == seq!['/'],
{
    proof {
        reveal_strlit("/");
    }
    let r = "/".to_owned();
    proof {
        assert(r@ =~= seq!['/']);
    }
    r
}

/// Relies on `path_no_alloc::join_in_buff`, Unix build: handed no stack
/// buffer, it skips
/// empty fragments, keeps only the final absolute fragment onward, and pushes
/// the remaining fragments onto a fresh `PathBuf`, which inserts a separator
/// exactly when the path so far is non-empty and does not already end in one.
/// For a base and one fragment that is `compose_spec`.
#[verifier::external_body]
pub(crate) fn compose_pair(base: &str, rel: &str) -> (r: String)
    ensures
        r@ == compose_spec(base@, rel@),
{
    let mut spill: Option<std::path::PathBuf> = None;
    let composed = path_no_alloc::join_in_buff(&mut [], &mut spill, [base.as_ref(), rel.as_ref()]);
    composed.to_string_lossy().into_owned()
}

/// Joins a base path and a relative fragment into an owned path.
///
/// An absolute fragment overrides the base; otherwise the fragment is
/// appended to the base with a separator inserted when the base does not
/// already end in one.
pub fn join_paths(base: &str, rel: &str) -> (r: String)
    ensures
        r@ == join_spec(base@, rel@),
{
    proof {
        reveal_strlit("/");
    }
    let rel_len = rel.unicode_len();
    if rel_len > 0 && rel.get_char(0) == '/' {
        return rel.to_owned();
    }
    let base_len = base.unicode_len();
    if base_len == 0 {
        return rel.to_owned();
    }
    let mut r = base.to_owned();
    if base.get_char(base_len - 1) != '/' {
        r.append("/");
    }
    r.append(rel);
    proof {
        assert(r@ =~= join_spec(base@, rel@));
    }
    r
}

} // verus!
