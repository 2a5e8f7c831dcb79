//! Laws of path composition: what keeps distinct roots and distinct
//! fragments from aliasing one another.

use vstd::prelude::*;

use crate::paths::{compose_spec, is_absolute, join_spec};

verus! {

/// The owned join and the scoped composition agree on every non-empty
/// fragment; they differ only on the empty one, where the join appends a
/// trailing separator to a non-empty base and the composition leaves the
/// base alone.
pub proof fn lemma_join_compose_agree(base: Seq<char>, rel: Seq<char>)
    requires
        rel.len() > 0,
    ensures
        join_spec(base, rel) == compose_spec(base, rel),
{
}

/// Containment: a relative fragment always resolves to a path that extends
/// the base — the base is a prefix of every composed path. Together with
/// root isolation below, this is what scopes an operation under its root.
pub proof fn lemma_compose_extends_base(base: Seq<char>, rel: Seq<char>)
    requires
        !is_absolute(rel),
    ensures
        compose_spec(base, rel).subrange(0, base.len() as int) == base,
{
    assert(compose_spec(base, rel).subrange(0, base.len() as int) =~= base);
}

/// A trailing separator on the base changes no resolved path: the base with
/// one appended composes every non-empty relative fragment to the very same
/// path. This is why the aliasing laws ask for bases in the separator-free
/// form: the two spellings name the same root.
pub proof fn lemma_trailing_separator_irrelevant(base: Seq<char>, rel: Seq<char>)
    requires
        base.len() > 0,
        base.last() != '/',
        rel.len() > 0,
        !is_absolute(rel),
    ensures
        compose_spec(base.push('/'), rel) == compose_spec(base, rel),
{
    assert(compose_spec(base.push('/'), rel) =~= compose_spec(base, rel));
}

/// Root isolation: a relative fragment resolved under a non-empty base is
/// never the bare fragment itself. An entry created under a root therefore
/// never appears at the fragment's own path — in particular not under the
/// process's current directory — unless the base is empty, that is, the root
/// is the current directory.
pub proof fn lemma_compose_root_isolation(base: Seq<char>, rel: Seq<char>)
    requires
        base.len() > 0,
        !is_absolute(rel),
    ensures
        compose_spec(base, rel) != rel,
{
    assert(compose_spec(base, rel).len() != rel.len());
}

/// Distinct roots do not alias: for a relative fragment, composition under
/// two bases yields the same path exactly when the bases are the same. The
/// bases must carry no trailing separator, since a base differs from the
/// same base with one appended while the two resolve alike.
pub proof fn lemma_compose_distinct_roots(b1: Seq<char>, b2: Seq<char>, rel: Seq<char>)
    requires
        !is_absolute(rel),
        b1.len() > 0 ==> b1.last() != '/',
        b2.len() > 0 ==> b2.last() != '/',
    ensures
        (compose_spec(b1, rel) == compose_spec(b2, rel)) <==> (b1 == b2),
{
    let c1 = compose_spec(b1, rel);
    let c2 = compose_spec(b2, rel);
    if c1 == c2 {
        if rel.len() == 0 {
            assert(b1 == b2);
        } else if b1.len() == 0 || b2.len() == 0 {
            assert(c1.len() == b1.len() + rel.len() + if b1.len() == 0 { 0int } else { 1int });
            assert(c2.len() == b2.len() + rel.len() + if b2.len() == 0 { 0int } else { 1int });
            assert(b1.len() == 0 && b2.len() == 0);
            assert(b1 =~= b2);
        } else {
            assert(b1.len() == b2.len());
            assert(b1 =~= c1.subrange(0, b1.len() as int));
            assert(b2 =~= c2.subrange(0, b2.len() as int));
        }
    }
}

/// Distinct fragments do not alias: under one base, two relative fragments
/// compose to the same path exactly when they are the same fragment. With
/// the previous law, the source and destination of a two-endpoint operation
/// stay independent however the two roots and fragments are chosen.
pub proof fn lemma_compose_distinct_fragments(base: Seq<char>, r1: Seq<char>, r2: Seq<char>)
    requires
        !is_absolute(r1),
        !is_absolute(r2),
    ensures
        (compose_spec(base, r1) == compose_spec(base, r2)) <==> (r1 == r2),
{
    let c1 = compose_spec(base, r1);
    let c2 = compose_spec(base, r2);
    if c1 == c2 && r1 != r2 {
        if base.len() == 0 {
            assert(c1 == r1 && c2 == r2);
        } else if r1.len() == 0 || r2.len() == 0 {
            if r1.len() == 0 && r2.len() == 0 {
                assert(r1 =~= r2);
            }
            if base.last() == '/' {
                assert(c1.len() == base.len() + r1.len());
                assert(c2.len() == base.len() + r2.len());
            } else {
                assert(c1.len() == base.len() + r1.len() + if r1.len() == 0 {
                    0int
                } else {
                    1int
                });
                assert(c2.len() == base.len() + r2.len() + if r2.len() == 0 {
                    0int
                } else {
                    1int
                });
            }
            assert(c1.len() != c2.len());
        } else {
            assert(c1.len() == c2.len());
            assert(r1.len() == r2.len());
            assert(r1 =~= c1.subrange(c1.len() - r1.len(), c1.len() as int));
            assert(r2 =~= c2.subrange(c2.len() - r2.len(), c2.len() as int));
            assert(r1 == r2);
        }
    }
}

} // verus!
