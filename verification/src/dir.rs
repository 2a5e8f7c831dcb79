//! A working directory: a handle on a base path, with every operation
//! expressed relative to that base.

use vstd::prelude::*;

use crate::paths::{
    compose_pair, compose_spec, has_parent_component, join_paths, join_spec, parent_of,
    parent_spec,
};

verus! {

/// The fully resolved endpoints of a cross-root move: the source composed
/// under the original root, the destination composed under the new root, and
/// the destination's parent chain that must exist before the rename.
pub struct MovePlan {
    pub source: String,
    pub dest: String,
    pub dest_parent: Option<String>,
}

/// The display text of a working directory with the given base: the base
/// inside `Dir("...")`, with a separator appended when the base does not
/// already end in one.
pub open spec fn describe_spec(base: Seq<char>) -> Seq<char> {
    let slashed = if base.len() > 0 && base.last() == '/' {
        base
    } else {
        base + seq!['/']
    };
    "Dir(\""@ + slashed + "\")"@
}

/// A logical filesystem root. The base path is fixed at construction and
/// never mutated; relative paths handed to the methods are resolved under
/// it. The view of a `Dir` is the character sequence of its base path.
pub struct Dir {
    path: String,
}

impl View for Dir {
    type V = Seq<char>;

    closed spec fn view(&self) -> Seq<char> {
        self.path@
    }
}

impl Dir {
    /// Wraps a base path as a working directory.
    pub fn new(path: String) -> (d: Dir)
        ensures
            d@ == path@,
    {
        Dir { path }
    }

    /// The base path this working directory resolves under.
    pub fn base_str(&self) -> (r: &str)
        ensures
            r@ == self@,
    {
        self.path.as_str()
    }

    /// Joins this working directory's base with a relative path, yielding an
    /// owned path. An absolute argument overrides the base.
    pub fn join(&self, path: &str) -> (r: String)
        ensures
            r@ == join_spec(self@, path@),
    {
        join_paths(self.path.as_str(), path)
    }

    /// Composes this working directory's base with a relative path, yielding
    /// the effective path a filesystem call must be handed. Unlike [`join`],
    /// an empty argument resolves to the base itself.
    ///
    /// [`join`]: Dir::join
    pub fn resolve(&self, path: &str) -> (r: String)
        ensures
            r@ == compose_spec(self@, path@),
    {
        compose_pair(self.path.as_str(), path)
    }

    /// Composes two relative paths under this working directory in one scope,
    /// as the two-endpoint operations (copy, hard link, rename) need. The two
    /// compositions are independent: each endpoint is exactly the composition
    /// of the base with its own fragment.
    pub fn resolve_pair(&self, from: &str, to: &str) -> (r: (String, String))
        ensures
            r.0@ == compose_spec(self@, from@),
            r.1@ == compose_spec(self@, to@),
    {
        let from_full = compose_pair(self.path.as_str(), from);
        let to_full = compose_pair(self.path.as_str(), to);
        (from_full, to_full)
    }

    /// The directory chain that must exist before an entry can be created at
    /// a relative path under this root: the path's own parent chain, composed
    /// under the base. `None` exactly when the given path has no parent
    /// component — a bare name, the empty path, or the root — and creating
    /// parents is then a no-op that cannot fail and creates nothing; in
    /// particular, a bare name never has the base itself created on its
    /// account.
    pub fn create_parents_plan(&self, path: &str) -> (r: Option<String>)
        ensures
            r is Some <==> has_parent_component(path@),
            r matches Some(p) ==> p@ == compose_spec(self@, parent_spec(path@)->Some_0),
    {
        match parent_of(path) {
            None => None,
            Some(parent) => if parent.as_str().is_empty() {
                None
            } else {
                Some(compose_pair(self.path.as_str(), parent.as_str()))
            },
        }
    }

    /// Plans moving an entry at a relative path out of this working directory
    /// into `new_root`: both endpoints are composed under their own base, and
    /// the destination's parent chain is singled out so the caller can create
    /// it before the rename. The two compositions are independent; the source
    /// endpoint never depends on the new root, nor the destination on this
    /// one.
    pub fn move_to_plan(&self, new_root: &Dir, path: &str) -> (plan: MovePlan)
        ensures
            plan.source@ == compose_spec(self@, path@),
            plan.dest@ == compose_spec(new_root@, path@),
            match plan.dest_parent {
                Some(p) => parent_spec(compose_spec(new_root@, path@)) == Some(p@),
                None => parent_spec(compose_spec(new_root@, path@)) is None,
            },
    {
        let source = compose_pair(self.path.as_str(), path);
        let dest = compose_pair(new_root.path.as_str(), path);
        let dest_parent = parent_of(dest.as_str());
        MovePlan { source, dest, dest_parent }
    }

    /// The display text of this working directory: the base path inside
    /// `Dir("...")`, always shown with a trailing separator.
    pub fn describe(&self) -> (r: String)
        ensures
            r@ == describe_spec(self@),
    {
        proof {
            reveal_strlit("/");
        }
        let mut r = "Dir(\"".to_owned();
        r.append(self.path.as_str());
        let n = self.path.as_str().unicode_len();
        if n == 0 || self.path.as_str().get_char(n - 1) != '/' {
            r.append("/");
        }
        r.append("\")");
        proof {
            assert(r@ =~= describe_spec(self@));
        }
        r
    }
}

impl From<String> for Dir {
    /// Wraps a base path as a working directory, as [`Dir::new`] does.
    fn from(value: String) -> (d: Dir) {
        Dir { path: value }
    }
}

impl vstd::std_specs::convert::FromSpecImpl<String> for Dir {
    open spec fn obeys_from_spec() -> bool {
        true
    }

    closed spec fn from_spec(value: String) -> Dir {
        Dir { path: value }
    }
}

/// What conversion from a base path yields: the working directory rooted
/// there, exactly as [`Dir::new`] builds it.
pub proof fn lemma_from_view(value: String)
    ensures
        (<Dir as vstd::std_specs::convert::FromSpec<String>>::from_spec(value))@ == value@,
{
}

} // verus!
