//! Classifying a command name: built-in, executable on the search path, or
//! not found.
//!
//! Membership in the fixed built-in set always wins over a like-named file
//! on the search path. Otherwise the search-path directories are scanned in
//! listed order; the first candidate that names an existing, executable
//! filesystem entry wins and no later directory is examined. The embedding
//! program probes the filesystem and hands the scan one [`PathCandidate`]
//! per search-path directory, in that order.

use vstd::prelude::*;
use crate::text::str_eq;

verus! {

/// One probed location for a command name: the joined `directory/name`
/// path, whether a filesystem entry exists there, and whether that entry
/// carries at least one execute permission bit.
pub struct PathCandidate {
    pub path: String,
    pub exists: bool,
    pub executable: bool,
}

/// Where a command name was found.
pub enum CommandLocation {
    Builtin,
    Executable(String),
    NotFound,
}

/// The fixed set of built-in command names.
pub open spec fn is_builtin_name(s: Seq<char>) -> bool {
    ||| s == "echo"@
    ||| s == "exit"@
    ||| s == "type"@
    ||| s == "pwd"@
    ||| s == "cd"@
}

/// Tests membership in the built-in name set.
pub fn is_builtin(name: &str) -> (r: bool)
    ensures
        r == is_builtin_name(name@),
{
    str_eq(name, "echo") || str_eq(name, "exit") || str_eq(name, "type") || str_eq(name, "pwd")
        || str_eq(name, "cd")
}

/// A candidate is usable when an entry exists there and is executable.
pub open spec fn candidate_usable(c: PathCandidate) -> bool {
    c.exists && c.executable
}

/// The first usable candidate of the list, if any: the one resolution picks.
pub open spec fn first_usable(cs: Seq<PathCandidate>) -> Option<PathCandidate>
    decreases cs.len(),
{
    if cs.len() == 0 {
        None
    } else if candidate_usable(cs[0]) {
        Some(cs[0])
    } else {
        first_usable(cs.drop_first())
    }
}

/// Law: the scan over search-path candidates is first-match-wins. When the
/// candidate at position `i` is usable and none before it is, resolution
/// picks exactly that candidate — whatever usable candidates follow, so a
/// name present in two listed directories is taken from the earlier one.
pub proof fn lemma_first_match_wins(cs: Seq<PathCandidate>, i: int)
    requires
        0 <= i < cs.len(),
        candidate_usable(cs[i]),
        forall|k: int| 0 <= k < i ==> !candidate_usable(cs[k]),
    ensures
        first_usable(cs) == Some(cs[i]),
    decreases i,
{
    if i > 0 {
        lemma_first_match_wins(cs.drop_first(), i - 1);
    }
}

impl CommandLocation {
    /// Classifies `command_name`. Built-in names resolve to `Builtin`
    /// whatever the candidates hold; otherwise the first usable candidate,
    /// in the given order, yields `Executable` with its path, and a list
    /// with no usable candidate yields `NotFound`.
    pub fn resolve(command_name: &str, candidates: &Vec<PathCandidate>) -> (loc: Self)
        ensures
            (loc is Builtin) <==> is_builtin_name(command_name@),
            !is_builtin_name(command_name@) ==> match first_usable(candidates@) {
                Some(c) => loc matches CommandLocation::Executable(p) && p@ == c.path@,
                None => loc is NotFound,
            },
    {
        if is_builtin(command_name) {
            return CommandLocation::Builtin;
        }
        let mut i: usize = 0;
        proof {
            assert(candidates@.skip(0) =~= candidates@);
        }
        while i < candidates.len()
            invariant
                i <= candidates@.len(),
                !is_builtin_name(command_name@),
                first_usable(candidates@) == first_usable(candidates@.skip(i as int)),
            decreases candidates@.len() - i,
        {
            let c = &candidates[i];
            if c.exists && c.executable {
                assert(candidates@.skip(i as int)[0] == candidates@[i as int]);
                return CommandLocation::Executable(c.path.clone());
            }
            proof {
                assert(candidates@.skip(i as int).drop_first() =~= candidates@.skip(
                    i as int + 1,
                ));
            }
            i = i + 1;
        }
        proof {
            assert(candidates@.skip(candidates@.len() as int) =~= Seq::<PathCandidate>::empty());
        }
        CommandLocation::NotFound
    }

    /// Renders the location as the one-line description the `type` built-in
    /// prints for `name`.
    pub fn describe(&self, name: &str) -> (r: String)
        ensures
            (self is Builtin) ==> r@ == name@ + " is a shell builtin"@,
            self matches CommandLocation::Executable(p) ==> r@ == name@ + " is "@ + p@,
            (self is NotFound) ==> r@ == name@ + ": not found"@,
    {
        match self {
            CommandLocation::Builtin => String::from_str(name).concat(" is a shell builtin"),
            CommandLocation::Executable(path) => String::from_str(name).concat(" is ").concat(
                path.as_str(),
            ),
            CommandLocation::NotFound => String::from_str(name).concat(": not found"),
        }
    }
}

} // verus!
