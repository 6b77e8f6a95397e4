//! Where the backend lives: the first directory named `backend` found beside
//! the program's own directory or one of its nearest ancestors, else one under
//! the current working directory.

use vstd::prelude::*;

verus! {

/// How many directories are searched: the program's own and its ancestors
/// up to this count.
pub const MAX_LEVELS: usize = 5;

/// Name of the backend's directory.
pub open spec fn backend_dir_name() -> Seq<char> {
    "backend"@
}

/// Where the backend directory was taken from.
#[derive(Clone, Copy, Debug, PartialEq, Eq, Structural)]
pub enum BackendChoice {
    /// `<dir>/backend`, where `dir` is this many levels above the program's
    /// own directory (`0` is that directory itself).
    Ancestor(usize),
    /// `<current working directory>/backend`, whether it exists or not.
    WorkingDirectory,
}

/// How many levels of `found` are looked at.
pub open spec fn searched(found: Seq<bool>) -> int {
    if found.len() < MAX_LEVELS {
        found.len() as int
    } else {
        MAX_LEVELS as int
    }
}

/// Level `k` is the nearest searched level that holds a backend directory.
pub open spec fn is_first_match(found: Seq<bool>, k: int) -> bool {
    &&& 0 <= k < searched(found)
    &&& found[k]
    &&& forall|j: int| 0 <= j < k ==> !found[j]
}

/// The choice the search makes, given for each level from the program's own
/// directory upward whether it holds a backend directory.
pub open spec fn chosen(found: Seq<bool>, c: BackendChoice) -> bool {
    match c {
        BackendChoice::Ancestor(k) => is_first_match(found, k as int),
        BackendChoice::WorkingDirectory => forall|j: int| 0 <= j < searched(found) ==> !found[j],
    }
}

/// Name of the backend's directory.
pub fn backend_dir() -> (r: &'static str)
    ensures
        r@ == backend_dir_name(),
{
    "backend"
}

/// Picks the backend directory. `found[k]` tells whether the directory `k`
/// levels above the program's own holds a `backend` subdirectory; levels past
/// the search bound are not looked at, and a shorter `found` means the
/// filesystem root came first.
pub fn choose_backend(found: &Vec<bool>) -> (c: BackendChoice)
    ensures
        chosen(found@, c),
{
    let mut k: usize = 0;
    while k < found.len() && k < MAX_LEVELS
        invariant
            k <= searched(found@),
            forall|j: int| 0 <= j < k ==> !found@[j],
        decreases MAX_LEVELS - k,
    {
        if found[k] {
            return BackendChoice::Ancestor(k);
        }
        k = k + 1;
    }
    BackendChoice::WorkingDirectory
}

/// With a backend directory within the search bound, the choice is the
/// nearest such level; with none, it is the working directory's.
pub proof fn lemma_search_outcome(found: Seq<bool>, c: BackendChoice)
    requires
        chosen(found, c),
    ensures
        forall|k: int| #[trigger]
            is_first_match(found, k) ==> c == BackendChoice::Ancestor(k as usize),
        (forall|j: int| 0 <= j < searched(found) ==> !found[j]) ==> c
            == BackendChoice::WorkingDirectory,
{
    assert forall|k: int| #[trigger] is_first_match(found, k) implies c == BackendChoice::Ancestor(
        k as usize,
    ) by {
        match c {
            BackendChoice::Ancestor(a) => {
                if (a as int) < k {
                    assert(!found[a as int]);
                } else if k < a as int {
                    assert(!found[k]);
                }
            },
            BackendChoice::WorkingDirectory => {
                assert(!found[k]);
            },
        }
    }
    if forall|j: int| 0 <= j < searched(found) ==> !found[j] {
        if let BackendChoice::Ancestor(a) = c {
            assert(!found[a as int]);
        }
    }
}

} // verus!
