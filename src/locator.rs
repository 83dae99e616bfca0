use vstd::prelude::*;

verus! {

/// Name of the directory, under a base directory, that holds the bundled
/// executables.
pub const BINARIES_DIR: &'static str = "binaries";

/// Name of the project subdirectory that holds the host's sources in a
/// development checkout; its `binaries` directory is the last place looked at.
pub const PROJECT_SUBDIR: &'static str = "src-tauri";

/// A filesystem path written as a base directory followed by the components
/// joined onto it, in order.
pub struct SidecarPath {
    pub base: String,
    pub parts: Vec<String>,
}

/// The mathematical value of a [`SidecarPath`]: the base directory and the
/// components that follow it.
pub struct PathModel {
    pub base: Seq<char>,
    pub parts: Seq<Seq<char>>,
}

impl View for SidecarPath {
    type V = PathModel;

    open spec fn view(&self) -> PathModel {
        PathModel { base: self.base@, parts: self.parts@.map_values(|s: String| s@) }
    }
}

/// What can go wrong with the sidecar. None of these is fatal to the host.
#[derive(Debug)]
pub enum SidecarError {
    /// No candidate location holds the executable; carries its file name.
    NotFound(String),
    /// The operating system refused to create the process; carries its reason.
    SpawnFailed(String),
}

/// The view of an optional directory.
pub open spec fn opt_dir(d: Option<String>) -> Option<Seq<char>> {
    match d {
        Some(s) => Some(s@),
        None => None,
    }
}

/// `base/binaries/<name>`.
pub open spec fn spec_binaries_path(base: Seq<char>, name: Seq<char>) -> PathModel {
    PathModel { base, parts: seq![BINARIES_DIR@, name] }
}

/// `base/src-tauri/binaries/<name>`.
pub open spec fn spec_subdir_binaries_path(base: Seq<char>, name: Seq<char>) -> PathModel {
    PathModel { base, parts: seq![PROJECT_SUBDIR@, BINARIES_DIR@, name] }
}

/// The places where the executable `name` is looked for, in the order in
/// which they are tried: the resource directory of an installed host, then the
/// working directory, then the project subdirectory of the working directory.
/// A base directory that could not be determined contributes no candidate.
pub open spec fn spec_candidates(
    name: Seq<char>,
    resource_dir: Option<Seq<char>>,
    current_dir: Option<Seq<char>>,
) -> Seq<PathModel> {
    let from_resources = match resource_dir {
        Some(r) => seq![spec_binaries_path(r, name)],
        None => Seq::empty(),
    };
    let from_working_dir = match current_dir {
        Some(c) => seq![spec_binaries_path(c, name), spec_subdir_binaries_path(c, name)],
        None => Seq::empty(),
    };
    from_resources + from_working_dir
}

/// Index of the first `true` in `present`, or its length if there is none.
pub open spec fn first_present(present: Seq<bool>) -> nat
    decreases present.len(),
{
    if present.len() == 0 {
        0
    } else if present[0] {
        0
    } else {
        1 + first_present(present.drop_first())
    }
}

/// `first_present` is the one index before which nothing is present and at
/// which something is, or the length when nothing is.
pub proof fn lemma_first_present_characterized(present: Seq<bool>, i: int)
    requires
        0 <= i <= present.len(),
        forall|j: int| 0 <= j < i ==> !present[j],
        i == present.len() || present[i],
    ensures
        first_present(present) == i,
    decreases present.len(),
{
    if present.len() > 0 && i > 0 {
        let rest = present.drop_first();
        assert forall|j: int| 0 <= j < i - 1 implies !rest[j] by {
            assert(rest[j] == present[j + 1]);
        }
        if i < present.len() {
            assert(rest[i - 1] == present[i]);
        }
        lemma_first_present_characterized(rest, i - 1);
    }
}

/// The located candidate always exists, every candidate tried before it is
/// missing, and when no candidate exists nothing is located.
pub proof fn lemma_locate_never_picks_missing(present: Seq<bool>)
    ensures
        first_present(present) <= present.len(),
        first_present(present) < present.len() ==> present[first_present(present) as int],
        forall|j: int| 0 <= j < first_present(present) ==> !present[j],
        (forall|j: int| 0 <= j < present.len() ==> !present[j]) ==> first_present(present)
            == present.len(),
    decreases present.len(),
{
    if present.len() > 0 && !present[0] {
        let rest = present.drop_first();
        lemma_locate_never_picks_missing(rest);
        assert forall|j: int| 0 <= j < first_present(present) implies !present[j] by {
            if j > 0 {
                assert(present[j] == rest[j - 1]);
            }
        }
    }
}

/// When exactly one candidate exists, it is the one located, whatever its
/// position among the candidates.
pub proof fn lemma_single_existing_candidate_is_located(present: Seq<bool>, k: int)
    requires
        0 <= k < present.len(),
        present[k],
        forall|j: int| 0 <= j < present.len() && j != k ==> !present[j],
    ensures
        first_present(present) == k,
{
    lemma_first_present_characterized(present, k);
}

fn binaries_path(base: String, name: &String) -> (r: SidecarPath)
    ensures
        r@ == spec_binaries_path(base@, name@),
{
    let parts = vec![BINARIES_DIR.to_owned(), name.clone()];
    let r = SidecarPath { base, parts };
    assert(r@.parts =~= seq![BINARIES_DIR@, name@]);
    r
}

fn subdir_binaries_path(base: String, name: &String) -> (r: SidecarPath)
    ensures
        r@ == spec_subdir_binaries_path(base@, name@),
{
    let parts = vec![PROJECT_SUBDIR.to_owned(), BINARIES_DIR.to_owned(), name.clone()];
    let r = SidecarPath { base, parts };
    assert(r@.parts =~= seq![PROJECT_SUBDIR@, BINARIES_DIR@, name@]);
    r
}

/// The candidate locations of the executable `name`, in the order in which
/// they are tried.
pub fn candidate_paths(
    name: &String,
    resource_dir: Option<String>,
    current_dir: Option<String>,
) -> (r: Vec<SidecarPath>)
    ensures
        r@.map_values(|p: SidecarPath| p@) == spec_candidates(
            name@,
            opt_dir(resource_dir),
            opt_dir(current_dir),
        ),
{
    let mut r: Vec<SidecarPath> = Vec::new();
    match resource_dir {
        Some(dir) => {
            r.push(binaries_path(dir, name));
        },
        None => {},
    }
    let ghost n = r@.len();
    match current_dir {
        Some(dir) => {
            r.push(binaries_path(dir.clone(), name));
            r.push(subdir_binaries_path(dir, name));
        },
        None => {},
    }
    assert(r@.map_values(|p: SidecarPath| p@) =~= spec_candidates(
        name@,
        opt_dir(resource_dir),
        opt_dir(current_dir),
    ));
    r
}

/// Picks the first candidate that exists. `present[i]` tells whether
/// `candidates[i]` was found on the filesystem. Fails with `NotFound(name)`
/// exactly when no candidate exists.
pub fn locate(name: String, candidates: Vec<SidecarPath>, present: &Vec<bool>) -> (r: Result<
    SidecarPath,
    SidecarError,
>)
    requires
        candidates.len() == present.len(),
    ensures
        first_present(present@) < present.len() ==> match r {
            Ok(p) => p@ == candidates@[first_present(present@) as int]@,
            Err(_) => false,
        },
        first_present(present@) >= present.len() ==> r == Err::<SidecarPath, SidecarError>(SidecarError::NotFound(name)),
{
    let ghost original = candidates@;
    let mut pool = candidates;
    let mut i: usize = 0;
    while i < present.len()
        invariant
            0 <= i <= present.len(),
            pool@ == original,
            original == candidates@,
            original.len() == present.len(),
            forall|j: int| 0 <= j < i ==> !present@[j],
        decreases present.len() - i,
    {
        if present[i] {
            proof {
                lemma_first_present_characterized(present@, i as int);
            }
            return Ok(pool.remove(i));
        }
        i = i + 1;
    }
    proof {
        lemma_first_present_characterized(present@, i as int);
    }
    Err(SidecarError::NotFound(name))
}

} // verus!
