use vstd::prelude::*;

use crate::error::{TessError, TessResult};

verus! {

/// The platform tag that selects the executable's file name and the
/// platform-specific auxiliary search directory.
#[derive(Debug, Clone, Copy, PartialEq, Eq, Structural)]
pub enum Platform {
    Linux,
    MacOs,
    Windows,
    Other,
}

/// The file name the executable carries on the given platform.
pub open spec fn spec_executable_name(p: Platform) -> Seq<char> {
    if p is Windows {
        "tesseract.exe"@
    } else {
        "tesseract"@
    }
}

/// Returns the platform-appropriate executable file name.
pub fn executable_name(platform: &Platform) -> (r: &'static str)
    ensures
        r@ == spec_executable_name(*platform),
{
    match platform {
        Platform::Windows => "tesseract.exe",
        _ => "tesseract",
    }
}

/// `dir` and `name` joined with a single separator.
pub open spec fn spec_join(dir: Seq<char>, name: Seq<char>) -> Seq<char> {
    dir + "/"@ + name
}

/// Joins a directory and a file name with a separator.
pub fn join_path(dir: &str, name: &str) -> (r: String)
    ensures
        r@ == spec_join(dir@, name@),
{
    let mut s = dir.to_owned();
    s.append("/");
    s.append(name);
    s
}

/// The view of an optional string.
pub open spec fn option_str_view(o: Option<String>) -> Option<Seq<char>> {
    match o {
        Some(s) => Some(s@),
        None => None,
    }
}

/// The ordered filesystem candidates that follow the PATH lookup: the working
/// directory, the directory holding the running program, that directory's
/// platform-specific auxiliary directory (`../Resources` beside an
/// application bundle's binaries, `lib` beside plain POSIX binaries), and the
/// user's `.local/bin`. A location whose base directory is unknown
/// contributes no candidate.
pub open spec fn spec_candidates(
    platform: Platform,
    cwd: Option<Seq<char>>,
    exe_dir: Option<Seq<char>>,
    home: Option<Seq<char>>,
) -> Seq<Seq<char>> {
    let name = spec_executable_name(platform);
    (match cwd {
        Some(d) => seq![spec_join(d, name)],
        None => seq![],
    }) + (match exe_dir {
        Some(d) => seq![spec_join(d, name)] + (match platform {
            Platform::MacOs => seq![spec_join(spec_join(d, "../Resources"@), name)],
            Platform::Linux => seq![spec_join(spec_join(d, "lib"@), name)],
            _ => seq![],
        }),
        None => seq![],
    }) + (match home {
        Some(h) => seq![spec_join(spec_join(h, ".local/bin"@), name)],
        None => seq![],
    })
}

/// Builds the candidate paths of `spec_candidates`, in order.
pub fn candidate_paths(
    platform: &Platform,
    cwd: &Option<String>,
    exe_dir: &Option<String>,
    home: &Option<String>,
) -> (r: Vec<String>)
    ensures
        r@.map_values(|p: String| p@) == spec_candidates(
            *platform,
            option_str_view(*cwd),
            option_str_view(*exe_dir),
            option_str_view(*home),
        ),
{
    let name = executable_name(platform);
    let mut r: Vec<String> = Vec::new();
    match cwd {
        Some(d) => {
            r.push(join_path(d.as_str(), name));
        },
        None => {},
    }
    match exe_dir {
        Some(d) => {
            r.push(join_path(d.as_str(), name));
            match platform {
                Platform::MacOs => {
                    let aux = join_path(d.as_str(), "../Resources");
                    r.push(join_path(aux.as_str(), name));
                },
                Platform::Linux => {
                    let aux = join_path(d.as_str(), "lib");
                    r.push(join_path(aux.as_str(), name));
                },
                _ => {},
            }
        },
        None => {},
    }
    match home {
        Some(h) => {
            let bin = join_path(h.as_str(), ".local/bin");
            r.push(join_path(bin.as_str(), name));
        },
        None => {},
    }
    proof {
        assert(r@.map_values(|p: String| p@) =~= spec_candidates(
            *platform,
            option_str_view(*cwd),
            option_str_view(*exe_dir),
            option_str_view(*home),
        ));
    }
    r
}

/// One probed search location: the path that was checked and whether a
/// regular file was found there.
#[derive(Debug, Clone)]
pub struct Candidate {
    pub path: String,
    pub is_file: bool,
}

/// The path of the first candidate that holds a regular file, if any.
pub open spec fn spec_first_file(cands: Seq<Candidate>) -> Option<Seq<char>>
    decreases cands.len(),
{
    if cands.len() == 0 {
        None
    } else if cands[0].is_file {
        Some(cands[0].path@)
    } else {
        spec_first_file(cands.skip(1))
    }
}

/// The discovery outcome: a PATH lookup hit wins outright; otherwise the
/// first probed location that holds a regular file; otherwise nothing.
pub open spec fn spec_locate(path_hit: Option<Seq<char>>, cands: Seq<Candidate>) -> Option<
    Seq<char>,
> {
    match path_hit {
        Some(p) => Some(p),
        None => spec_first_file(cands),
    }
}

/// Resolves the discovery outcome from a PATH lookup result and the probed
/// candidates, exactly as `spec_locate` describes.
pub fn select_candidate(path_hit: Option<String>, candidates: &Vec<Candidate>) -> (r: Option<
    String,
>)
    ensures
        option_str_view(r) == spec_locate(option_str_view(path_hit), candidates@),
{
    match path_hit {
        Some(p) => Some(p),
        None => {
            proof {
                assert(candidates@.skip(0) =~= candidates@);
            }
            let mut i: usize = 0;
            while i < candidates.len()
                invariant
                    path_hit is None,
                    i <= candidates.len(),
                    spec_first_file(candidates@) == spec_first_file(
                        candidates@.skip(i as int),
                    ),
                decreases candidates.len() - i,
            {
                if candidates[i].is_file {
                    proof {
                        assert(candidates@.skip(i as int)[0] == candidates@[i as int]);
                    }
                    return Some(candidates[i].path.clone());
                }
                proof {
                    assert(candidates@.skip(i as int).skip(1) =~= candidates@.skip(
                        i as int + 1,
                    ));
                }
                i += 1;
            }
            None
        },
    }
}

/// A PATH lookup hit takes priority over every probed location: discovery
/// returns it unconditionally.
pub proof fn lemma_locate_path_hit(p: Seq<char>, cands: Seq<Candidate>)
    ensures
        spec_locate(Some(p), cands) == Some(p),
{
}

/// Monotonic priority of the probed locations: when the PATH lookup found
/// nothing, the executable is present at location `k`, and at no earlier
/// location, discovery returns exactly location `k`'s path.
pub proof fn lemma_locate_priority(cands: Seq<Candidate>, k: int)
    requires
        0 <= k < cands.len(),
        cands[k].is_file,
        forall|i: int| 0 <= i < k ==> !cands[i].is_file,
    ensures
        spec_locate(None, cands) == Some(cands[k].path@),
    decreases k,
{
    if k > 0 {
        lemma_locate_priority(cands.skip(1), k - 1);
    }
}

/// When the PATH lookup found nothing and no probed location holds the
/// executable, discovery reports "not found" rather than failing.
pub proof fn lemma_locate_not_found(cands: Seq<Candidate>)
    requires
        forall|i: int| 0 <= i < cands.len() ==> !cands[i].is_file,
    ensures
        spec_locate(None, cands) is None,
    decreases cands.len(),
{
    if cands.len() > 0 {
        lemma_locate_not_found(cands.skip(1));
    }
}

/// Relies on which::which: searches the PATH-like environment variable for
/// an executable of the given name. The result depends on the process
/// environment and the filesystem, so nothing is promised of it.
#[verifier::external_body]
fn which_lookup(name: &str) -> Option<String> {
    which::which(name).ok().and_then(|p| p.to_str().map(|s| s.to_string()))
}

/// Relies on dirs::home_dir: yields the user's home directory, if the
/// environment names one. The result depends on the process environment, so
/// nothing is promised of it.
#[verifier::external_body]
fn home_directory() -> Option<String> {
    dirs::home_dir().and_then(|p| p.to_str().map(|s| s.to_string()))
}

/// Relies on std::path::Path::is_file: queries the filesystem for a regular
/// file at the given path. The result depends on the filesystem, so nothing
/// is promised of it.
#[verifier::external_body]
fn is_regular_file(path: &str) -> bool {
    std::path::Path::new(path).is_file()
}

/// Probes every candidate path in order, recording for each whether a
/// regular file is present. The paths are kept exactly and in order; the
/// flags are whatever the filesystem answered.
pub fn probe_candidates(paths: &Vec<String>) -> (r: Vec<Candidate>)
    ensures
        r@.len() == paths@.len(),
        forall|i: int| 0 <= i < r@.len() ==> r@[i].path@ == paths@[i]@,
{
    let mut r: Vec<Candidate> = Vec::new();
    let mut i: usize = 0;
    while i < paths.len()
        invariant
            i <= paths.len(),
            r@.len() == i,
            forall|k: int| 0 <= k < i ==> r@[k].path@ == paths@[k]@,
        decreases paths.len() - i,
    {
        let path = paths[i].clone();
        let found = is_regular_file(path.as_str());
        r.push(Candidate { path, is_file: found });
        i += 1;
    }
    r
}

/// Runs the whole discovery: the PATH lookup first, then the probed
/// locations of `spec_candidates` in their fixed order, the user's home
/// directory queried from the environment. Every checked location is
/// existence-checked as a regular file; a missing executable yields `None`,
/// never a panic. The outcome depends on the environment and the filesystem;
/// `select_candidate` carries the exact selection contract.
pub fn locate_executable(
    platform: &Platform,
    cwd: &Option<String>,
    exe_dir: &Option<String>,
) -> (r: Option<String>)
{
    let name = executable_name(platform);
    let hit = which_lookup(name);
    match hit {
        Some(p) => Some(p),
        None => {
            let home = home_directory();
            let paths = candidate_paths(platform, cwd, exe_dir, &home);
            let probed = probe_candidates(&paths);
            select_candidate(None, &probed)
        },
    }
}

/// Turns a discovery outcome into the explicit failure the command paths
/// propagate: a resolved path passes through, a missing executable becomes
/// `TesseractNotFoundError`.
pub fn require_executable(located: Option<String>) -> (r: TessResult<String>)
    ensures
        (match r {
            Ok(p) => located matches Some(q) && p@ == q@,
            Err(e) => located is None && e == TessError::TesseractNotFoundError,
        }),
{
    match located {
        Some(p) => Ok(p),
        None => Err(TessError::TesseractNotFoundError),
    }
}

} // verus!
