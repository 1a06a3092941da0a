//! The update strategy for one sub-repository: the repository library's
//! own recursive update, or a depth-limited update through the external
//! version-control tool, which the library cannot do.
use vstd::prelude::*;

verus! {

/// The character sequences of a list of strings.
pub open spec fn views(v: Seq<String>) -> Seq<Seq<char>> {
    v.map_values(|s: String| s@)
}

/// The arguments of the version-control tool for a shallow update of the
/// entry `submodule` of the repository at `repo_path`.
pub open spec fn shallow_update_args(
    repo_path: Seq<char>,
    submodule: Seq<char>,
    depth: Seq<char>,
    progress: bool,
) -> Seq<Seq<char>> {
    seq!["-C"@, repo_path, "submodule"@, "update"@, "--depth"@, depth] + (if progress {
        seq!["--progress"@]
    } else {
        Seq::empty()
    }) + seq!["--recommend-shallow"@, "--recursive"@, submodule]
}

/// What the caller asks of each update.
#[derive(Clone, Debug, PartialEq, Eq)]
pub struct UpdateOptions {
    /// Number of most recent history entries to fetch; all of them where absent.
    pub depth: Option<String>,
    pub show_progress: bool,
}

/// How one entry is brought up to date.
#[derive(Clone, Debug, PartialEq, Eq)]
pub enum UpdateStrategy {
    /// The repository library's recursive update of the named entry.
    Native { name: String },
    /// The external version-control tool, run with these arguments.
    External { args: Vec<String> },
}

/// `s` is the strategy for the entry `name` of the repository at
/// `repo_path` under `options`.
pub open spec fn is_strategy(
    s: UpdateStrategy,
    repo_path: Seq<char>,
    name: Seq<char>,
    options: UpdateOptions,
) -> bool {
    match s {
        UpdateStrategy::Native { name: n } => options.depth is None && n@ == name,
        UpdateStrategy::External { args } => match options.depth {
            Some(d) => views(args@) == shallow_update_args(
                repo_path,
                name,
                d@,
                options.show_progress,
            ),
            None => false,
        },
    }
}

/// Where a depth is given, the strategy runs the external tool and hands it
/// that depth as it is.
pub open spec fn forwards_depth(s: UpdateStrategy, depth: Option<String>) -> bool {
    match depth {
        Some(d) => match s {
            UpdateStrategy::External { args } => args@.len() > 5 && args@[5]@ == d@,
            UpdateStrategy::Native { .. } => false,
        },
        None => true,
    }
}

/// The arguments of the version-control tool that update the entry
/// `submodule` of the repository at `idf_path` to the given depth.
pub fn update_submodule(idf_path: String, submodule: String, depth: String, progress: bool) -> (r:
    Vec<String>)
    ensures
        views(r@) == shallow_update_args(idf_path@, submodule@, depth@, progress),
{
    let ghost (p, s, d) = (idf_path@, submodule@, depth@);
    let mut r: Vec<String> = Vec::new();
    r.push(String::from_str("-C"));
    r.push(idf_path);
    r.push(String::from_str("submodule"));
    r.push(String::from_str("update"));
    r.push(String::from_str("--depth"));
    r.push(depth);
    if progress {
        r.push(String::from_str("--progress"));
    }
    r.push(String::from_str("--recommend-shallow"));
    r.push(String::from_str("--recursive"));
    r.push(submodule);
    assert(views(r@) =~= shallow_update_args(p, s, d, progress));
    r
}

/// The strategy for the entry `name` of the repository at `repo_path`:
/// without a depth the library's own update, with one the external tool,
/// handed that depth unchanged.
pub fn select_update(repo_path: &String, name: &String, options: &UpdateOptions) -> (r:
    UpdateStrategy)
    ensures
        is_strategy(r, repo_path@, name@, *options),
        options.depth is None <==> r is Native,
        forwards_depth(r, options.depth),
{
    match &options.depth {
        None => UpdateStrategy::Native { name: name.clone() },
        Some(d) => {
            let args = update_submodule(repo_path.clone(), name.clone(), d.clone(), options.show_progress);
            proof {
                let v = shallow_update_args(repo_path@, name@, d@, options.show_progress);
                assert(v[5] == d@);
                assert(views(args@).len() == args@.len());
                assert(views(args@)[5] == args@[5]@);
            }
            UpdateStrategy::External { args }
        },
    }
}

} // verus!
