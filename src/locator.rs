//! Executable Locator: the ordered launch strategies for the companion binary.
use vstd::prelude::*;

verus! {

/// Operating system of the target platform.
#[derive(Clone, Copy, Debug, PartialEq, Eq, Structural)]
pub enum TargetOs {
    Windows,
    MacOs,
    Linux,
    Other,
}

/// CPU architecture of the target platform.
#[derive(Clone, Copy, Debug, PartialEq, Eq, Structural)]
pub enum TargetArch {
    X86,
    X86_64,
    Arm,
    Aarch64,
    Other,
}

/// How a candidate is started.
#[derive(Clone, Copy, Debug, PartialEq, Eq, Structural)]
pub enum StrategyKind {
    /// The runtime's bundled auxiliary executable, resolved by logical name.
    Sidecar,
    /// The binary inside the application-resource directory.
    ResourceDir,
    /// The binary beside the running application's own executable.
    ExecutableDir,
}

/// Logical name of the companion binary.
pub open spec fn companion_name() -> Seq<char> {
    "wallet-backend"@
}

/// File name of the companion binary on a platform: `.exe` on Windows, the bare
/// name elsewhere. The architecture does not change the name.
pub open spec fn binary_name(os: TargetOs, arch: TargetArch) -> Seq<char> {
    if os == TargetOs::Windows {
        "wallet-backend.exe"@
    } else {
        "wallet-backend"@
    }
}

/// Logical name under which the hosting runtime resolves the sidecar.
pub fn sidecar_name() -> (r: String)
    ensures
        r@ == companion_name(),
{
    String::from_str("wallet-backend")
}

/// File name of the companion binary for a target platform.
pub fn platform_binary_name(os: TargetOs, arch: TargetArch) -> (r: String)
    ensures
        r@ == binary_name(os, arch),
{
    match os {
        TargetOs::Windows => String::from_str("wallet-backend.exe"),
        _ => String::from_str("wallet-backend"),
    }
}

/// A binary location found on disk: the full path, the directory it lies in,
/// and whether a regular file stood at the path when it was checked.
pub struct FileCheck {
    pub path: String,
    pub dir: String,
    pub is_file: bool,
}

/// One way to start the companion process: the program (a path, or the
/// sidecar's logical name) and the working directory, if any.
pub struct LaunchStrategy {
    pub kind: StrategyKind,
    pub program: String,
    pub working_dir: Option<String>,
}

pub open spec fn option_view(o: Option<String>) -> Option<Seq<char>> {
    match o {
        Some(s) => Some(s@),
        None => None,
    }
}

impl View for LaunchStrategy {
    type V = (StrategyKind, Seq<char>, Option<Seq<char>>);

    open spec fn view(&self) -> (StrategyKind, Seq<char>, Option<Seq<char>>) {
        (self.kind, self.program@, option_view(self.working_dir))
    }
}

pub open spec fn strategy_views(s: Seq<LaunchStrategy>) -> Seq<(StrategyKind, Seq<char>, Option<Seq<char>>)> {
    s.map_values(|x: LaunchStrategy| x@)
}

/// The strategy that a located file offers: one when a regular file stood
/// there, none otherwise.
pub open spec fn offered(kind: StrategyKind, f: Option<FileCheck>) -> Seq<(StrategyKind, Seq<char>, Option<Seq<char>>)> {
    match f {
        Some(c) => if c.is_file {
            seq![(kind, c.path@, Some(c.dir@))]
        } else {
            Seq::empty()
        },
        None => Seq::empty(),
    }
}

/// The candidates in priority order: the sidecar when the runtime offers one,
/// then the resource directory's binary, then the one beside the executable.
pub open spec fn planned(
    sidecar_available: bool,
    resource: Option<FileCheck>,
    exe_dir: Option<FileCheck>,
) -> Seq<(StrategyKind, Seq<char>, Option<Seq<char>>)> {
    let head = if sidecar_available {
        seq![(StrategyKind::Sidecar, companion_name(), None::<Seq<char>>)]
    } else {
        Seq::empty()
    };
    head + offered(StrategyKind::ResourceDir, resource) + offered(StrategyKind::ExecutableDir, exe_dir)
}

fn push_offered(out: &mut Vec<LaunchStrategy>, kind: StrategyKind, f: Option<FileCheck>)
    ensures
        strategy_views(final(out)@) == strategy_views(old(out)@) + offered(kind, f),
{
    let ghost before = strategy_views(out@);
    match f {
        Some(c) => {
            if c.is_file {
                let ghost v = (kind, c.path@, Some(c.dir@));
                out.push(LaunchStrategy { kind, program: c.path, working_dir: Some(c.dir) });
                assert(strategy_views(out@) =~= before + seq![v]);
            } else {
                assert(strategy_views(out@) =~= before + Seq::empty());
            }
        },
        None => {
            assert(strategy_views(out@) =~= before + Seq::empty());
        },
    }
}

/// The launch strategies in priority order. A located file whose check found
/// no regular file is left out.
pub fn candidates(
    sidecar_available: bool,
    resource: Option<FileCheck>,
    exe_dir: Option<FileCheck>,
) -> (r: Vec<LaunchStrategy>)
    ensures
        strategy_views(r@) == planned(sidecar_available, resource, exe_dir),
{
    let mut out: Vec<LaunchStrategy> = Vec::new();
    if sidecar_available {
        out.push(LaunchStrategy { kind: StrategyKind::Sidecar, program: sidecar_name(), working_dir: None });
    }
    let ghost head = strategy_views(out@);
    assert(head =~= if sidecar_available {
        seq![(StrategyKind::Sidecar, companion_name(), None::<Seq<char>>)]
    } else {
        Seq::empty()
    });
    push_offered(&mut out, StrategyKind::ResourceDir, resource);
    push_offered(&mut out, StrategyKind::ExecutableDir, exe_dir);
    out
}

/// Every candidate other than the sidecar is the path of a located file whose
/// check found a regular file: a path that does not exist is never offered.
pub proof fn lemma_candidates_exist(
    sidecar_available: bool,
    resource: Option<FileCheck>,
    exe_dir: Option<FileCheck>,
)
    ensures
        forall|i: int|
            0 <= i < planned(sidecar_available, resource, exe_dir).len()
                && #[trigger] planned(sidecar_available, resource, exe_dir)[i].0 != StrategyKind::Sidecar
                ==> {
                    let p = planned(sidecar_available, resource, exe_dir)[i].1;
                    ||| (resource is Some && resource->0.is_file && resource->0.path@ == p)
                    ||| (exe_dir is Some && exe_dir->0.is_file && exe_dir->0.path@ == p)
                },
{
    let s = planned(sidecar_available, resource, exe_dir);
    let head = if sidecar_available {
        seq![(StrategyKind::Sidecar, companion_name(), None::<Seq<char>>)]
    } else {
        Seq::empty()
    };
    let a = offered(StrategyKind::ResourceDir, resource);
    let b = offered(StrategyKind::ExecutableDir, exe_dir);
    assert forall|i: int| 0 <= i < s.len() && #[trigger] s[i].0 != StrategyKind::Sidecar implies {
        ||| (resource is Some && resource->0.is_file && resource->0.path@ == s[i].1)
        ||| (exe_dir is Some && exe_dir->0.is_file && exe_dir->0.path@ == s[i].1)
    } by {
        if i < head.len() {
            assert(s[i] == head[i]);
        } else if i < head.len() + a.len() {
            assert(s[i] == a[i - head.len()]);
        } else {
            assert(s[i] == b[i - head.len() - a.len()]);
        }
    }
}

} // verus!
