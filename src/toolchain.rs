use vstd::prelude::*;
use crate::library::LibraryArtefact;
use crate::platform::LibraryTarget;
use crate::text::{join, join_spec};

verus! {

/// A part of a toolchain that could not be found.
#[derive(Clone, Copy, Debug, PartialEq, Eq, Structural)]
pub enum ToolchainComponent {
    /// The Android NDK installation.
    Ndk,
    /// Neither `ANDROID_NDK` nor `NDK_HOME` is set.
    NdkRoot,
    /// `PATH` is not set, so it cannot be extended.
    PathVariable,
    /// No MSVC toolchain for the target and host.
    Msvc,
    /// No `nmake.exe` beside the MSVC compiler.
    Nmake,
}

/// Why a build stopped.
#[derive(Clone, Debug)]
pub enum BuildError {
    /// A required tool is not on `PATH`.
    MissingRequirement(&'static str),
    /// `Configure` exited with a failure.
    ConfigurationFailed(LibraryArtefact),
    /// `make` or `nmake` exited with a failure.
    CompilationFailed(LibraryArtefact),
    /// A toolchain could not be located.
    ToolchainNotFound(ToolchainComponent),
    /// The directory could not be created.
    DirectoryNotCreated(String),
}

/// One environment variable given to a child process.
#[derive(Clone, Debug)]
pub struct EnvVar {
    pub key: String,
    pub value: String,
}

/// A process to spawn: program, arguments, working directory and environment.
/// With `inherit_env` the child sees this process's environment with `env`
/// laid over it; without, it sees `env` alone.
#[derive(Clone, Debug)]
pub struct ProcessCommand {
    pub program: String,
    pub args: Vec<String>,
    pub current_dir: String,
    pub env: Vec<EnvVar>,
    pub inherit_env: bool,
}

pub struct CommandView {
    pub program: Seq<char>,
    pub args: Seq<Seq<char>>,
    pub current_dir: Seq<char>,
    pub env: Seq<(Seq<char>, Seq<char>)>,
    pub inherit_env: bool,
}

pub open spec fn strings_view(v: Seq<String>) -> Seq<Seq<char>> {
    Seq::new(v.len(), |i: int| v[i]@)
}

pub open spec fn env_view(v: Seq<EnvVar>) -> Seq<(Seq<char>, Seq<char>)> {
    Seq::new(v.len(), |i: int| (v[i].key@, v[i].value@))
}

impl View for ProcessCommand {
    type V = CommandView;

    open spec fn view(&self) -> CommandView {
        CommandView {
            program: self.program@,
            args: strings_view(self.args@),
            current_dir: self.current_dir@,
            env: env_view(self.env@),
            inherit_env: self.inherit_env,
        }
    }
}

/// The environment a build's child processes get besides their own.
#[derive(Clone, Debug)]
pub enum ToolchainEnvironment {
    /// Nothing is added.
    Native,
    /// `PATH` and `ANDROID_NDK_ROOT` for the Android NDK.
    Android(Vec<EnvVar>),
    /// The `nmake` of an MSVC toolchain and the whole environment it needs.
    Msvc { nmake: String, env: Vec<EnvVar> },
}

/// The kind of toolchain a target is built with.
pub open spec fn fits_target(t: LibraryTarget, tc: ToolchainEnvironment) -> bool {
    if t.spec_is_android() {
        tc is Android
    } else if t.spec_is_windows() {
        tc is Msvc
    } else {
        tc is Native
    }
}

/// The tools that must be on `PATH`: `perl` always, then `make` on Unix or
/// `nasm` on Windows.
pub open spec fn required_tools_spec(t: LibraryTarget) -> Seq<Seq<char>> {
    if t.spec_is_windows() {
        seq!["perl"@, "nasm"@]
    } else {
        seq!["perl"@, "make"@]
    }
}

/// Tool `i` was reported found.
pub open spec fn found_at(found: Seq<bool>, i: int) -> bool {
    i < found.len() && found[i]
}

/// Every one of the first `n` tools was reported found.
pub open spec fn all_found(found: Seq<bool>, n: int) -> bool {
    forall|i: int| 0 <= i < n ==> #[trigger] found_at(found, i)
}

/// Tool `k` is the first of the first `n` that was not found.
pub open spec fn first_missing_is(found: Seq<bool>, n: int, k: int) -> bool {
    0 <= k < n && !found_at(found, k) && all_found(found, k)
}

/// The tools that must be on `PATH` for the target.
pub fn required_tools(target: LibraryTarget) -> (r: Vec<&'static str>)
    ensures
        r@.len() == required_tools_spec(target).len(),
        forall|i: int| 0 <= i < r@.len() ==> r@[i]@ == required_tools_spec(target)[i],
{
    let second = if target.is_windows() {
        "nasm"
    } else {
        "make"
    };
    vec!["perl", second]
}

/// Checks the probed tools: `found[i]` tells whether `tools[i]` is on `PATH`.
/// Fails naming the first tool that is missing.
pub fn check_tools(tools: &Vec<&'static str>, found: &Vec<bool>) -> (r: Result<(), BuildError>)
    ensures
        r is Ok <==> all_found(found@, tools@.len() as int),
        r is Err ==> exists|k: int|
            first_missing_is(found@, tools@.len() as int, k) && r->Err_0
                == BuildError::MissingRequirement(tools@[k]),
{
    let mut i: usize = 0;
    while i < tools.len()
        invariant
            i <= tools@.len(),
            all_found(found@, i as int),
        decreases tools@.len() - i,
    {
        if i >= found.len() || !found[i] {
            assert(first_missing_is(found@, tools@.len() as int, i as int));
            return Err(BuildError::MissingRequirement(tools[i]));
        }
        assert(found_at(found@, i as int));
        i = i + 1;
    }
    Ok(())
}

/// `<toolchain_dir>/bin:<path>`: the NDK's tools in front of `PATH`.
pub open spec fn android_path_spec(toolchain_dir: Seq<char>, path: Seq<char>) -> Seq<char> {
    join_spec(toolchain_dir, "bin"@) + ":"@ + path
}

/// The overlay for Android builds. It fails when the NDK was not located
/// (`toolchain_dir`), when `PATH` is not set, or when neither `ANDROID_NDK` nor
/// `NDK_HOME` is set; `ANDROID_NDK` wins when both are.
pub fn android_environment(
    toolchain_dir: Option<String>,
    path: Option<String>,
    android_ndk: Option<String>,
    ndk_home: Option<String>,
) -> (r: Result<ToolchainEnvironment, BuildError>)
    ensures
        toolchain_dir is None ==> r is Err && r->Err_0 == BuildError::ToolchainNotFound(
            ToolchainComponent::Ndk,
        ),
        toolchain_dir is Some && path is None ==> r is Err && r->Err_0
            == BuildError::ToolchainNotFound(ToolchainComponent::PathVariable),
        toolchain_dir is Some && path is Some && android_ndk is None && ndk_home is None ==> r is Err
            && r->Err_0 == BuildError::ToolchainNotFound(ToolchainComponent::NdkRoot),
        toolchain_dir is Some && path is Some && (android_ndk is Some || ndk_home is Some) ==> {
            &&& r is Ok
            &&& r->Ok_0 is Android
            &&& env_view(r->Ok_0->Android_0@) == seq![
                ("PATH"@, android_path_spec(toolchain_dir->Some_0@, path->Some_0@)),
                ("ANDROID_NDK_ROOT"@, if android_ndk is Some {
                    android_ndk->Some_0@
                } else {
                    ndk_home->Some_0@
                }),
            ]
        },
{
    let dir = match toolchain_dir {
        Some(d) => d,
        None => {
            return Err(BuildError::ToolchainNotFound(ToolchainComponent::Ndk));
        },
    };
    let path = match path {
        Some(p) => p,
        None => {
            return Err(BuildError::ToolchainNotFound(ToolchainComponent::PathVariable));
        },
    };
    let root = match android_ndk {
        Some(root) => root,
        None => match ndk_home {
            Some(root) => root,
            None => {
                return Err(BuildError::ToolchainNotFound(ToolchainComponent::NdkRoot));
            },
        },
    };
    let mut new_path = join(dir.as_str(), "bin");
    new_path.append(":");
    new_path.append(path.as_str());
    let vars = vec![
        EnvVar { key: String::from_str("PATH"), value: new_path },
        EnvVar { key: String::from_str("ANDROID_NDK_ROOT"), value: root },
    ];
    let ghost expected = seq![
        ("PATH"@, android_path_spec(dir@, path@)),
        ("ANDROID_NDK_ROOT"@, vars@[1].value@),
    ];
    assert(env_view(vars@) =~= expected);
    Ok(ToolchainEnvironment::Android(vars))
}

/// `<tools_dir>/nmake.exe`: where `nmake` is looked for.
pub fn nmake_candidate(tools_dir: &str) -> (r: String)
    ensures
        r@ == join_spec(tools_dir@, "nmake.exe"@),
{
    join(tools_dir, "nmake.exe")
}

/// The overlay for MSVC builds, from what probing the machine found: the
/// directory of the compiler (`tools_dir`), whether `nmake.exe` is there, and
/// the toolchain's environment. It fails when either is missing.
pub fn msvc_environment(tools_dir: Option<String>, nmake_exists: bool, env: Vec<EnvVar>) -> (r:
    Result<ToolchainEnvironment, BuildError>)
    ensures
        tools_dir is None ==> r is Err && r->Err_0 == BuildError::ToolchainNotFound(
            ToolchainComponent::Msvc,
        ),
        tools_dir is Some && !nmake_exists ==> r is Err && r->Err_0
            == BuildError::ToolchainNotFound(ToolchainComponent::Nmake),
        tools_dir is Some && nmake_exists ==> {
            &&& r is Ok
            &&& r->Ok_0 is Msvc
            &&& r->Ok_0->Msvc_nmake@ == join_spec(tools_dir->Some_0@, "nmake.exe"@)
            &&& r->Ok_0->Msvc_env == env
        },
{
    match tools_dir {
        None => Err(BuildError::ToolchainNotFound(ToolchainComponent::Msvc)),
        Some(dir) => {
            if !nmake_exists {
                return Err(BuildError::ToolchainNotFound(ToolchainComponent::Nmake));
            }
            let nmake = nmake_candidate(dir.as_str());
            Ok(ToolchainEnvironment::Msvc { nmake, env })
        },
    }
}

} // verus!
