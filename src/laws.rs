use vstd::prelude::*;
use crate::commands::{configure_view, install_view};
use crate::context::CompilationContext;
use crate::driver::{BuildAction, BuildEvent, BuildState, runs, step_spec};
use crate::library::{OpenSSLLibrary, artefact_name, LibraryArtefact, prefix_spec, runtime_dir_name};
use crate::platform::{LibraryTarget, OsFamily, compiler_id_spec};
use crate::text::{dir_prefix, join_spec};
use crate::toolchain::{
    ToolchainEnvironment, all_found, android_path_spec, env_view, found_at, first_missing_is,
    required_tools_spec,
};

verus! {

/// The platforms built on Windows are exactly the two MSVC targets; every
/// other one is built on Unix; Android is one platform only, and a Unix one.
pub proof fn lemma_platform_families()
    ensures
        Set::new(|t: LibraryTarget| t.spec_is_windows()) == set![
            LibraryTarget::X8664pcWindowsMsvc,
            LibraryTarget::AArch64pcWindowsMsvc,
        ],
        Set::new(|t: LibraryTarget| t.spec_is_unix() && !t.spec_is_android()) == set![
            LibraryTarget::X8664appleDarwin,
            LibraryTarget::AArch64appleDarwin,
            LibraryTarget::X8664UnknownlinuxGNU,
            LibraryTarget::AArch64UnknownlinuxGNU,
        ],
        Set::new(|t: LibraryTarget| t.spec_is_android()) == set![LibraryTarget::AArch64LinuxAndroid],
        forall|t: LibraryTarget| #[trigger] t.spec_is_windows() != t.spec_is_unix(),
        forall|t: LibraryTarget| #[trigger] t.spec_is_android() ==> t.spec_is_unix(),
        forall|t: LibraryTarget|
            #[trigger] t.spec_family() == (if t.spec_is_windows() {
                OsFamily::Windows
            } else {
                OsFamily::Unix
            }),
{
    assert(Set::new(|t: LibraryTarget| t.spec_is_windows()) =~= set![
        LibraryTarget::X8664pcWindowsMsvc,
        LibraryTarget::AArch64pcWindowsMsvc,
    ]);
    assert(Set::new(|t: LibraryTarget| t.spec_is_unix() && !t.spec_is_android()) =~= set![
        LibraryTarget::X8664appleDarwin,
        LibraryTarget::AArch64appleDarwin,
        LibraryTarget::X8664UnknownlinuxGNU,
        LibraryTarget::AArch64UnknownlinuxGNU,
    ]);
    assert(Set::new(|t: LibraryTarget| t.spec_is_android()) =~= set![
        LibraryTarget::AArch64LinuxAndroid,
    ]);
}

/// The compiler identifiers of the seven platforms are pairwise distinct.
pub proof fn lemma_compiler_ids_distinct(a: LibraryTarget, b: LibraryTarget)
    requires
        a != b,
    ensures
        compiler_id_spec(a) != compiler_id_spec(b),
{
    reveal_strlit("darwin64-x86_64-cc");
    reveal_strlit("darwin64-arm64-cc");
    reveal_strlit("VC-WIN64A");
    reveal_strlit("VC-WIN64-ARM");
    reveal_strlit("linux-x86_64-clang");
    reveal_strlit("linux-aarch64");
    reveal_strlit("android-arm64");
    let x = compiler_id_spec(a);
    let y = compiler_id_spec(b);
    if x == y {
        assert(x.len() == y.len());
        assert(x[0] == y[0]);
        assert(x[9] == y[9]);
        assert(x[10] == y[10]);
        assert(x[11] == y[11]);
    }
}

/// The directory of loadable libraries is `<prefix>/lib` on every Unix
/// platform and `<prefix>/bin` on every Windows one.
pub proof fn lemma_runtime_dir_by_family(t: LibraryTarget)
    ensures
        t.spec_is_unix() ==> runtime_dir_name(t) == "lib"@,
        t.spec_is_windows() ==> runtime_dir_name(t) == "bin"@,
{
}

/// Configure runs only when the marker was found missing: of two attempts on
/// one build tree, the first of which found no marker and the second of which
/// finds the marker the first one's configure left, exactly the first runs
/// `Configure`, and the second goes straight to the build.
pub proof fn lemma_configure_runs_once(
    lib: OpenSSLLibrary,
    ctx: CompilationContext,
    tc: ToolchainEnvironment,
    first_state: BuildState,
    first_action: BuildAction,
    second_state: BuildState,
    second_action: BuildAction,
)
    requires
        step_spec(
            lib,
            ctx,
            tc,
            BuildState::PrefixReady,
            BuildEvent::MakefileProbed(false),
            first_state,
            first_action,
        ),
        step_spec(
            lib,
            ctx,
            tc,
            BuildState::PrefixReady,
            BuildEvent::MakefileProbed(true),
            second_state,
            second_action,
        ),
    ensures
        runs(first_action, configure_view(lib, ctx, tc)),
        !runs(second_action, configure_view(lib, ctx, tc)),
        runs(second_action, install_view(lib, ctx, tc)),
{
    assert(install_view(lib, ctx, tc).args.len() == 1);
    assert(configure_view(lib, ctx, tc).args.len() >= 6);
}

/// Whatever the state and the event, a step that runs `Configure` is one from
/// a prefix whose configure marker was reported missing.
pub proof fn lemma_configure_needs_missing_marker(
    lib: OpenSSLLibrary,
    ctx: CompilationContext,
    tc: ToolchainEnvironment,
    s: BuildState,
    e: BuildEvent,
    s2: BuildState,
    a: BuildAction,
)
    requires
        step_spec(lib, ctx, tc, s, e, s2, a),
        runs(a, configure_view(lib, ctx, tc)),
    ensures
        s is PrefixReady,
        e == BuildEvent::MakefileProbed(false),
{
    assert(install_view(lib, ctx, tc).args.len() == 1);
    assert(configure_view(lib, ctx, tc).args.len() >= 6);
}

/// When `perl` is reported missing, the build fails naming it and asks for
/// nothing more: no directory is created.
pub proof fn lemma_missing_perl_touches_nothing(
    lib: OpenSSLLibrary,
    ctx: CompilationContext,
    tc: ToolchainEnvironment,
    found: Vec<bool>,
    s2: BuildState,
    a: BuildAction,
)
    requires
        step_spec(lib, ctx, tc, BuildState::Idle, BuildEvent::ToolsProbed(found), s2, a),
        !found_at(found@, 0),
    ensures
        s2 is Failed,
        s2->Failed_0 is MissingRequirement,
        s2->Failed_0->MissingRequirement_0@ == "perl"@,
        a is Finish,
{
    let tools = required_tools_spec(ctx.target);
    assert(!all_found(found@, tools.len() as int));
    let k = choose|k: int|
        first_missing_is(found@, tools.len() as int, k) && s2 is Failed
            && s2->Failed_0 is MissingRequirement && s2->Failed_0->MissingRequirement_0@
            == tools[k] && a is Finish;
    if k > 0 {
        assert(found_at(found@, 0));
    }
}

/// An Android build gives `Configure` and `make` the NDK's variables.
pub proof fn lemma_android_overlay_reaches_commands(
    lib: OpenSSLLibrary,
    ctx: CompilationContext,
    tc: ToolchainEnvironment,
)
    requires
        tc is Android,
    ensures
        configure_view(lib, ctx, tc).env == env_view(tc->Android_0@),
        install_view(lib, ctx, tc).env == env_view(tc->Android_0@),
        install_view(lib, ctx, tc).program == "make"@,
{
}

/// The NDK's tool directory stands first on the new `PATH`, and ends in `/bin`.
pub proof fn lemma_android_path_starts_with_bin(toolchain_dir: Seq<char>, path: Seq<char>)
    requires
        toolchain_dir.len() > 0,
    ensures
        android_path_spec(toolchain_dir, path) == join_spec(toolchain_dir, "bin"@) + ":"@ + path,
        join_spec(toolchain_dir, "bin"@).len() >= 4,
        join_spec(toolchain_dir, "bin"@).subrange(
            join_spec(toolchain_dir, "bin"@).len() - 4,
            join_spec(toolchain_dir, "bin"@).len() as int,
        ) == "/bin"@,
{
    reveal_strlit("bin");
    reveal_strlit("/bin");
    let d = dir_prefix(toolchain_dir);
    let j = join_spec(toolchain_dir, "bin"@);
    assert(d.len() > 0 && d.last() == '/');
    assert(j.subrange(j.len() - 4, j.len() as int) =~= "/bin"@);
}

/// The crypto and ssl artefacts of one build root install into disjoint
/// trees: no path below one prefix is a path below the other.
pub proof fn lemma_artefact_trees_disjoint(build_root: Seq<char>, below_crypto: Seq<char>, below_ssl: Seq<char>)
    ensures
        prefix_spec(build_root, artefact_name(LibraryArtefact::Crypto)) + below_crypto
            != prefix_spec(build_root, artefact_name(LibraryArtefact::Ssl)) + below_ssl,
{
    reveal_strlit("crypto");
    reveal_strlit("ssl");
    let d = dir_prefix(build_root);
    let c = prefix_spec(build_root, "crypto"@) + below_crypto;
    let s = prefix_spec(build_root, "ssl"@) + below_ssl;
    assert(c[d.len() as int] == 'c');
    assert(s[d.len() as int] == 's');
}

} // verus!
