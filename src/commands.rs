use vstd::prelude::*;
use crate::context::{CompilationContext, profile_spec};
use crate::library::{OpenSSLLibrary, build_dir_spec, prefix_spec};
use crate::platform::compiler_id_spec;
use crate::text::{decimal, decimal_spec, join, join_spec};
use crate::toolchain::{CommandView, EnvVar, ProcessCommand, ToolchainEnvironment, env_view};

verus! {

/// The variables a toolchain lays over the environment of every child: the
/// NDK's for Android, none otherwise.
pub open spec fn overlay_spec(tc: ToolchainEnvironment) -> Seq<(Seq<char>, Seq<char>)> {
    match tc {
        ToolchainEnvironment::Android(vars) => env_view(vars@),
        _ => seq![],
    }
}

/// The arguments handed to `perl` to run OpenSSL's `Configure`.
pub open spec fn configure_args_spec(lib: OpenSSLLibrary, ctx: CompilationContext) -> Seq<Seq<char>> {
    let prefix = prefix_spec(ctx.build_root@, lib.spec_name());
    seq![
        join_spec(join_spec(ctx.source_root@, "openssl"@), "Configure"@),
        "--"@ + profile_spec(ctx.debug),
        "--prefix="@ + prefix,
        "--openssldir="@ + prefix,
        compiler_id_spec(ctx.target),
        "OPT_LEVEL=3"@,
    ] + (if lib.spec_options().is_static {
        seq!["no-shared"@]
    } else {
        seq![]
    }) + (if ctx.target.spec_is_android() {
        seq!["-D__ANDROID_API__="@ + decimal_spec(ctx.android_target_api as nat)]
    } else {
        seq![]
    })
}

/// `perl <sources>/Configure ...`, run in the artefact's build directory.
pub open spec fn configure_view(
    lib: OpenSSLLibrary,
    ctx: CompilationContext,
    tc: ToolchainEnvironment,
) -> CommandView {
    CommandView {
        program: "perl"@,
        args: configure_args_spec(lib, ctx),
        current_dir: build_dir_spec(ctx.build_root@, lib.spec_name()),
        env: overlay_spec(tc),
        inherit_env: true,
    }
}

/// `make install_sw`, or with an MSVC toolchain its `nmake install_sw` in the
/// toolchain's environment alone; run in the artefact's build directory.
pub open spec fn install_view(
    lib: OpenSSLLibrary,
    ctx: CompilationContext,
    tc: ToolchainEnvironment,
) -> CommandView {
    let dir = build_dir_spec(ctx.build_root@, lib.spec_name());
    match tc {
        ToolchainEnvironment::Msvc { nmake, env } => CommandView {
            program: nmake@,
            args: seq!["install_sw"@],
            current_dir: dir,
            env: env_view(env@),
            inherit_env: false,
        },
        _ => CommandView {
            program: "make"@,
            args: seq!["install_sw"@],
            current_dir: dir,
            env: overlay_spec(tc),
            inherit_env: true,
        },
    }
}

/// A copy of a list of variables.
pub fn copy_env(vars: &Vec<EnvVar>) -> (r: Vec<EnvVar>)
    ensures
        env_view(r@) == env_view(vars@),
{
    let mut out: Vec<EnvVar> = Vec::new();
    let mut i: usize = 0;
    while i < vars.len()
        invariant
            i <= vars@.len(),
            out@.len() == i,
            forall|j: int|
                0 <= j < i ==> out@[j].key@ == vars@[j].key@ && out@[j].value@ == vars@[j].value@,
        decreases vars@.len() - i,
    {
        let v = EnvVar { key: vars[i].key.clone(), value: vars[i].value.clone() };
        out.push(v);
        i = i + 1;
    }
    assert(env_view(out@) =~= env_view(vars@));
    out
}

fn overlay(tc: &ToolchainEnvironment) -> (r: Vec<EnvVar>)
    ensures
        env_view(r@) == overlay_spec(*tc),
{
    match tc {
        ToolchainEnvironment::Android(vars) => copy_env(vars),
        _ => {
            let r: Vec<EnvVar> = Vec::new();
            assert(env_view(r@) =~= seq![]);
            r
        },
    }
}

/// The command that configures the artefact.
pub fn configure_command(
    lib: &OpenSSLLibrary,
    ctx: &CompilationContext,
    tc: &ToolchainEnvironment,
) -> (r: ProcessCommand)
    ensures
        r@ == configure_view(*lib, *ctx, *tc),
{
    let prefix = lib.native_library_prefix(ctx);
    let sources = lib.source_directory(ctx);
    let mut profile = String::from_str("--");
    profile.append(ctx.profile());
    let mut prefix_arg = String::from_str("--prefix=");
    prefix_arg.append(prefix.as_str());
    let mut dir_arg = String::from_str("--openssldir=");
    dir_arg.append(prefix.as_str());
    let mut args: Vec<String> = Vec::new();
    args.push(join(sources.as_str(), "Configure"));
    args.push(profile);
    args.push(prefix_arg);
    args.push(dir_arg);
    args.push(String::from_str(lib.compiler(ctx)));
    args.push(String::from_str("OPT_LEVEL=3"));
    let ghost base = args@;
    if lib.is_static() {
        args.push(String::from_str("no-shared"));
    }
    let ghost mid = args@;
    if ctx.is_android() {
        let mut define = String::from_str("-D__ANDROID_API__=");
        let api = decimal(ctx.android_target_api());
        define.append(api.as_str());
        args.push(define);
    }
    let r = ProcessCommand {
        program: String::from_str("perl"),
        args,
        current_dir: lib.build_directory(ctx),
        env: overlay(tc),
        inherit_env: true,
    };
    assert(r@.args =~= configure_args_spec(*lib, *ctx));
    r
}

/// The command that builds and installs the artefact.
pub fn install_command(
    lib: &OpenSSLLibrary,
    ctx: &CompilationContext,
    tc: &ToolchainEnvironment,
) -> (r: ProcessCommand)
    ensures
        r@ == install_view(*lib, *ctx, *tc),
{
    let dir = lib.build_directory(ctx);
    let args = vec![String::from_str("install_sw")];
    assert(crate::toolchain::strings_view(args@) =~= seq!["install_sw"@]);
    match tc {
        ToolchainEnvironment::Msvc { nmake, env } => ProcessCommand {
            program: nmake.clone(),
            args,
            current_dir: dir,
            env: copy_env(env),
            inherit_env: false,
        },
        _ => ProcessCommand {
            program: String::from_str("make"),
            args,
            current_dir: dir,
            env: overlay(tc),
            inherit_env: true,
        },
    }
}

} // verus!
