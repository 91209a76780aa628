use libopenssl_library::commands::{configure_command, install_command};
use libopenssl_library::context::CompilationContext;
use libopenssl_library::driver::{BuildAction, BuildDriver, BuildEvent, BuildState};
use libopenssl_library::library::{
    libcrypto, libopenssl, libssl, CompiledLibraryName, GitReference, LibraryArtefact,
    LibraryLocation, LibraryOptions, OpenSSLLibrary,
};
use libopenssl_library::platform::{LibraryTarget, OsFamily};
use libopenssl_library::text::{decimal, join};
use libopenssl_library::toolchain::{
    android_environment, check_tools, msvc_environment, nmake_candidate, required_tools,
    BuildError, EnvVar, ToolchainComponent, ToolchainEnvironment,
};

const ALL_TARGETS: [LibraryTarget; 7] = [
    LibraryTarget::X8664appleDarwin,
    LibraryTarget::AArch64appleDarwin,
    LibraryTarget::X8664pcWindowsMsvc,
    LibraryTarget::AArch64pcWindowsMsvc,
    LibraryTarget::X8664UnknownlinuxGNU,
    LibraryTarget::AArch64UnknownlinuxGNU,
    LibraryTarget::AArch64LinuxAndroid,
];

fn context(target: LibraryTarget) -> CompilationContext {
    CompilationContext::new("target/src", "target", target, false)
}

fn var(key: &str, value: &str) -> EnvVar {
    EnvVar { key: key.to_string(), value: value.to_string() }
}

fn android_toolchain() -> ToolchainEnvironment {
    android_environment(
        Some("/ndk/toolchains/llvm/prebuilt/linux-x86_64".to_string()),
        Some("/usr/bin".to_string()),
        Some("/ndk".to_string()),
        None,
    )
    .unwrap()
}

fn strs(v: &[String]) -> Vec<&str> {
    v.iter().map(|s| s.as_str()).collect()
}

#[test]
fn compiler_identifiers_of_every_platform() {
    let expected = [
        "darwin64-x86_64-cc",
        "darwin64-arm64-cc",
        "VC-WIN64A",
        "VC-WIN64-ARM",
        "linux-x86_64-clang",
        "linux-aarch64",
        "android-arm64",
    ];
    for (t, id) in ALL_TARGETS.iter().zip(expected.iter()) {
        assert_eq!(t.compiler_identifier(), *id);
        let lib = OpenSSLLibrary::new();
        assert_eq!(lib.compiler(&context(*t)), *id);
    }
}

#[test]
fn platform_families_partition_the_targets() {
    let windows = ALL_TARGETS.iter().filter(|t| t.is_windows()).count();
    let unix_not_android = ALL_TARGETS.iter().filter(|t| t.is_unix() && !t.is_android()).count();
    let android = ALL_TARGETS.iter().filter(|t| t.is_android()).count();
    assert_eq!((windows, unix_not_android, android), (2, 4, 1));
    for t in ALL_TARGETS.iter() {
        assert_ne!(t.is_windows(), t.is_unix());
        if t.is_android() {
            assert!(t.is_unix());
        }
    }
    assert_eq!(LibraryTarget::AArch64pcWindowsMsvc.family(), OsFamily::Windows);
    assert_eq!(LibraryTarget::AArch64LinuxAndroid.family(), OsFamily::Unix);
    assert_eq!(LibraryTarget::X8664pcWindowsMsvc.triple(), "x86_64-pc-windows-msvc");
}

#[test]
fn compiled_library_directories_follow_the_family() {
    for t in ALL_TARGETS.iter() {
        let dirs = libcrypto(None).compiled_library_directories(&context(*t));
        if t.is_windows() {
            assert_eq!(strs(&dirs), vec!["target/crypto/build/bin"]);
        } else {
            assert_eq!(strs(&dirs), vec!["target/crypto/build/lib"]);
        }
    }
}

#[test]
fn include_headers_are_checked_at_call_time() {
    let lib = libssl(None);
    let ctx = context(LibraryTarget::X8664UnknownlinuxGNU);
    assert_eq!(lib.include_directory(&ctx), "target/ssl/build/include");
    assert!(lib.native_library_include_headers(&ctx, false).is_empty());
    assert_eq!(
        strs(&lib.native_library_include_headers(&ctx, true)),
        vec!["target/ssl/build/include"]
    );
    assert!(lib.native_library_include_headers(&ctx, false).is_empty());
}

#[test]
fn linker_and_pkg_config_directories() {
    let lib = libcrypto(None);
    let ctx = context(LibraryTarget::AArch64appleDarwin);
    assert!(lib.native_library_linker_libraries(&ctx, false).is_empty());
    assert_eq!(
        strs(&lib.native_library_linker_libraries(&ctx, true)),
        vec!["target/crypto/build/lib"]
    );
    assert_eq!(lib.pkg_config_directory(&ctx, false), None);
    assert_eq!(
        lib.pkg_config_directory(&ctx, true).as_deref(),
        Some("target/crypto/build/lib/pkgconfig")
    );
}

#[test]
fn prefix_and_build_directory() {
    let lib = libcrypto(None);
    let ctx = CompilationContext::new("src", "/tmp/out/", LibraryTarget::X8664appleDarwin, true);
    assert_eq!(lib.build_directory(&ctx), "/tmp/out/crypto");
    assert_eq!(lib.native_library_prefix(&ctx), "/tmp/out/crypto/build");
    assert_eq!(lib.source_directory(&ctx), "src/openssl");
    assert_eq!(ctx.profile(), "debug");
    assert_eq!(context(LibraryTarget::X8664appleDarwin).profile(), "release");
}

#[test]
fn join_and_decimal() {
    assert_eq!(join("", "a"), "a");
    assert_eq!(join("a/", "b"), "a/b");
    assert_eq!(join("a", "b"), "a/b");
    assert_eq!(decimal(0), "0");
    assert_eq!(decimal(21), "21");
    assert_eq!(decimal(4294967295), "4294967295");
}

#[test]
fn required_tools_by_family() {
    assert_eq!(required_tools(LibraryTarget::X8664UnknownlinuxGNU), vec!["perl", "make"]);
    assert_eq!(required_tools(LibraryTarget::AArch64LinuxAndroid), vec!["perl", "make"]);
    assert_eq!(required_tools(LibraryTarget::X8664pcWindowsMsvc), vec!["perl", "nasm"]);
}

#[test]
fn check_tools_names_the_first_missing_tool() {
    let tools = vec!["perl", "make"];
    assert!(check_tools(&tools, &vec![true, true]).is_ok());
    assert!(matches!(
        check_tools(&tools, &vec![true, false]),
        Err(BuildError::MissingRequirement("make"))
    ));
    assert!(matches!(
        check_tools(&tools, &vec![false, false]),
        Err(BuildError::MissingRequirement("perl"))
    ));
    assert!(matches!(
        check_tools(&tools, &vec![true]),
        Err(BuildError::MissingRequirement("make"))
    ));
}

#[test]
fn missing_perl_stops_before_any_directory() {
    let ctx = context(LibraryTarget::X8664UnknownlinuxGNU);
    let mut driver =
        BuildDriver::new(libcrypto(None), ctx, ToolchainEnvironment::Native).unwrap();
    let action = driver.step(BuildEvent::ToolsProbed(vec![false, true]));
    assert!(matches!(action, BuildAction::Finish));
    assert!(matches!(
        driver.state(),
        BuildState::Failed(BuildError::MissingRequirement("perl"))
    ));
    assert!(matches!(driver.step(BuildEvent::PrefixCreated(true)), BuildAction::Wait));
}

#[test]
fn configure_runs_once_per_build_tree() {
    let ctx = context(LibraryTarget::X8664UnknownlinuxGNU);
    let mut configure_runs = 0;
    for marker_present in [false, true] {
        let mut driver =
            BuildDriver::new(libcrypto(None), ctx.clone(), ToolchainEnvironment::Native).unwrap();
        match driver.step(BuildEvent::ToolsProbed(vec![true, true])) {
            BuildAction::CreateDirectory(d) => assert_eq!(d, "target/crypto/build"),
            other => panic!("unexpected {:?}", other),
        }
        match driver.step(BuildEvent::PrefixCreated(true)) {
            BuildAction::ProbeMakefile(m) => assert_eq!(m, "target/crypto/makefile"),
            other => panic!("unexpected {:?}", other),
        }
        let mut action = driver.step(BuildEvent::MakefileProbed(marker_present));
        if let BuildAction::Run(cmd) = &action {
            if cmd.program == "perl" {
                configure_runs += 1;
                action = driver.step(BuildEvent::ConfigureExited(true));
            }
        }
        match action {
            BuildAction::Run(cmd) => {
                assert_eq!(cmd.program, "make");
                assert_eq!(strs(&cmd.args), vec!["install_sw"]);
                assert_eq!(cmd.current_dir, "target/crypto");
            }
            other => panic!("unexpected {:?}", other),
        }
        assert!(matches!(driver.step(BuildEvent::InstallExited(true)), BuildAction::Finish));
        assert!(matches!(driver.state(), BuildState::Done));
    }
    assert_eq!(configure_runs, 1);
}

#[test]
fn failures_name_the_artefact() {
    let ctx = context(LibraryTarget::X8664appleDarwin);
    let mut driver = BuildDriver::new(libssl(None), ctx.clone(), ToolchainEnvironment::Native).unwrap();
    driver.step(BuildEvent::ToolsProbed(vec![true, true]));
    driver.step(BuildEvent::PrefixCreated(true));
    driver.step(BuildEvent::MakefileProbed(false));
    driver.step(BuildEvent::ConfigureExited(false));
    assert!(matches!(
        driver.state(),
        BuildState::Failed(BuildError::ConfigurationFailed(LibraryArtefact::Ssl))
    ));

    let mut driver = BuildDriver::new(libcrypto(None), ctx.clone(), ToolchainEnvironment::Native).unwrap();
    driver.step(BuildEvent::ToolsProbed(vec![true, true]));
    driver.step(BuildEvent::PrefixCreated(true));
    driver.step(BuildEvent::MakefileProbed(true));
    driver.step(BuildEvent::InstallExited(false));
    assert!(matches!(
        driver.state(),
        BuildState::Failed(BuildError::CompilationFailed(LibraryArtefact::Crypto))
    ));

    let mut driver = BuildDriver::new(libcrypto(None), ctx, ToolchainEnvironment::Native).unwrap();
    driver.step(BuildEvent::ToolsProbed(vec![true, true]));
    driver.step(BuildEvent::PrefixCreated(false));
    match driver.state() {
        BuildState::Failed(BuildError::DirectoryNotCreated(p)) => assert_eq!(p, "target/crypto/build"),
        other => panic!("unexpected {:?}", other),
    }
}

#[test]
fn driver_needs_the_matching_toolchain() {
    let lib = libcrypto(None);
    assert!(BuildDriver::new(lib.clone(), context(LibraryTarget::AArch64LinuxAndroid), ToolchainEnvironment::Native).is_none());
    assert!(BuildDriver::new(lib.clone(), context(LibraryTarget::X8664pcWindowsMsvc), ToolchainEnvironment::Native).is_none());
    assert!(BuildDriver::new(lib.clone(), context(LibraryTarget::X8664UnknownlinuxGNU), android_toolchain()).is_none());
    assert!(BuildDriver::new(lib, context(LibraryTarget::AArch64LinuxAndroid), android_toolchain()).is_some());
}

#[test]
fn configure_command_for_linux_release() {
    let mut lib = libcrypto(None);
    let ctx = context(LibraryTarget::X8664UnknownlinuxGNU);
    let cmd = configure_command(&lib, &ctx, &ToolchainEnvironment::Native);
    assert_eq!(cmd.program, "perl");
    assert_eq!(cmd.current_dir, "target/crypto");
    assert!(cmd.env.is_empty());
    assert!(cmd.inherit_env);
    assert_eq!(
        strs(&cmd.args),
        vec![
            "target/src/openssl/Configure",
            "--release",
            "--prefix=target/crypto/build",
            "--openssldir=target/crypto/build",
            "linux-x86_64-clang",
            "OPT_LEVEL=3",
        ]
    );
    let mut options = LibraryOptions::new();
    options.set_static(true);
    lib.set_options(options);
    assert!(lib.is_static());
    let cmd = configure_command(&lib, &ctx, &ToolchainEnvironment::Native);
    assert_eq!(cmd.args.last().unwrap(), "no-shared");
}

#[test]
fn android_build_injects_the_ndk() {
    let tc = android_toolchain();
    let ctx = context(LibraryTarget::AArch64LinuxAndroid).with_android_target_api(21);
    let lib = libssl(None);
    let configure = configure_command(&lib, &ctx, &tc);
    assert_eq!(configure.args.last().unwrap(), "-D__ANDROID_API__=21");
    assert_eq!(configure.args[4], "android-arm64");
    let install = install_command(&lib, &ctx, &tc);
    for cmd in [&configure, &install] {
        let path = cmd.env.iter().find(|v| v.key == "PATH").unwrap();
        assert_eq!(path.value, "/ndk/toolchains/llvm/prebuilt/linux-x86_64/bin:/usr/bin");
        assert!(path.value.split(':').next().unwrap().ends_with("/bin"));
        let root = cmd.env.iter().find(|v| v.key == "ANDROID_NDK_ROOT").unwrap();
        assert_eq!(root.value, "/ndk");
        assert!(cmd.inherit_env);
    }
    assert_eq!(install.program, "make");
}

#[test]
fn android_environment_choices_and_failures() {
    let some = |s: &str| Some(s.to_string());
    match android_environment(some("/t"), some("/p"), None, some("/home-ndk")).unwrap() {
        ToolchainEnvironment::Android(vars) => {
            assert_eq!(vars[0].value, "/t/bin:/p");
            assert_eq!(vars[1].value, "/home-ndk");
        }
        other => panic!("unexpected {:?}", other),
    }
    match android_environment(some("/t"), some("/p"), some("/a"), some("/b")).unwrap() {
        ToolchainEnvironment::Android(vars) => assert_eq!(vars[1].value, "/a"),
        other => panic!("unexpected {:?}", other),
    }
    assert!(matches!(
        android_environment(some("/t"), some("/p"), None, None),
        Err(BuildError::ToolchainNotFound(ToolchainComponent::NdkRoot))
    ));
    assert!(matches!(
        android_environment(None, some("/p"), some("/a"), None),
        Err(BuildError::ToolchainNotFound(ToolchainComponent::Ndk))
    ));
    assert!(matches!(
        android_environment(some("/t"), None, some("/a"), None),
        Err(BuildError::ToolchainNotFound(ToolchainComponent::PathVariable))
    ));
}

#[test]
fn msvc_build_uses_nmake_and_its_environment_only() {
    assert_eq!(nmake_candidate("C:/VS/bin"), "C:/VS/bin/nmake.exe");
    assert!(matches!(
        msvc_environment(None, true, vec![]),
        Err(BuildError::ToolchainNotFound(ToolchainComponent::Msvc))
    ));
    assert!(matches!(
        msvc_environment(Some("C:/VS/bin".to_string()), false, vec![]),
        Err(BuildError::ToolchainNotFound(ToolchainComponent::Nmake))
    ));
    let tc = msvc_environment(Some("C:/VS/bin".to_string()), true, vec![var("LIB", "C:/VS/lib")]).unwrap();
    let ctx = CompilationContext::new("src", "out", LibraryTarget::AArch64pcWindowsMsvc, true);
    let lib = libcrypto(None);
    let install = install_command(&lib, &ctx, &tc);
    assert_eq!(install.program, "C:/VS/bin/nmake.exe");
    assert_eq!(strs(&install.args), vec!["install_sw"]);
    assert!(!install.inherit_env);
    assert_eq!(install.env.len(), 1);
    assert_eq!(install.env[0].key, "LIB");
    let configure = configure_command(&lib, &ctx, &tc);
    assert_eq!(configure.args[1], "--debug");
    assert_eq!(configure.args[4], "VC-WIN64-ARM");
    assert!(configure.env.is_empty());
}

#[test]
fn crypto_and_ssl_have_disjoint_trees() {
    let ctx = context(LibraryTarget::X8664appleDarwin);
    let crypto = libcrypto(None);
    let ssl = libssl(None);
    let c = crypto.native_library_prefix(&ctx);
    let s = ssl.native_library_prefix(&ctx);
    assert_eq!(c, "target/crypto/build");
    assert_eq!(s, "target/ssl/build");
    assert!(!c.starts_with(&s) && !s.starts_with(&c));
    assert_eq!(crypto.source_directory(&ctx), ssl.source_directory(&ctx));

    let mut failed = BuildDriver::new(ssl.clone(), ctx.clone(), ToolchainEnvironment::Native).unwrap();
    failed.step(BuildEvent::ToolsProbed(vec![true, false]));
    assert!(matches!(failed.state(), BuildState::Failed(_)));
    assert_eq!(
        strs(&crypto.compiled_library_directories(&ctx)),
        vec!["target/crypto/build/lib"]
    );
}

#[test]
fn library_descriptors() {
    let lib = OpenSSLLibrary::new();
    assert_eq!(lib.name(), "crypto");
    assert_eq!(lib.artefact(), LibraryArtefact::Crypto);
    assert!(lib.dependencies().is_none());
    assert!(!lib.options().is_static());
    match lib.location() {
        LibraryLocation::Git(g) => {
            assert_eq!((g.owner.as_str(), g.repository.as_str()), ("syrel", "openssl"));
            assert!(matches!(&g.reference, GitReference::Branch(b) if b == "OpenSSL_1_1_1-stable-Windows-pkgconfig"));
        }
    }
    match lib.release_location() {
        LibraryLocation::Git(g) => assert_eq!(g.owner, "syrel"),
    }
    let ssl = libssl(Some("v1.1.1".to_string()));
    assert_eq!(ssl.name(), "ssl");
    assert!(matches!(ssl.compiled_library_name(), CompiledLibraryName::Matching(n) if n == "ssl"));
    match ssl.release_location() {
        LibraryLocation::Git(g) => {
            assert_eq!((g.owner.as_str(), g.repository.as_str()), ("feenkcom", "libopenssl"));
            assert!(matches!(&g.reference, GitReference::Tag(t) if t == "v1.1.1"));
        }
    }
    assert_eq!(libcrypto(None).name(), "crypto");
    assert_eq!(libopenssl(None).be_ssl().be_crypto().name(), "crypto");
}
