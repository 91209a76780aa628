use vstd::prelude::*;

verus! {

/// The seven platforms a build can target.
#[derive(Clone, Copy, Debug, PartialEq, Eq, Structural)]
pub enum LibraryTarget {
    X8664appleDarwin,
    AArch64appleDarwin,
    X8664pcWindowsMsvc,
    AArch64pcWindowsMsvc,
    X8664UnknownlinuxGNU,
    AArch64UnknownlinuxGNU,
    AArch64LinuxAndroid,
}

/// The two families of build systems: `make` on Unix, `nmake` on Windows.
#[derive(Clone, Copy, Debug, PartialEq, Eq, Structural)]
pub enum OsFamily {
    Unix,
    Windows,
}

/// The identifier that OpenSSL's `Configure` script expects for a target.
pub open spec fn compiler_id_spec(t: LibraryTarget) -> Seq<char> {
    match t {
        LibraryTarget::X8664appleDarwin => "darwin64-x86_64-cc"@,
        LibraryTarget::AArch64appleDarwin => "darwin64-arm64-cc"@,
        LibraryTarget::X8664pcWindowsMsvc => "VC-WIN64A"@,
        LibraryTarget::AArch64pcWindowsMsvc => "VC-WIN64-ARM"@,
        LibraryTarget::X8664UnknownlinuxGNU => "linux-x86_64-clang"@,
        LibraryTarget::AArch64UnknownlinuxGNU => "linux-aarch64"@,
        LibraryTarget::AArch64LinuxAndroid => "android-arm64"@,
    }
}

/// The Rust target triple of a platform.
pub open spec fn triple_spec(t: LibraryTarget) -> Seq<char> {
    match t {
        LibraryTarget::X8664appleDarwin => "x86_64-apple-darwin"@,
        LibraryTarget::AArch64appleDarwin => "aarch64-apple-darwin"@,
        LibraryTarget::X8664pcWindowsMsvc => "x86_64-pc-windows-msvc"@,
        LibraryTarget::AArch64pcWindowsMsvc => "aarch64-pc-windows-msvc"@,
        LibraryTarget::X8664UnknownlinuxGNU => "x86_64-unknown-linux-gnu"@,
        LibraryTarget::AArch64UnknownlinuxGNU => "aarch64-unknown-linux-gnu"@,
        LibraryTarget::AArch64LinuxAndroid => "aarch64-linux-android"@,
    }
}

impl LibraryTarget {
    pub open spec fn spec_is_windows(self) -> bool {
        self == LibraryTarget::X8664pcWindowsMsvc || self == LibraryTarget::AArch64pcWindowsMsvc
    }

    pub open spec fn spec_is_unix(self) -> bool {
        !self.spec_is_windows()
    }

    pub open spec fn spec_is_android(self) -> bool {
        self == LibraryTarget::AArch64LinuxAndroid
    }

    pub open spec fn spec_family(self) -> OsFamily {
        if self.spec_is_windows() {
            OsFamily::Windows
        } else {
            OsFamily::Unix
        }
    }

    pub fn is_windows(&self) -> (r: bool)
        ensures
            r == self.spec_is_windows(),
    {
        match self {
            LibraryTarget::X8664pcWindowsMsvc | LibraryTarget::AArch64pcWindowsMsvc => true,
            _ => false,
        }
    }

    pub fn is_unix(&self) -> (r: bool)
        ensures
            r == self.spec_is_unix(),
    {
        !self.is_windows()
    }

    pub fn is_android(&self) -> (r: bool)
        ensures
            r == self.spec_is_android(),
    {
        match self {
            LibraryTarget::AArch64LinuxAndroid => true,
            _ => false,
        }
    }

    pub fn family(&self) -> (r: OsFamily)
        ensures
            r == self.spec_family(),
    {
        if self.is_windows() {
            OsFamily::Windows
        } else {
            OsFamily::Unix
        }
    }

    /// The identifier handed to `Configure` for this target.
    pub fn compiler_identifier(&self) -> (r: &'static str)
        ensures
            r@ == compiler_id_spec(*self),
    {
        match self {
            LibraryTarget::X8664appleDarwin => "darwin64-x86_64-cc",
            LibraryTarget::AArch64appleDarwin => "darwin64-arm64-cc",
            LibraryTarget::X8664pcWindowsMsvc => "VC-WIN64A",
            LibraryTarget::AArch64pcWindowsMsvc => "VC-WIN64-ARM",
            LibraryTarget::X8664UnknownlinuxGNU => "linux-x86_64-clang",
            LibraryTarget::AArch64UnknownlinuxGNU => "linux-aarch64",
            LibraryTarget::AArch64LinuxAndroid => "android-arm64",
        }
    }

    /// The Rust target triple, as toolchain probes take it.
    pub fn triple(&self) -> (r: &'static str)
        ensures
            r@ == triple_spec(*self),
    {
        match self {
            LibraryTarget::X8664appleDarwin => "x86_64-apple-darwin",
            LibraryTarget::AArch64appleDarwin => "aarch64-apple-darwin",
            LibraryTarget::X8664pcWindowsMsvc => "x86_64-pc-windows-msvc",
            LibraryTarget::AArch64pcWindowsMsvc => "aarch64-pc-windows-msvc",
            LibraryTarget::X8664UnknownlinuxGNU => "x86_64-unknown-linux-gnu",
            LibraryTarget::AArch64UnknownlinuxGNU => "aarch64-unknown-linux-gnu",
            LibraryTarget::AArch64LinuxAndroid => "aarch64-linux-android",
        }
    }
}

} // verus!
