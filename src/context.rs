use vstd::prelude::*;
use crate::platform::LibraryTarget;

verus! {

/// The NDK API level that a context targets unless told otherwise.
pub const DEFAULT_ANDROID_TARGET_API: u32 = 24;

/// Everything one build invocation is configured with: where the sources are,
/// where outputs go, the target, and the profile.
#[derive(Clone, Debug)]
pub struct CompilationContext {
    pub source_root: String,
    pub build_root: String,
    pub target: LibraryTarget,
    pub debug: bool,
    pub android_target_api: u32,
}

/// The profile name: `debug` or `release`.
pub open spec fn profile_spec(debug: bool) -> Seq<char> {
    if debug {
        "debug"@
    } else {
        "release"@
    }
}

impl CompilationContext {
    pub fn new(source_root: &str, build_root: &str, target: LibraryTarget, debug: bool) -> (r: Self)
        ensures
            r.source_root@ == source_root@,
            r.build_root@ == build_root@,
            r.target == target,
            r.debug == debug,
            r.android_target_api == DEFAULT_ANDROID_TARGET_API,
    {
        CompilationContext {
            source_root: String::from_str(source_root),
            build_root: String::from_str(build_root),
            target,
            debug,
            android_target_api: DEFAULT_ANDROID_TARGET_API,
        }
    }

    /// The same context with another NDK API level.
    pub fn with_android_target_api(self, api: u32) -> (r: Self)
        ensures
            r.source_root == self.source_root,
            r.build_root == self.build_root,
            r.target == self.target,
            r.debug == self.debug,
            r.android_target_api == api,
    {
        CompilationContext { android_target_api: api, ..self }
    }

    pub fn target(&self) -> (r: LibraryTarget)
        ensures
            r == self.target,
    {
        self.target
    }

    pub fn build_root(&self) -> (r: &str)
        ensures
            r@ == self.build_root@,
    {
        self.build_root.as_str()
    }

    pub fn source_root(&self) -> (r: &str)
        ensures
            r@ == self.source_root@,
    {
        self.source_root.as_str()
    }

    pub fn is_debug(&self) -> (r: bool)
        ensures
            r == self.debug,
    {
        self.debug
    }

    pub fn android_target_api(&self) -> (r: u32)
        ensures
            r == self.android_target_api,
    {
        self.android_target_api
    }

    pub fn is_windows(&self) -> (r: bool)
        ensures
            r == self.target.spec_is_windows(),
    {
        self.target.is_windows()
    }

    pub fn is_unix(&self) -> (r: bool)
        ensures
            r == self.target.spec_is_unix(),
    {
        self.target.is_unix()
    }

    pub fn is_android(&self) -> (r: bool)
        ensures
            r == self.target.spec_is_android(),
    {
        self.target.is_android()
    }

    /// The build profile: `debug` or `release`.
    pub fn profile(&self) -> (r: &'static str)
        ensures
            r@ == profile_spec(self.debug),
    {
        if self.debug {
            "debug"
        } else {
            "release"
        }
    }
}

} // verus!
