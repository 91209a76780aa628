use vstd::prelude::*;
use crate::context::CompilationContext;
use crate::platform::{LibraryTarget, compiler_id_spec};
use crate::text::{join, join_spec};

verus! {

/// Which revision of a git repository to take.
#[derive(Clone, Debug)]
pub enum GitReference {
    Latest,
    Branch(String),
    Tag(String),
}

/// A repository on GitHub and the revision to take from it.
#[derive(Clone, Debug)]
pub struct GitLocation {
    pub owner: String,
    pub repository: String,
    pub reference: GitReference,
}

/// Where the sources or the prebuilt release of a library come from.
#[derive(Clone, Debug)]
pub enum LibraryLocation {
    Git(GitLocation),
}

impl GitLocation {
    /// The latest revision of `owner/repository` on GitHub.
    pub fn github(owner: &str, repository: &str) -> (r: Self)
        ensures
            r.owner@ == owner@,
            r.repository@ == repository@,
            r.reference is Latest,
    {
        GitLocation {
            owner: String::from_str(owner),
            repository: String::from_str(repository),
            reference: GitReference::Latest,
        }
    }

    /// The same repository at the head of `branch`.
    pub fn branch(self, branch: String) -> (r: Self)
        ensures
            r.owner == self.owner,
            r.repository == self.repository,
            r.reference == GitReference::Branch(branch),
    {
        GitLocation { reference: GitReference::Branch(branch), ..self }
    }

    /// The same repository at `tag`.
    pub fn tag(self, tag: String) -> (r: Self)
        ensures
            r.owner == self.owner,
            r.repository == self.repository,
            r.reference == GitReference::Tag(tag),
    {
        GitLocation { reference: GitReference::Tag(tag), ..self }
    }
}

/// The build options a library carries: whether it is linked statically.
#[derive(Clone, Debug)]
pub struct LibraryOptions {
    pub is_static: bool,
}

impl LibraryOptions {
    /// Options for a shared library.
    pub fn new() -> (r: Self)
        ensures
            !r.is_static,
    {
        LibraryOptions { is_static: false }
    }

    pub fn is_static(&self) -> (r: bool)
        ensures
            r == self.is_static,
    {
        self.is_static
    }

    pub fn set_static(&mut self, is_static: bool)
        ensures
            final(self).is_static == is_static,
    {
        self.is_static = is_static;
    }
}

/// The two artefacts built from OpenSSL's sources.
#[derive(Clone, Copy, Debug, PartialEq, Eq, Structural)]
pub enum LibraryArtefact {
    Crypto,
    Ssl,
}

/// The artefact's name, which also names its build directory.
pub open spec fn artefact_name(a: LibraryArtefact) -> Seq<char> {
    match a {
        LibraryArtefact::Crypto => "crypto"@,
        LibraryArtefact::Ssl => "ssl"@,
    }
}

/// How a compiled library file is recognised among the build outputs.
#[derive(Clone, Debug)]
pub enum CompiledLibraryName {
    Matching(String),
}

/// `<build_root>/<name>`: where the artefact is configured and built.
pub open spec fn build_dir_spec(build_root: Seq<char>, name: Seq<char>) -> Seq<char> {
    join_spec(build_root, name)
}

/// `<build_root>/<name>/build`: where the artefact is installed.
pub open spec fn prefix_spec(build_root: Seq<char>, name: Seq<char>) -> Seq<char> {
    join_spec(build_dir_spec(build_root, name), "build"@)
}

/// The directory of the prefix that holds the libraries to load: `bin` on
/// Windows, `lib` elsewhere.
pub open spec fn runtime_dir_name(t: LibraryTarget) -> Seq<char> {
    if t.spec_is_windows() {
        "bin"@
    } else {
        "lib"@
    }
}

/// The OpenSSL library, built as one of its two artefacts.
#[derive(Clone, Debug)]
pub struct OpenSSLLibrary {
    source_location: LibraryLocation,
    release_location: Option<LibraryLocation>,
    options: LibraryOptions,
    artefact: LibraryArtefact,
}

impl OpenSSLLibrary {
    pub closed spec fn spec_artefact(&self) -> LibraryArtefact {
        self.artefact
    }

    pub closed spec fn spec_source_location(&self) -> LibraryLocation {
        self.source_location
    }

    pub closed spec fn spec_release_location(&self) -> Option<LibraryLocation> {
        self.release_location
    }

    pub closed spec fn spec_options(&self) -> LibraryOptions {
        self.options
    }

    pub open spec fn spec_name(&self) -> Seq<char> {
        artefact_name(self.spec_artefact())
    }

    /// The crypto artefact of OpenSSL's stable 1.1.1 branch, with no release
    /// location and shared linking.
    pub fn new() -> (r: Self)
        ensures
            r.spec_artefact() == LibraryArtefact::Crypto,
            r.spec_release_location() is None,
            !r.spec_options().is_static,
            r.spec_source_location()->Git_0.owner@ == "syrel"@,
            r.spec_source_location()->Git_0.repository@ == "openssl"@,
            r.spec_source_location()->Git_0.reference->Branch_0@
                == "OpenSSL_1_1_1-stable-Windows-pkgconfig"@,
            r.spec_source_location()->Git_0.reference is Branch,
    {
        let location = GitLocation::github("syrel", "openssl").branch(
            String::from_str("OpenSSL_1_1_1-stable-Windows-pkgconfig"),
        );
        OpenSSLLibrary {
            source_location: LibraryLocation::Git(location),
            release_location: None,
            options: LibraryOptions::new(),
            artefact: LibraryArtefact::Crypto,
        }
    }

    pub fn be_ssl(self) -> (r: Self)
        ensures
            r.spec_artefact() == LibraryArtefact::Ssl,
            r.spec_source_location() == self.spec_source_location(),
            r.spec_release_location() == self.spec_release_location(),
            r.spec_options() == self.spec_options(),
    {
        OpenSSLLibrary { artefact: LibraryArtefact::Ssl, ..self }
    }

    pub fn be_crypto(self) -> (r: Self)
        ensures
            r.spec_artefact() == LibraryArtefact::Crypto,
            r.spec_source_location() == self.spec_source_location(),
            r.spec_release_location() == self.spec_release_location(),
            r.spec_options() == self.spec_options(),
    {
        OpenSSLLibrary { artefact: LibraryArtefact::Crypto, ..self }
    }

    pub fn with_release_location(self, release_location: Option<LibraryLocation>) -> (r: Self)
        ensures
            r.spec_release_location() == release_location,
            r.spec_artefact() == self.spec_artefact(),
            r.spec_source_location() == self.spec_source_location(),
            r.spec_options() == self.spec_options(),
    {
        OpenSSLLibrary { release_location, ..self }
    }

    /// The identifier handed to `Configure` for the context's target.
    pub fn compiler(&self, context: &CompilationContext) -> (r: &'static str)
        ensures
            r@ == compiler_id_spec(context.target),
    {
        context.target.compiler_identifier()
    }

    pub fn artefact(&self) -> (r: LibraryArtefact)
        ensures
            r == self.spec_artefact(),
    {
        self.artefact
    }

    /// Where the sources come from.
    pub fn location(&self) -> (r: &LibraryLocation)
        ensures
            *r == self.spec_source_location(),
    {
        &self.source_location
    }

    /// Where a prebuilt release comes from: the release location when one is
    /// set, else the source location.
    pub fn release_location(&self) -> (r: &LibraryLocation)
        ensures
            *r == (match self.spec_release_location() {
                Some(l) => l,
                None => self.spec_source_location(),
            }),
    {
        match &self.release_location {
            Some(l) => l,
            None => &self.source_location,
        }
    }

    /// `crypto` or `ssl`.
    pub fn name(&self) -> (r: &'static str)
        ensures
            r@ == self.spec_name(),
    {
        match self.artefact {
            LibraryArtefact::Crypto => "crypto",
            LibraryArtefact::Ssl => "ssl",
        }
    }

    /// The pattern that finds the compiled library among the outputs.
    pub fn compiled_library_name(&self) -> (r: CompiledLibraryName)
        ensures
            r->Matching_0@ == self.spec_name(),
    {
        CompiledLibraryName::Matching(String::from_str(self.name()))
    }

    /// OpenSSL depends on no other library.
    pub fn dependencies(&self) -> (r: Option<Vec<String>>)
        ensures
            r is None,
    {
        None
    }

    pub fn options(&self) -> (r: &LibraryOptions)
        ensures
            *r == self.spec_options(),
    {
        &self.options
    }

    /// Replaces the build options.
    pub fn set_options(&mut self, options: LibraryOptions)
        ensures
            final(self).spec_options() == options,
            final(self).spec_artefact() == old(self).spec_artefact(),
            final(self).spec_source_location() == old(self).spec_source_location(),
            final(self).spec_release_location() == old(self).spec_release_location(),
    {
        self.options = options;
    }

    pub fn is_static(&self) -> (r: bool)
        ensures
            r == self.spec_options().is_static,
    {
        self.options.is_static
    }

    /// The directory of the shared OpenSSL source tree: `<source_root>/openssl`.
    pub fn source_directory(&self, context: &CompilationContext) -> (r: String)
        ensures
            r@ == join_spec(context.source_root@, "openssl"@),
    {
        join(context.source_root.as_str(), "openssl")
    }

    /// `<build_root>/<name>`, where the artefact is configured and built.
    pub fn build_directory(&self, context: &CompilationContext) -> (r: String)
        ensures
            r@ == build_dir_spec(context.build_root@, self.spec_name()),
    {
        join(context.build_root.as_str(), self.name())
    }

    /// `<build_root>/<name>/build`, where the artefact is installed.
    pub fn native_library_prefix(&self, context: &CompilationContext) -> (r: String)
        ensures
            r@ == prefix_spec(context.build_root@, self.spec_name()),
    {
        let dir = self.build_directory(context);
        join(dir.as_str(), "build")
    }

    /// The directories that hold the libraries to load: `<prefix>/lib` on Unix,
    /// `<prefix>/bin` on Windows.
    pub fn compiled_library_directories(&self, context: &CompilationContext) -> (r: Vec<String>)
        ensures
            r.len() == 1,
            r[0]@ == join_spec(
                prefix_spec(context.build_root@, self.spec_name()),
                runtime_dir_name(context.target),
            ),
    {
        let prefix = self.native_library_prefix(context);
        if context.is_unix() {
            let lib = join(prefix.as_str(), "lib");
            return vec![lib];
        }
        let bin = join(prefix.as_str(), "bin");
        vec![bin]
    }

    /// `<prefix>/include`, whether or not it exists.
    pub fn include_directory(&self, context: &CompilationContext) -> (r: String)
        ensures
            r@ == join_spec(prefix_spec(context.build_root@, self.spec_name()), "include"@),
    {
        let prefix = self.native_library_prefix(context);
        join(prefix.as_str(), "include")
    }

    /// `<prefix>/lib`, whether or not it exists.
    pub fn library_directory(&self, context: &CompilationContext) -> (r: String)
        ensures
            r@ == join_spec(prefix_spec(context.build_root@, self.spec_name()), "lib"@),
    {
        let prefix = self.native_library_prefix(context);
        join(prefix.as_str(), "lib")
    }

    /// `<prefix>/lib/pkgconfig`, whether or not it exists.
    pub fn pkg_config_candidate(&self, context: &CompilationContext) -> (r: String)
        ensures
            r@ == join_spec(
                join_spec(prefix_spec(context.build_root@, self.spec_name()), "lib"@),
                "pkgconfig"@,
            ),
    {
        let lib = self.library_directory(context);
        join(lib.as_str(), "pkgconfig")
    }

    /// The header directories: `<prefix>/include` when it exists at the time of
    /// the call (`include_exists`), else none.
    pub fn native_library_include_headers(
        &self,
        context: &CompilationContext,
        include_exists: bool,
    ) -> (r: Vec<String>)
        ensures
            include_exists ==> r.len() == 1 && r[0]@ == join_spec(
                prefix_spec(context.build_root@, self.spec_name()),
                "include"@,
            ),
            !include_exists ==> r.len() == 0,
    {
        let mut dirs: Vec<String> = Vec::new();
        let directory = self.include_directory(context);
        if include_exists {
            dirs.push(directory);
        }
        dirs
    }

    /// The link-library directories: `<prefix>/lib` when it exists at the time
    /// of the call (`lib_exists`), else none.
    pub fn native_library_linker_libraries(
        &self,
        context: &CompilationContext,
        lib_exists: bool,
    ) -> (r: Vec<String>)
        ensures
            lib_exists ==> r.len() == 1 && r[0]@ == join_spec(
                prefix_spec(context.build_root@, self.spec_name()),
                "lib"@,
            ),
            !lib_exists ==> r.len() == 0,
    {
        let mut dirs: Vec<String> = Vec::new();
        let directory = self.library_directory(context);
        if lib_exists {
            dirs.push(directory);
        }
        dirs
    }

    /// The pkg-config directory: `<prefix>/lib/pkgconfig` when it exists at the
    /// time of the call (`pkg_config_exists`), else none.
    pub fn pkg_config_directory(&self, context: &CompilationContext, pkg_config_exists: bool) -> (r:
        Option<String>)
        ensures
            pkg_config_exists ==> r is Some && r->Some_0@ == join_spec(
                join_spec(prefix_spec(context.build_root@, self.spec_name()), "lib"@),
                "pkgconfig"@,
            ),
            !pkg_config_exists ==> r is None,
    {
        let directory = self.pkg_config_candidate(context);
        if pkg_config_exists {
            return Some(directory);
        }
        None
    }
}

/// The release location that goes with `binary_version`: none without a
/// version, else the tag of that name in `feenkcom/libopenssl` on GitHub.
pub open spec fn is_release_of(loc: Option<LibraryLocation>, binary_version: Option<String>) -> bool {
    match binary_version {
        None => loc is None,
        Some(version) => {
            &&& loc is Some
            &&& loc->Some_0->Git_0.owner@ == "feenkcom"@
            &&& loc->Some_0->Git_0.repository@ == "libopenssl"@
            &&& loc->Some_0->Git_0.reference == GitReference::Tag(version)
        },
    }
}

/// The OpenSSL library, with its prebuilt releases taken from the
/// `feenkcom/libopenssl` repository at tag `binary_version` when one is given.
pub fn libopenssl(binary_version: Option<String>) -> (r: OpenSSLLibrary)
    ensures
        r.spec_artefact() == LibraryArtefact::Crypto,
        !r.spec_options().is_static,
        is_release_of(r.spec_release_location(), binary_version),
{
    let release = match binary_version {
        Some(version) => Some(
            LibraryLocation::Git(GitLocation::github("feenkcom", "libopenssl").tag(version)),
        ),
        None => None,
    };
    OpenSSLLibrary::new().with_release_location(release)
}

/// The ssl artefact of [`libopenssl`].
pub fn libssl(binary_version: Option<String>) -> (r: OpenSSLLibrary)
    ensures
        r.spec_artefact() == LibraryArtefact::Ssl,
        is_release_of(r.spec_release_location(), binary_version),
{
    libopenssl(binary_version).be_ssl()
}

/// The crypto artefact of [`libopenssl`].
pub fn libcrypto(binary_version: Option<String>) -> (r: OpenSSLLibrary)
    ensures
        r.spec_artefact() == LibraryArtefact::Crypto,
        is_release_of(r.spec_release_location(), binary_version),
{
    libopenssl(binary_version).be_crypto()
}

} // verus!
