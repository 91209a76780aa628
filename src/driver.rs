use vstd::prelude::*;
use crate::commands::{configure_command, configure_view, install_command, install_view};
use crate::context::CompilationContext;
use crate::library::{OpenSSLLibrary, build_dir_spec, prefix_spec};
use crate::text::{join, join_spec};
use crate::toolchain::{
    BuildError, CommandView, ProcessCommand, ToolchainEnvironment, all_found, check_tools,
    first_missing_is, fits_target, required_tools, required_tools_spec,
};

verus! {

/// Where a build stands.
#[derive(Clone, Debug)]
pub enum BuildState {
    /// Nothing has been checked yet.
    Idle,
    /// Every required tool is there; the prefix is being created.
    RequirementsChecked,
    /// The prefix exists; the configure marker is being looked for.
    PrefixReady,
    /// `Configure` is running.
    Configuring,
    /// The build tree is configured; the build and install command is running.
    Configured,
    /// The artefact is built and installed.
    Done,
    /// The build stopped, and why.
    Failed(BuildError),
}

/// What the world reports back to the driver.
#[derive(Clone, Debug)]
pub enum BuildEvent {
    /// For each required tool, in order, whether it is on `PATH`.
    ToolsProbed(Vec<bool>),
    /// Whether the prefix directory could be created.
    PrefixCreated(bool),
    /// Whether the configure marker (`<build_dir>/makefile`) exists.
    MakefileProbed(bool),
    /// Whether `Configure` exited with success.
    ConfigureExited(bool),
    /// Whether the build and install command exited with success.
    InstallExited(bool),
}

/// What the driver asks the world to do next.
#[derive(Clone, Debug)]
pub enum BuildAction {
    /// Create the directory and its parents.
    CreateDirectory(String),
    /// Tell whether the file exists.
    ProbeMakefile(String),
    /// Spawn the command and wait for it to exit.
    Run(ProcessCommand),
    /// Nothing more to do: the build is done or failed.
    Finish,
    /// The event does not fit the state; nothing changed.
    Wait,
}

/// `<build_root>/<name>/makefile`: its presence means the tree is configured.
pub open spec fn makefile_spec(build_root: Seq<char>, name: Seq<char>) -> Seq<char> {
    join_spec(build_dir_spec(build_root, name), "makefile"@)
}

pub open spec fn runs(a: BuildAction, c: CommandView) -> bool {
    a is Run && a->Run_0@ == c
}

/// The failure, and only it, is reported.
pub open spec fn fails_with(s2: BuildState, a: BuildAction, e: BuildError) -> bool {
    s2 == BuildState::Failed(e) && a is Finish
}

/// One transition of the build: from state `s` and event `e`, the next state
/// `s2` and the action `a` to perform.
pub open spec fn step_spec(
    lib: OpenSSLLibrary,
    ctx: CompilationContext,
    tc: ToolchainEnvironment,
    s: BuildState,
    e: BuildEvent,
    s2: BuildState,
    a: BuildAction,
) -> bool {
    let name = lib.spec_name();
    let tools = required_tools_spec(ctx.target);
    match (s, e) {
        (BuildState::Idle, BuildEvent::ToolsProbed(found)) => if all_found(
            found@,
            tools.len() as int,
        ) {
            s2 is RequirementsChecked && a is CreateDirectory && a->CreateDirectory_0@
                == prefix_spec(ctx.build_root@, name)
        } else {
            exists|k: int|
                first_missing_is(found@, tools.len() as int, k) && s2 is Failed
                    && s2->Failed_0 is MissingRequirement && s2->Failed_0->MissingRequirement_0@
                    == tools[k] && a is Finish
        },
        (BuildState::RequirementsChecked, BuildEvent::PrefixCreated(ok)) => if ok {
            s2 is PrefixReady && a is ProbeMakefile && a->ProbeMakefile_0@ == makefile_spec(
                ctx.build_root@,
                name,
            )
        } else {
            s2 is Failed && s2->Failed_0 is DirectoryNotCreated && s2->Failed_0->DirectoryNotCreated_0@
                == prefix_spec(ctx.build_root@, name) && a is Finish
        },
        (BuildState::PrefixReady, BuildEvent::MakefileProbed(exists)) => if exists {
            s2 is Configured && runs(a, install_view(lib, ctx, tc))
        } else {
            s2 is Configuring && runs(a, configure_view(lib, ctx, tc))
        },
        (BuildState::Configuring, BuildEvent::ConfigureExited(ok)) => if ok {
            s2 is Configured && runs(a, install_view(lib, ctx, tc))
        } else {
            fails_with(s2, a, BuildError::ConfigurationFailed(lib.spec_artefact()))
        },
        (BuildState::Configured, BuildEvent::InstallExited(ok)) => if ok {
            s2 is Done && a is Finish
        } else {
            fails_with(s2, a, BuildError::CompilationFailed(lib.spec_artefact()))
        },
        _ => s2 == s && a is Wait,
    }
}

/// Drives the build of one artefact: it decides, the caller performs what it
/// asks and reports back.
pub struct BuildDriver {
    library: OpenSSLLibrary,
    context: CompilationContext,
    toolchain: ToolchainEnvironment,
    state: BuildState,
}

impl BuildDriver {
    pub closed spec fn spec_library(&self) -> OpenSSLLibrary {
        self.library
    }

    pub closed spec fn spec_context(&self) -> CompilationContext {
        self.context
    }

    pub closed spec fn spec_toolchain(&self) -> ToolchainEnvironment {
        self.toolchain
    }

    pub closed spec fn spec_state(&self) -> BuildState {
        self.state
    }

    /// A driver in its idle state, when the toolchain is the kind the target
    /// is built with (the NDK's for Android, MSVC's for Windows, none else).
    pub fn new(
        library: OpenSSLLibrary,
        context: CompilationContext,
        toolchain: ToolchainEnvironment,
    ) -> (r: Option<Self>)
        ensures
            r is Some <==> fits_target(context.target, toolchain),
            r is Some ==> {
                &&& r->Some_0.spec_library() == library
                &&& r->Some_0.spec_context() == context
                &&& r->Some_0.spec_toolchain() == toolchain
                &&& r->Some_0.spec_state() is Idle
            },
    {
        let fits = if context.is_android() {
            matches!(toolchain, ToolchainEnvironment::Android(_))
        } else if context.is_windows() {
            matches!(toolchain, ToolchainEnvironment::Msvc { .. })
        } else {
            matches!(toolchain, ToolchainEnvironment::Native)
        };
        if fits {
            Some(BuildDriver { library, context, toolchain, state: BuildState::Idle })
        } else {
            None
        }
    }

    pub fn state(&self) -> (r: &BuildState)
        ensures
            *r == self.spec_state(),
    {
        &self.state
    }

    pub fn library(&self) -> (r: &OpenSSLLibrary)
        ensures
            *r == self.spec_library(),
    {
        &self.library
    }

    pub fn context(&self) -> (r: &CompilationContext)
        ensures
            *r == self.spec_context(),
    {
        &self.context
    }

    /// The tools to look for on `PATH` before anything else.
    pub fn required_tools(&self) -> (r: Vec<&'static str>)
        ensures
            r@.len() == required_tools_spec(self.spec_context().target).len(),
            forall|i: int|
                0 <= i < r@.len() ==> r@[i]@ == required_tools_spec(self.spec_context().target)[i],
    {
        required_tools(self.context.target)
    }

    /// Takes one event, moves to the next state and says what to do next.
    pub fn step(&mut self, event: BuildEvent) -> (r: BuildAction)
        ensures
            final(self).spec_library() == old(self).spec_library(),
            final(self).spec_context() == old(self).spec_context(),
            final(self).spec_toolchain() == old(self).spec_toolchain(),
            step_spec(
                old(self).spec_library(),
                old(self).spec_context(),
                old(self).spec_toolchain(),
                old(self).spec_state(),
                event,
                final(self).spec_state(),
                r,
            ),
    {
        match self.state {
            BuildState::Idle => {
                if let BuildEvent::ToolsProbed(found) = event {
                    let tools = required_tools(self.context.target);
                    match check_tools(&tools, &found) {
                        Ok(()) => {
                            self.state = BuildState::RequirementsChecked;
                            BuildAction::CreateDirectory(
                                self.library.native_library_prefix(&self.context),
                            )
                        },
                        Err(e) => {
                            self.state = BuildState::Failed(e);
                            BuildAction::Finish
                        },
                    }
                } else {
                    BuildAction::Wait
                }
            },
            BuildState::RequirementsChecked => {
                if let BuildEvent::PrefixCreated(ok) = event {
                    if ok {
                        self.state = BuildState::PrefixReady;
                        let dir = self.library.build_directory(&self.context);
                        BuildAction::ProbeMakefile(join(dir.as_str(), "makefile"))
                    } else {
                        let prefix = self.library.native_library_prefix(&self.context);
                        self.state = BuildState::Failed(BuildError::DirectoryNotCreated(prefix));
                        BuildAction::Finish
                    }
                } else {
                    BuildAction::Wait
                }
            },
            BuildState::PrefixReady => {
                if let BuildEvent::MakefileProbed(exists) = event {
                    if exists {
                        self.state = BuildState::Configured;
                        BuildAction::Run(
                            install_command(&self.library, &self.context, &self.toolchain),
                        )
                    } else {
                        self.state = BuildState::Configuring;
                        BuildAction::Run(
                            configure_command(&self.library, &self.context, &self.toolchain),
                        )
                    }
                } else {
                    BuildAction::Wait
                }
            },
            BuildState::Configuring => {
                if let BuildEvent::ConfigureExited(ok) = event {
                    if ok {
                        self.state = BuildState::Configured;
                        BuildAction::Run(
                            install_command(&self.library, &self.context, &self.toolchain),
                        )
                    } else {
                        self.state = BuildState::Failed(
                            BuildError::ConfigurationFailed(self.library.artefact()),
                        );
                        BuildAction::Finish
                    }
                } else {
                    BuildAction::Wait
                }
            },
            BuildState::Configured => {
                if let BuildEvent::InstallExited(ok) = event {
                    if ok {
                        self.state = BuildState::Done;
                    } else {
                        self.state = BuildState::Failed(
                            BuildError::CompilationFailed(self.library.artefact()),
                        );
                    }
                    BuildAction::Finish
                } else {
                    BuildAction::Wait
                }
            },
            _ => BuildAction::Wait,
        }
    }
}

} // verus!
