//! The resolved project configuration: everything the orchestration pass
//! reads. The caller parses and canonicalizes it; validation of the build
//! settings and the derivation of compiler/linker argument lists happen here.

use vstd::prelude::*;

use crate::error::BuildError;
use crate::strutil::{eq_ignore_case, lower, prefix_each, prefixed, str_eq, append_all};
use crate::toolchain::{TargetType, ToolChain, ToolchainDesc};

verus! {

/// The character sequences of an optional string list; an absent list reads
/// as empty.
pub open spec fn opt_views(v: Option<Vec<String>>) -> Seq<Seq<char>> {
    match v {
        Some(x) => x.deep_view(),
        None => Seq::<Seq<char>>::empty(),
    }
}

/// The target-type names the configuration accepts, up to ASCII case.
pub open spec fn target_type_ok(tt: Seq<char>) -> bool {
    ||| lower(tt) == lower("executable"@)
    ||| lower(tt) == lower("static_lib"@)
    ||| lower(tt) == lower("shared_lib"@)
    ||| lower(tt) == lower("object_lib"@)
}

/// The target type a valid name denotes.
pub open spec fn spec_target_type(tt: Seq<char>) -> TargetType {
    if lower(tt) == lower("object_lib"@) {
        TargetType::ObjectLib
    } else if lower(tt) == lower("executable"@) {
        TargetType::Executable
    } else if lower(tt) == lower("static_lib"@) {
        TargetType::StaticLib
    } else {
        TargetType::SharedLib
    }
}

/// The toolchain names the configuration accepts (exactly, as validation
/// spells them).
pub open spec fn toolchain_ok(tc: Seq<char>) -> bool {
    ||| tc == "gnu"@
    ||| tc == "llvm"@
    ||| tc == "msvc"@
}

/// A toolchain name accepted up to ASCII case, as [`CxonConfig::get_toolchain`]
/// reads it.
pub open spec fn toolchain_known(tc: Seq<char>) -> bool {
    ||| lower(tc) == lower("gnu"@)
    ||| lower(tc) == lower("llvm"@)
    ||| lower(tc) == lower("msvc"@)
}

/// The toolchain family a known name denotes.
pub open spec fn spec_toolchain(tc: Seq<char>) -> ToolChain {
    if lower(tc) == lower("gnu"@) {
        ToolChain::GNU()
    } else if lower(tc) == lower("llvm"@) {
        ToolChain::LLVM()
    } else {
        ToolChain::MSVC()
    }
}

/// The fully-resolved configuration: source list, directories, flags,
/// defines, search paths, thread count, target and toolchain selection.
/// Paths are absolute and canonical; the caller resolves them before
/// handing the value over.
#[derive(Debug)]
pub struct CxonConfig {
    pub project: String,
    pub target_name: Option<String>,
    pub target_type: String,
    pub export_compile_commands: bool,
    pub export_compile_commands_path: Option<String>,
    pub toolchain: String,
    pub cc: Option<String>,
    pub cxx: Option<String>,
    pub threads: Option<usize>,
    pub build_dir: String,
    pub output_dir: String,
    pub debug: bool,
    pub flags: Option<Vec<String>>,
    pub cflags: Option<Vec<String>>,
    pub cxxflags: Option<Vec<String>>,
    pub sources: Option<Vec<String>>,
    pub defines: Option<Vec<String>>,
    pub includes: Option<Vec<String>>,
    pub link: Option<Vec<String>>,
    pub libs: Option<Vec<String>>,
}

impl CxonConfig {
    /// The configuration passes validation when the target type and
    /// toolchain names are supported and at least one source is given.
    pub open spec fn ready(&self) -> bool {
        &&& target_type_ok(self.target_type@)
        &&& match self.sources {
            Some(s) => s.len() > 0,
            None => false,
        }
        &&& toolchain_ok(self.toolchain@)
    }

    /// Validates the build settings: the target type must be supported, at
    /// least one source must be listed, and the toolchain must be one of
    /// `gnu`, `llvm`, `msvc`. A missing target name defaults to the project
    /// name; everything else is passed through unchanged. Errors are
    /// reported in that order, one per run.
    pub fn is_ready(self) -> (r: Result<CxonConfig, BuildError>)
        ensures
            match r {
                Ok(c) => {
                    &&& self.ready()
                    &&& c == (CxonConfig { target_name: c.target_name, ..self })
                    &&& match (c.target_name, self.target_name) {
                        (Some(n), Some(n0)) => n == n0,
                        (Some(n), None) => n == self.project,
                        _ => false,
                    }
                    &&& c.ready()
                },
                Err(e) => {
                    &&& !self.ready()
                    &&& match e {
                        BuildError::UnsupportedTargetType { name } => {
                            &&& name == self.target_type
                            &&& !target_type_ok(self.target_type@)
                        },
                        BuildError::NoSources => {
                            &&& target_type_ok(self.target_type@)
                            &&& match self.sources {
                                Some(s) => s.len() == 0,
                                None => true,
                            }
                        },
                        BuildError::UnsupportedToolchain { name } => {
                            &&& name == self.toolchain
                            &&& target_type_ok(self.target_type@)
                            &&& match self.sources {
                                Some(s) => s.len() > 0,
                                None => false,
                            }
                            &&& !toolchain_ok(self.toolchain@)
                        },
                        _ => false,
                    }
                },
            },
    {
        let mut cfg = self;

        let tt = cfg.target_type.as_str();
        if !(eq_ignore_case(tt, "executable") || eq_ignore_case(tt, "static_lib")
            || eq_ignore_case(tt, "shared_lib") || eq_ignore_case(tt, "object_lib")) {
            let name = cfg.target_type;
            return Err(BuildError::UnsupportedTargetType { name });
        }

        let sources_ok = match &cfg.sources {
            Some(s) => s.len() > 0,
            None => false,
        };
        if !sources_ok {
            return Err(BuildError::NoSources);
        }

        let tc = cfg.toolchain.as_str();
        if !(str_eq(tc, "gnu") || str_eq(tc, "llvm") || str_eq(tc, "msvc")) {
            let name = cfg.toolchain;
            return Err(BuildError::UnsupportedToolchain { name });
        }

        if cfg.target_name.is_none() {
            cfg.target_name = Some(cfg.project.clone());
        }

        Ok(cfg)
    }

    /// The name of the final artifact (validation guarantees one is set).
    pub fn get_target_name(&self) -> (r: String)
        requires
            self.target_name is Some,
        ensures
            r == self.target_name->0,
    {
        match &self.target_name {
            Some(n) => n.clone(),
            None => String::new(),
        }
    }

    /// The requested target type. Validation guarantees the name is one of
    /// the four supported spellings.
    pub fn get_target_type(&self) -> (r: TargetType)
        requires
            target_type_ok(self.target_type@),
        ensures
            r == spec_target_type(self.target_type@),
    {
        let tt = self.target_type.as_str();
        if eq_ignore_case(tt, "object_lib") {
            TargetType::ObjectLib
        } else if eq_ignore_case(tt, "executable") {
            TargetType::Executable
        } else if eq_ignore_case(tt, "static_lib") {
            TargetType::StaticLib
        } else {
            TargetType::SharedLib
        }
    }

    /// The selected toolchain family.
    pub fn get_toolchain(&self) -> (r: ToolChain)
        requires
            toolchain_known(self.toolchain@),
        ensures
            r == spec_toolchain(self.toolchain@),
    {
        let tc = self.toolchain.as_str();
        if eq_ignore_case(tc, "gnu") {
            ToolChain::GNU()
        } else if eq_ignore_case(tc, "llvm") {
            ToolChain::LLVM()
        } else {
            ToolChain::MSVC()
        }
    }

    /// Whether compile and link commands carry the debug-info flag.
    pub fn get_debug_flag(&self) -> (r: bool)
        ensures
            r == self.debug,
    {
        self.debug
    }

    /// The flags common to C and C++ compilations.
    fn get_compiler_flags(&self) -> (r: Vec<String>)
        ensures
            r.deep_view() == opt_views(self.flags),
    {
        let mut flags: Vec<String> = Vec::new();
        if let Some(f) = &self.flags {
            append_all(&mut flags, f);
        }
        proof {
            assert(flags.deep_view() =~= opt_views(self.flags));
        }
        flags
    }

    /// The flag list for a C compilation: the common flags, then the
    /// C-specific ones.
    pub fn get_cflags(&self) -> (r: Vec<String>)
        ensures
            r.deep_view() == opt_views(self.flags) + opt_views(self.cflags),
    {
        let mut flags = self.get_compiler_flags();
        if let Some(f) = &self.cflags {
            append_all(&mut flags, f);
        }
        proof {
            assert(flags.deep_view() =~= opt_views(self.flags) + opt_views(self.cflags));
        }
        flags
    }

    /// The flag list for a C++ compilation: the common flags, then the
    /// C++-specific ones.
    pub fn get_cxxflags(&self) -> (r: Vec<String>)
        ensures
            r.deep_view() == opt_views(self.flags) + opt_views(self.cxxflags),
    {
        let mut flags = self.get_compiler_flags();
        if let Some(f) = &self.cxxflags {
            append_all(&mut flags, f);
        }
        proof {
            assert(flags.deep_view() =~= opt_views(self.flags) + opt_views(self.cxxflags));
        }
        flags
    }

    /// One argument per configured macro definition, carrying the
    /// toolchain's define prefix.
    pub fn get_define_args(&self, desc: &ToolchainDesc) -> (r: Vec<String>)
        ensures
            r.deep_view() == prefixed(desc@.define_flag_prefix, opt_views(self.defines)),
    {
        match &self.defines {
            Some(defines) => prefix_each(desc.define_flag_prefix.as_str(), defines),
            None => {
                proof {
                    assert(prefixed(desc@.define_flag_prefix, opt_views(self.defines))
                        =~= Seq::<Seq<char>>::empty());
                }
                Vec::new()
            },
        }
    }

    /// One argument per configured include directory, carrying the
    /// toolchain's include prefix.
    pub fn get_include_dir_args(&self, desc: &ToolchainDesc) -> (r: Vec<String>)
        ensures
            r.deep_view() == prefixed(desc@.include_flag_prefix, opt_views(self.includes)),
    {
        match &self.includes {
            Some(dirs) => prefix_each(desc.include_flag_prefix.as_str(), dirs),
            None => {
                proof {
                    assert(prefixed(desc@.include_flag_prefix, opt_views(self.includes))
                        =~= Seq::<Seq<char>>::empty());
                }
                Vec::new()
            },
        }
    }

    /// One argument per configured link directory, carrying the toolchain's
    /// link-directory prefix.
    pub fn get_link_dir_args(&self, desc: &ToolchainDesc) -> (r: Vec<String>)
        ensures
            r.deep_view() == prefixed(desc@.link_dir_flag_prefix, opt_views(self.link)),
    {
        match &self.link {
            Some(dirs) => prefix_each(desc.link_dir_flag_prefix.as_str(), dirs),
            None => {
                proof {
                    assert(prefixed(desc@.link_dir_flag_prefix, opt_views(self.link))
                        =~= Seq::<Seq<char>>::empty());
                }
                Vec::new()
            },
        }
    }

    /// One argument per configured library, carrying the toolchain's
    /// link-library prefix.
    pub fn get_lib_args(&self, desc: &ToolchainDesc) -> (r: Vec<String>)
        ensures
            r.deep_view() == prefixed(desc@.link_lib_flag_prefix, opt_views(self.libs)),
    {
        match &self.libs {
            Some(libs) => prefix_each(desc.link_lib_flag_prefix.as_str(), libs),
            None => {
                proof {
                    assert(prefixed(desc@.link_lib_flag_prefix, opt_views(self.libs))
                        =~= Seq::<Seq<char>>::empty());
                }
                Vec::new()
            },
        }
    }
}

/// The target type assumed when the configuration names none.
pub fn default_target_type() -> (r: String)
    ensures
        r@ == "executable"@,
{
    String::from_str("executable")
}

/// The build directory assumed when the configuration names none.
pub fn default_build_dir() -> (r: String)
    ensures
        r@ == "./build"@,
{
    String::from_str("./build")
}

/// The output directory assumed when the configuration names none.
pub fn default_output_dir() -> (r: String)
    ensures
        r@ == "./output"@,
{
    String::from_str("./output")
}

/// By default no compile-command database is exported.
pub fn default_export_compile_commands() -> (r: bool)
    ensures
        !r,
{
    false
}

/// By default builds carry debug information.
pub fn default_debug_flag() -> (r: bool)
    ensures
        r,
{
    true
}

} // verus!
