//! The per-unit compile step: consult the staleness oracle, then either
//! reuse the cached object or assemble the compiler invocation. Running the
//! command is the caller's job; the outcome is recorded through
//! [`compile_result`].

use vstd::prelude::*;

use crate::cxon::{opt_views, CxonConfig};
use crate::error::BuildError;
use crate::output::Object;
use crate::paths::{extension_of, extension_str};
use crate::source::Source;
use crate::staleness::{is_stale, need_recompile};
use crate::strutil::{append_all, prefixed, str_eq};
use crate::toolchain::{ToolchainDesc, ToolchainView};

verus! {

/// One external process invocation: the program and its argument vector.
#[derive(Debug)]
pub struct Command {
    pub program: String,
    pub args: Vec<String>,
}

/// The C and C++ compiler executables of the active toolchain.
pub struct CompilerPair {
    pub cc: String,
    pub cxx: String,
}

impl CompilerPair {
    /// Reads the two compiler names out of the descriptor table.
    pub fn of_toolchain(desc: &ToolchainDesc) -> (r: CompilerPair)
        ensures
            r.cc@ == desc@.cc,
            r.cxx@ == desc@.cxx,
    {
        CompilerPair { cc: desc.cc.clone(), cxx: desc.cxx.clone() }
    }
}

/// Everything one compiler invocation needs.
pub struct CompileFuncArgs {
    pub src_path: String,
    pub obj_path: String,
    pub compiler: String,
    pub flags: Vec<String>,
    pub defines: Vec<String>,
    pub includes: Vec<String>,
}

/// A source whose extension is exactly `c` is compiled as C; every other
/// unit goes to the C++ compiler.
pub open spec fn is_c_source(p: Seq<char>) -> bool {
    extension_of(p) == Some("c"@)
}

/// The argument vector of one compiler invocation: debug flag, compile-only
/// flag, source path, object output flag, object path, then the include,
/// define and flag arguments.
pub open spec fn compile_cmd_args(
    desc: ToolchainView,
    src_path: Seq<char>,
    obj_path: Seq<char>,
    includes: Seq<Seq<char>>,
    defines: Seq<Seq<char>>,
    flags: Seq<Seq<char>>,
) -> Seq<Seq<char>> {
    seq![desc.debug_flag, desc.only_compile_flag, src_path, desc.object_lib_output_flag, obj_path]
        + includes + defines + flags
}

/// What one worker does for one unit: reuse the cached artifact, or run the
/// assembled compiler command and record its outcome.
pub enum CompileStep {
    /// The cached object is fresh; it stands as the unit's artifact.
    Reuse { object: Object },
    /// The unit is stale; run this command, then hand its exit status to
    /// [`compile_result`].
    Invoke { cmd: Command },
}

/// Decides one source unit's fate. The caller supplies the unit's object
/// path and the object's on-disk modification time (`None` when missing or
/// unreadable); no filesystem work happens here.
pub fn compile(
    desc: &ToolchainDesc,
    cfg: &CxonConfig,
    src: &Source,
    obj_path: String,
    obj_modified: Option<u64>,
) -> (r: CompileStep)
    ensures
        match r {
            CompileStep::Reuse { object } => {
                &&& !is_stale(src.modified, obj_modified)
                &&& object.path@ == obj_path@
                &&& object.modified == obj_modified
            },
            CompileStep::Invoke { cmd } => {
                &&& is_stale(src.modified, obj_modified)
                &&& cmd.program@ == (if is_c_source(src.path_spec()) {
                    desc@.cc
                } else {
                    desc@.cxx
                })
                &&& cmd.args.deep_view() == compile_cmd_args(
                    desc@,
                    src.path_spec(),
                    obj_path@,
                    prefixed(desc@.include_flag_prefix, opt_views(cfg.includes)),
                    prefixed(desc@.define_flag_prefix, opt_views(cfg.defines)),
                    opt_views(cfg.flags) + (if is_c_source(src.path_spec()) {
                        opt_views(cfg.cflags)
                    } else {
                        opt_views(cfg.cxxflags)
                    }),
                )
            },
        },
{
    if !need_recompile(src.modified, obj_modified) {
        return CompileStep::Reuse { object: Object { path: obj_path, modified: obj_modified } };
    }

    let is_c_file = match extension_str(src.get_path()) {
        Some(e) => str_eq(e.as_str(), "c"),
        None => false,
    };

    let pair = CompilerPair::of_toolchain(desc);
    let cmd = compile_handler(
        desc,
        CompileFuncArgs {
            src_path: String::from_str(src.get_path()),
            obj_path,
            compiler: if is_c_file {
                pair.cc
            } else {
                pair.cxx
            },
            flags: if is_c_file {
                cfg.get_cflags()
            } else {
                cfg.get_cxxflags()
            },
            defines: cfg.get_define_args(desc),
            includes: cfg.get_include_dir_args(desc),
        },
    );
    CompileStep::Invoke { cmd }
}

/// Assembles one compiler invocation from its pieces.
pub fn compile_handler(desc: &ToolchainDesc, args: CompileFuncArgs) -> (cmd: Command)
    ensures
        cmd.program == args.compiler,
        cmd.args.deep_view() == compile_cmd_args(
            desc@,
            args.src_path@,
            args.obj_path@,
            args.includes.deep_view(),
            args.defines.deep_view(),
            args.flags.deep_view(),
        ),
{
    let mut v: Vec<String> = Vec::new();
    v.push(desc.debug_flag.clone());
    v.push(desc.only_compile_flag.clone());
    v.push(args.src_path);
    v.push(desc.object_lib_output_flag.clone());
    v.push(args.obj_path);
    proof {
        assert(v.deep_view() =~= seq![
            desc@.debug_flag,
            desc@.only_compile_flag,
            args.src_path@,
            desc@.object_lib_output_flag,
            args.obj_path@,
        ]);
    }
    append_all(&mut v, &args.includes);
    append_all(&mut v, &args.defines);
    append_all(&mut v, &args.flags);
    Command { program: args.compiler, args: v }
}

/// Interprets a compiler invocation's exit status: success yields a fresh
/// artifact timestamped `now`; failure is fatal for the whole run.
pub fn compile_result(src_path: &str, obj_path: String, success: bool, now: u64) -> (r: Result<
    Object,
    BuildError,
>)
    ensures
        match r {
            Ok(object) => {
                &&& success
                &&& object.path@ == obj_path@
                &&& object.modified == Some(now)
            },
            Err(e) => {
                &&& !success
                &&& match e {
                    BuildError::CompileFailed { source } => source@ == src_path@,
                    _ => false,
                }
            },
        },
{
    if success {
        Ok(Object { path: obj_path, modified: Some(now) })
    } else {
        Err(BuildError::CompileFailed { source: String::from_str(src_path) })
    }
}

} // verus!
