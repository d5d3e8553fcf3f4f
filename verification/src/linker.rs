//! The link stage: given the frozen object collection and the requested
//! target type, assemble exactly one linker/archiver invocation. Each target
//! type selects its own command shape out of the active toolchain's table.

use vstd::prelude::*;

use crate::compiler::Command;
use crate::cxon::{opt_views, CxonConfig};
use crate::error::BuildError;
use crate::output::ObjectCollection;
use crate::paths::{added_extension, joined, add_extension_str, join_str};
use crate::strutil::{append_all, prefixed, split_sp, split_ws};
use crate::toolchain::{TargetType, ToolchainDesc, ToolchainView};

verus! {

/// Everything one link invocation needs besides the objects themselves.
pub struct LinkArgs {
    pub linker: String,
    pub output_path: String,
    pub output_flag: String,
    pub other_flags: Vec<String>,
    pub link_dir_args: Vec<String>,
    pub link_lib_args: Vec<String>,
}

/// Arguments of an executable link: debug flag, every object path, the
/// output flag, the output path with the executable extension added, then
/// link directories and libraries.
pub open spec fn executable_link_args(
    desc: ToolchainView,
    paths: Seq<Seq<char>>,
    out: Seq<char>,
    dirs: Seq<Seq<char>>,
    libs: Seq<Seq<char>>,
) -> Seq<Seq<char>> {
    seq![desc.debug_flag] + paths + seq![
        desc.executable_output_flag,
        added_extension(out, desc.executable_extension),
    ] + dirs + libs
}

/// Arguments of a static-library link: the archiver's output flag tokens,
/// the output path with the static extension appended, every object path,
/// then link directories and libraries.
pub open spec fn static_lib_link_args(
    desc: ToolchainView,
    paths: Seq<Seq<char>>,
    out: Seq<char>,
    dirs: Seq<Seq<char>>,
    libs: Seq<Seq<char>>,
) -> Seq<Seq<char>> {
    split_sp(desc.static_lib_output_flag) + seq![
        added_extension(out, desc.static_lib_extension),
    ] + paths + dirs + libs
}

/// Arguments of a shared-library link: debug flag, the shared output flag
/// tokens, the output path with the shared extension appended, every object
/// path, then link directories and libraries.
pub open spec fn shared_lib_link_args(
    desc: ToolchainView,
    paths: Seq<Seq<char>>,
    out: Seq<char>,
    dirs: Seq<Seq<char>>,
    libs: Seq<Seq<char>>,
) -> Seq<Seq<char>> {
    seq![desc.debug_flag] + split_sp(desc.shared_lib_output_flag) + seq![
        added_extension(out, desc.shared_lib_extension),
    ] + paths + dirs + libs
}

/// Arguments of a relocatable-object link: debug flag, every object path,
/// the object output flag tokens, the output path with the object extension
/// appended, then link directories and libraries.
pub open spec fn object_lib_link_args(
    desc: ToolchainView,
    paths: Seq<Seq<char>>,
    out: Seq<char>,
    dirs: Seq<Seq<char>>,
    libs: Seq<Seq<char>>,
) -> Seq<Seq<char>> {
    seq![desc.debug_flag] + paths + split_sp(desc.object_lib_output_flag) + seq![
        added_extension(out, desc.object_lib_extension),
    ] + dirs + libs
}

/// Assembles the one link invocation of the run: the target type selects
/// the linker/archiver and the command shape out of the descriptor table.
/// An empty object collection is an error; nothing else fails.
pub fn link(
    desc: &ToolchainDesc,
    cfg: &CxonConfig,
    input: &ObjectCollection,
    target_type: TargetType,
) -> (r: Result<Command, BuildError>)
    requires
        cfg.target_name is Some,
    ensures
        ({
            let out = joined(cfg.output_dir@, cfg.target_name->0@);
            let paths = input.paths();
            let dirs = prefixed(desc@.link_dir_flag_prefix, opt_views(cfg.link));
            let libs = prefixed(desc@.link_lib_flag_prefix, opt_views(cfg.libs));
            match r {
                Ok(cmd) => {
                    &&& input.objects@.len() > 0
                    &&& match target_type {
                        TargetType::Executable => {
                            &&& cmd.program@ == desc@.executable_linker
                            &&& cmd.args.deep_view() == executable_link_args(
                                desc@,
                                paths,
                                out,
                                dirs,
                                libs,
                            )
                        },
                        TargetType::StaticLib => {
                            &&& cmd.program@ == desc@.static_lib_linker
                            &&& cmd.args.deep_view() == static_lib_link_args(
                                desc@,
                                paths,
                                out,
                                dirs,
                                libs,
                            )
                        },
                        TargetType::SharedLib => {
                            &&& cmd.program@ == desc@.shared_lib_linker
                            &&& cmd.args.deep_view() == shared_lib_link_args(
                                desc@,
                                paths,
                                out,
                                dirs,
                                libs,
                            )
                        },
                        TargetType::ObjectLib => {
                            &&& cmd.program@ == desc@.object_lib_linker
                            &&& cmd.args.deep_view() == object_lib_link_args(
                                desc@,
                                paths,
                                out,
                                dirs,
                                libs,
                            )
                        },
                    }
                },
                Err(e) => {
                    &&& input.objects@.len() == 0
                    &&& e == BuildError::NoObjects
                },
            }
        }),
{
    if input.objects.len() == 0 {
        return Err(BuildError::NoObjects);
    }

    let target_name = cfg.get_target_name();
    let output_path = join_str(cfg.output_dir.as_str(), target_name.as_str());

    let cmd = match target_type {
        TargetType::Executable => link_to_executable_cmd(
            desc,
            input,
            LinkArgs {
                linker: desc.executable_linker.clone(),
                output_path,
                output_flag: desc.executable_output_flag.clone(),
                other_flags: Vec::new(),
                link_dir_args: cfg.get_link_dir_args(desc),
                link_lib_args: cfg.get_lib_args(desc),
            },
        ),
        TargetType::StaticLib => link_to_static_lib_cmd(
            desc,
            input,
            LinkArgs {
                linker: desc.static_lib_linker.clone(),
                output_path,
                output_flag: desc.static_lib_output_flag.clone(),
                other_flags: Vec::new(),
                link_dir_args: cfg.get_link_dir_args(desc),
                link_lib_args: cfg.get_lib_args(desc),
            },
        ),
        TargetType::SharedLib => link_to_shared_lib_cmd(
            desc,
            input,
            LinkArgs {
                linker: desc.shared_lib_linker.clone(),
                output_path,
                output_flag: desc.shared_lib_output_flag.clone(),
                other_flags: Vec::new(),
                link_dir_args: cfg.get_link_dir_args(desc),
                link_lib_args: cfg.get_lib_args(desc),
            },
        ),
        TargetType::ObjectLib => link_to_object_cmd(
            desc,
            input,
            LinkArgs {
                linker: desc.object_lib_linker.clone(),
                output_path,
                output_flag: desc.object_lib_output_flag.clone(),
                other_flags: Vec::new(),
                link_dir_args: cfg.get_link_dir_args(desc),
                link_lib_args: cfg.get_lib_args(desc),
            },
        ),
    };
    Ok(cmd)
}

/// The executable command shape.
pub fn link_to_executable_cmd(desc: &ToolchainDesc, input: &ObjectCollection, args: LinkArgs) -> (cmd:
    Command)
    ensures
        cmd.program == args.linker,
        cmd.args.deep_view() == executable_link_args(
            desc@,
            input.paths(),
            args.output_path@,
            args.link_dir_args.deep_view(),
            args.link_lib_args.deep_view(),
        ),
{
    let mut v: Vec<String> = Vec::new();
    v.push(desc.debug_flag.clone());
    proof {
        assert(v.deep_view() =~= seq![desc@.debug_flag]);
    }
    let objs = input.to_args();
    append_all(&mut v, &objs);
    let ghost before = v.deep_view();
    v.push(desc.executable_output_flag.clone());
    v.push(add_extension_str(args.output_path.as_str(), desc.executable_extension.as_str()));
    proof {
        assert(v.deep_view() =~= before + seq![
            desc@.executable_output_flag,
            added_extension(args.output_path@, desc@.executable_extension),
        ]);
    }
    append_all(&mut v, &args.link_dir_args);
    append_all(&mut v, &args.link_lib_args);
    Command { program: args.linker, args: v }
}

/// The static-library (archiver) command shape.
pub fn link_to_static_lib_cmd(desc: &ToolchainDesc, input: &ObjectCollection, args: LinkArgs) -> (cmd:
    Command)
    ensures
        cmd.program == args.linker,
        cmd.args.deep_view() == static_lib_link_args(
            desc@,
            input.paths(),
            args.output_path@,
            args.link_dir_args.deep_view(),
            args.link_lib_args.deep_view(),
        ),
{
    let mut v = split_ws(desc.static_lib_output_flag.as_str());
    let ghost head = v.deep_view();
    v.push(add_extension_str(args.output_path.as_str(), desc.static_lib_extension.as_str()));
    proof {
        assert(v.deep_view() =~= head + seq![
            added_extension(args.output_path@, desc@.static_lib_extension),
        ]);
    }
    let objs = input.to_args();
    append_all(&mut v, &objs);
    append_all(&mut v, &args.link_dir_args);
    append_all(&mut v, &args.link_lib_args);
    Command { program: args.linker, args: v }
}

/// The shared-library command shape.
pub fn link_to_shared_lib_cmd(desc: &ToolchainDesc, input: &ObjectCollection, args: LinkArgs) -> (cmd:
    Command)
    ensures
        cmd.program == args.linker,
        cmd.args.deep_view() == shared_lib_link_args(
            desc@,
            input.paths(),
            args.output_path@,
            args.link_dir_args.deep_view(),
            args.link_lib_args.deep_view(),
        ),
{
    let mut v: Vec<String> = Vec::new();
    v.push(desc.debug_flag.clone());
    proof {
        assert(v.deep_view() =~= seq![desc@.debug_flag]);
    }
    let flag_tokens = split_ws(desc.shared_lib_output_flag.as_str());
    append_all(&mut v, &flag_tokens);
    let ghost head = v.deep_view();
    v.push(add_extension_str(args.output_path.as_str(), desc.shared_lib_extension.as_str()));
    proof {
        assert(v.deep_view() =~= head + seq![
            added_extension(args.output_path@, desc@.shared_lib_extension),
        ]);
    }
    let objs = input.to_args();
    append_all(&mut v, &objs);
    append_all(&mut v, &args.link_dir_args);
    append_all(&mut v, &args.link_lib_args);
    Command { program: args.linker, args: v }
}

/// The relocatable-object command shape.
pub fn link_to_object_cmd(desc: &ToolchainDesc, input: &ObjectCollection, args: LinkArgs) -> (cmd:
    Command)
    ensures
        cmd.program == args.linker,
        cmd.args.deep_view() == object_lib_link_args(
            desc@,
            input.paths(),
            args.output_path@,
            args.link_dir_args.deep_view(),
            args.link_lib_args.deep_view(),
        ),
{
    let mut v: Vec<String> = Vec::new();
    v.push(desc.debug_flag.clone());
    proof {
        assert(v.deep_view() =~= seq![desc@.debug_flag]);
    }
    let objs = input.to_args();
    append_all(&mut v, &objs);
    let flag_tokens = split_ws(desc.object_lib_output_flag.as_str());
    append_all(&mut v, &flag_tokens);
    let ghost head = v.deep_view();
    v.push(add_extension_str(args.output_path.as_str(), desc.object_lib_extension.as_str()));
    proof {
        assert(v.deep_view() =~= head + seq![
            added_extension(args.output_path@, desc@.object_lib_extension),
        ]);
    }
    append_all(&mut v, &args.link_dir_args);
    append_all(&mut v, &args.link_lib_args);
    Command { program: args.linker, args: v }
}

/// Interprets a link invocation's exit status: a non-zero status is fatal
/// for the whole run, and the error names the artifact that failed to link.
pub fn link_result(output: &str, success: bool) -> (r: Result<(), BuildError>)
    ensures
        match r {
            Ok(_) => success,
            Err(e) => {
                &&& !success
                &&& match e {
                    BuildError::LinkFailed { output: o } => o@ == output@,
                    _ => false,
                }
            },
        },
{
    if success {
        Ok(())
    } else {
        Err(BuildError::LinkFailed { output: String::from_str(output) })
    }
}

} // verus!
