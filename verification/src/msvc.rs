//! The MSVC toolchain family: cl/link/lib, `/` prefixed flags, per-target
//! output-flag spellings of their own.

use vstd::prelude::*;

use crate::toolchain::{ToolChainTrait, ToolchainDesc, ToolchainView};

verus! {

/// The MSVC toolchain family.
pub struct MSVC {}

/// The contents of the MSVC descriptor table.
pub open spec fn msvc_table() -> ToolchainView {
    ToolchainView {
        cc: "cl"@,
        cxx: "cl"@,
        debug_flag: "/Zi"@,
        executable_linker: "cl"@,
        static_lib_linker: "lib"@,
        shared_lib_linker: "link"@,
        object_lib_linker: "lib"@,
        executable_output_flag: "/Fe:"@,
        static_lib_output_flag: "/OUT:"@,
        shared_lib_output_flag: "/OUT:"@,
        object_lib_output_flag: "/Fo:"@,
        executable_extension: "exe"@,
        static_lib_extension: "lib"@,
        shared_lib_extension: "dll"@,
        object_lib_extension: "obj"@,
        only_compile_flag: "/c"@,
        define_flag_prefix: "/D"@,
        include_flag_prefix: "/I"@,
        link_dir_flag_prefix: "/LIBPATH:"@,
        link_lib_flag_prefix: "/LD"@,
    }
}

impl ToolChainTrait for MSVC {
    open spec fn spec_table(&self) -> ToolchainView {
        msvc_table()
    }

    fn descriptor(&self) -> (d: ToolchainDesc) {
        let d = ToolchainDesc {
            cc: String::from_str("cl"),
            cxx: String::from_str("cl"),
            debug_flag: String::from_str("/Zi"),
            executable_linker: String::from_str("cl"),
            static_lib_linker: String::from_str("lib"),
            shared_lib_linker: String::from_str("link"),
            object_lib_linker: String::from_str("lib"),
            executable_output_flag: String::from_str("/Fe:"),
            static_lib_output_flag: String::from_str("/OUT:"),
            shared_lib_output_flag: String::from_str("/OUT:"),
            object_lib_output_flag: String::from_str("/Fo:"),
            executable_extension: String::from_str("exe"),
            static_lib_extension: String::from_str("lib"),
            shared_lib_extension: String::from_str("dll"),
            object_lib_extension: String::from_str("obj"),
            only_compile_flag: String::from_str("/c"),
            define_flag_prefix: String::from_str("/D"),
            include_flag_prefix: String::from_str("/I"),
            link_dir_flag_prefix: String::from_str("/LIBPATH:"),
            link_lib_flag_prefix: String::from_str("/LD"),
        };
        proof {
            assert(d@ =~= msvc_table());
        }
        d
    }
}

} // verus!
