//! The LLVM toolchain family: clang/clang++, the same flag grammar as GNU.

use vstd::prelude::*;

use crate::toolchain::{ToolChainTrait, ToolchainDesc, ToolchainView};

verus! {

/// The LLVM toolchain family.
pub struct LLVM {}

/// The contents of the LLVM descriptor table.
pub open spec fn llvm_table() -> ToolchainView {
    ToolchainView {
        cc: "clang"@,
        cxx: "clang++"@,
        debug_flag: "-g"@,
        executable_linker: "clang++"@,
        static_lib_linker: "ar"@,
        shared_lib_linker: "clang++"@,
        object_lib_linker: "clang++"@,
        executable_output_flag: "-o"@,
        static_lib_output_flag: "rcs"@,
        shared_lib_output_flag: "-shared -fPIC -o"@,
        object_lib_output_flag: "-o"@,
        executable_extension: ""@,
        static_lib_extension: "a"@,
        shared_lib_extension: "so"@,
        object_lib_extension: "o"@,
        only_compile_flag: "-c"@,
        define_flag_prefix: "-D"@,
        include_flag_prefix: "-I"@,
        link_dir_flag_prefix: "-L"@,
        link_lib_flag_prefix: "-l"@,
    }
}

impl ToolChainTrait for LLVM {
    open spec fn spec_table(&self) -> ToolchainView {
        llvm_table()
    }

    fn descriptor(&self) -> (d: ToolchainDesc) {
        let d = ToolchainDesc {
            cc: String::from_str("clang"),
            cxx: String::from_str("clang++"),
            debug_flag: String::from_str("-g"),
            executable_linker: String::from_str("clang++"),
            static_lib_linker: String::from_str("ar"),
            shared_lib_linker: String::from_str("clang++"),
            object_lib_linker: String::from_str("clang++"),
            executable_output_flag: String::from_str("-o"),
            static_lib_output_flag: String::from_str("rcs"),
            shared_lib_output_flag: String::from_str("-shared -fPIC -o"),
            object_lib_output_flag: String::from_str("-o"),
            executable_extension: String::from_str(""),
            static_lib_extension: String::from_str("a"),
            shared_lib_extension: String::from_str("so"),
            object_lib_extension: String::from_str("o"),
            only_compile_flag: String::from_str("-c"),
            define_flag_prefix: String::from_str("-D"),
            include_flag_prefix: String::from_str("-I"),
            link_dir_flag_prefix: String::from_str("-L"),
            link_lib_flag_prefix: String::from_str("-l"),
        };
        proof {
            assert(d@ =~= llvm_table());
        }
        d
    }
}

} // verus!
