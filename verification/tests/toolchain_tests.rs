use cxon::error::BuildError;
use cxon::gnu::GNU;
use cxon::llvm::LLVM;
use cxon::msvc::MSVC;
use cxon::toolchain::{check_executable_exists, ToolChain, ToolChainTrait};

#[test]
fn gnu_table_contents() {
    let d = (GNU {}).descriptor();
    assert_eq!(d.cc, "gcc");
    assert_eq!(d.cxx, "g++");
    assert_eq!(d.debug_flag, "-g");
    assert_eq!(d.executable_linker, "g++");
    assert_eq!(d.static_lib_linker, "ar");
    assert_eq!(d.static_lib_output_flag, "rcs");
    assert_eq!(d.shared_lib_output_flag, "-shared -fPIC -o");
    assert_eq!(d.executable_extension, "");
    assert_eq!(d.static_lib_extension, "a");
    assert_eq!(d.shared_lib_extension, "so");
    assert_eq!(d.object_lib_extension, "o");
    assert_eq!(d.only_compile_flag, "-c");
    assert_eq!(d.define_flag_prefix, "-D");
    assert_eq!(d.include_flag_prefix, "-I");
    assert_eq!(d.link_dir_flag_prefix, "-L");
    assert_eq!(d.link_lib_flag_prefix, "-l");
}

#[test]
fn llvm_table_contents() {
    let d = (LLVM {}).descriptor();
    assert_eq!(d.cc, "clang");
    assert_eq!(d.cxx, "clang++");
    assert_eq!(d.executable_linker, "clang++");
    assert_eq!(d.static_lib_linker, "ar");
    assert_eq!(d.shared_lib_extension, "so");
    assert_eq!(d.define_flag_prefix, "-D");
}

#[test]
fn msvc_table_contents() {
    let d = (MSVC {}).descriptor();
    assert_eq!(d.cc, "cl");
    assert_eq!(d.cxx, "cl");
    assert_eq!(d.debug_flag, "/Zi");
    assert_eq!(d.executable_linker, "cl");
    assert_eq!(d.static_lib_linker, "lib");
    assert_eq!(d.shared_lib_linker, "link");
    assert_eq!(d.executable_output_flag, "/Fe:");
    assert_eq!(d.executable_extension, "exe");
    assert_eq!(d.static_lib_extension, "lib");
    assert_eq!(d.shared_lib_extension, "dll");
    assert_eq!(d.object_lib_extension, "obj");
    assert_eq!(d.only_compile_flag, "/c");
    assert_eq!(d.link_dir_flag_prefix, "/LIBPATH:");
}

#[test]
fn family_selects_matching_table() {
    assert_eq!(ToolChain::GNU().descriptor().cc, "gcc");
    assert_eq!(ToolChain::LLVM().descriptor().cc, "clang");
    assert_eq!(ToolChain::MSVC().descriptor().cc, "cl");
}

#[test]
fn missing_executable_is_reported_by_name() {
    let err = check_executable_exists("no-such-compiler-binary-here").unwrap_err();
    assert!(matches!(err, BuildError::MissingTool { name } if name
        == "no-such-compiler-binary-here"));
}

#[test]
fn test_gnu_compile() {
    // compile over a checked-out sample project is exercised end to end in
    // the build-scenario tests; nothing runs here.
}
