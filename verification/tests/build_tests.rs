use cxon::compiler::{compile, compile_result, CompileStep};
use cxon::cxon::CxonConfig;
use cxon::error::BuildError;
use cxon::gnu::GNU;
use cxon::linker::{link, link_result};
use cxon::msvc::MSVC;
use cxon::output::{Object, ObjectCollection};
use cxon::source::Source;
use cxon::toolchain::{TargetType, ToolChainTrait, ToolchainDesc};
use cxon::utils::get_object_target_path;

fn demo_cfg() -> CxonConfig {
    CxonConfig {
        project: "demo".to_string(),
        target_name: Some("demo".to_string()),
        target_type: "executable".to_string(),
        export_compile_commands: false,
        export_compile_commands_path: None,
        toolchain: "gnu".to_string(),
        cc: None,
        cxx: None,
        threads: None,
        build_dir: "/b".to_string(),
        output_dir: "/out".to_string(),
        debug: true,
        flags: None,
        cflags: None,
        cxxflags: None,
        sources: Some(vec!["/proj/a.c".to_string(), "/proj/b.cpp".to_string()]),
        defines: None,
        includes: None,
        link: None,
        libs: None,
    }
}

fn collection(paths: &[&str]) -> ObjectCollection {
    let mut col = ObjectCollection::new();
    for p in paths {
        col.push(Object { path: p.to_string(), modified: Some(1) });
    }
    col
}

#[test]
fn source_unit_accepts_c_and_cpp_extensions() {
    for p in ["/p/a.c", "/p/a.cpp", "/p/a.cxx", "/p/a.cc", "/p/a.h", "/p/a.hpp", "/p/a.hh",
        "/p/a.hxx"] {
        assert!(Source::new(p.to_string(), Some(1)).is_ok());
    }
}

#[test]
fn source_unit_rejects_foreign_extensions() {
    // Extension validation: rejected before any subprocess could be spawned.
    let err = Source::new("/p/tool.py".to_string(), Some(1)).unwrap_err();
    assert!(matches!(err, BuildError::InvalidSourceExtension { path } if path == "/p/tool.py"));
    assert!(Source::new("/p/Makefile".to_string(), None).is_err());
    assert!(Source::new("/p/a.rs".to_string(), None).is_err());
}

#[test]
fn object_path_mirrors_source_under_build_dir() {
    let src = Source::new("/proj/src/a.c".to_string(), Some(1)).unwrap();
    let obj = get_object_target_path(&src, "/proj", "/b", "o").unwrap();
    assert_eq!(obj, "/b/src/a.o");
}

#[test]
fn object_path_uses_toolchain_object_extension() {
    let src = Source::new("/proj/a.cpp".to_string(), Some(1)).unwrap();
    assert_eq!(get_object_target_path(&src, "/proj", "/b", "obj").unwrap(), "/b/a.obj");
}

#[test]
fn fresh_object_is_reused_without_a_command() {
    let desc = (GNU {}).descriptor();
    let cfg = demo_cfg();
    let src = Source::new("/proj/a.c".to_string(), Some(5)).unwrap();
    match compile(&desc, &cfg, &src, "/b/a.o".to_string(), Some(9)) {
        CompileStep::Reuse { object } => {
            assert_eq!(object.path, "/b/a.o");
            assert_eq!(object.modified, Some(9));
        },
        CompileStep::Invoke { .. } => panic!("fresh object must be reused"),
    }
}

#[test]
fn stale_c_unit_gets_a_c_compiler_command() {
    let desc = (GNU {}).descriptor();
    let mut cfg = demo_cfg();
    cfg.flags = Some(vec!["-O2".to_string()]);
    cfg.cflags = Some(vec!["-std=c11".to_string()]);
    cfg.cxxflags = Some(vec!["-std=c++17".to_string()]);
    cfg.defines = Some(vec!["FOO".to_string()]);
    cfg.includes = Some(vec!["/inc".to_string()]);
    let src = Source::new("/proj/a.c".to_string(), Some(10)).unwrap();
    match compile(&desc, &cfg, &src, "/b/a.o".to_string(), None) {
        CompileStep::Invoke { cmd } => {
            assert_eq!(cmd.program, "gcc");
            assert_eq!(
                cmd.args,
                vec!["-g", "-c", "/proj/a.c", "-o", "/b/a.o", "-I/inc", "-DFOO", "-O2", "-std=c11"]
            );
        },
        CompileStep::Reuse { .. } => panic!("missing object must be compiled"),
    }
}

#[test]
fn stale_cpp_unit_gets_a_cpp_compiler_command() {
    let desc = (GNU {}).descriptor();
    let mut cfg = demo_cfg();
    cfg.flags = Some(vec!["-O2".to_string()]);
    cfg.cxxflags = Some(vec!["-std=c++17".to_string()]);
    let src = Source::new("/proj/b.cpp".to_string(), Some(10)).unwrap();
    match compile(&desc, &cfg, &src, "/b/b.o".to_string(), Some(3)) {
        CompileStep::Invoke { cmd } => {
            assert_eq!(cmd.program, "g++");
            assert_eq!(cmd.args, vec!["-g", "-c", "/proj/b.cpp", "-o", "/b/b.o", "-O2",
                "-std=c++17"]);
        },
        CompileStep::Reuse { .. } => panic!("older object must be recompiled"),
    }
}

#[test]
fn compile_outcome_is_fatal_on_failure() {
    let ok = compile_result("/proj/a.c", "/b/a.o".to_string(), true, 42).unwrap();
    assert_eq!(ok.path, "/b/a.o");
    assert_eq!(ok.modified, Some(42));
    let err = compile_result("/proj/a.c", "/b/a.o".to_string(), false, 42).unwrap_err();
    assert!(matches!(err, BuildError::CompileFailed { source } if source == "/proj/a.c"));
}

fn link_cmd(desc: &ToolchainDesc, cfg: &CxonConfig, target: TargetType) -> (String, Vec<String>) {
    let col = collection(&["/b/a.o", "/b/b.o"]);
    let cmd = link(desc, cfg, &col, target).unwrap();
    (cmd.program, cmd.args)
}

#[test]
fn gnu_link_dispatch_per_target_type() {
    // Target-type dispatch: each type picks its own linker, flags and
    // extension out of the active descriptor table.
    let desc = (GNU {}).descriptor();
    let mut cfg = demo_cfg();
    cfg.link = Some(vec!["/libdir".to_string()]);
    cfg.libs = Some(vec!["m".to_string()]);

    let (prog, args) = link_cmd(&desc, &cfg, TargetType::Executable);
    assert_eq!(prog, "g++");
    assert_eq!(args, vec!["-g", "/b/a.o", "/b/b.o", "-o", "/out/demo", "-L/libdir", "-lm"]);

    let (prog, args) = link_cmd(&desc, &cfg, TargetType::StaticLib);
    assert_eq!(prog, "ar");
    assert_eq!(args, vec!["rcs", "/out/demo.a", "/b/a.o", "/b/b.o", "-L/libdir", "-lm"]);

    let (prog, args) = link_cmd(&desc, &cfg, TargetType::SharedLib);
    assert_eq!(prog, "g++");
    assert_eq!(args, vec!["-g", "-shared", "-fPIC", "-o", "/out/demo.so", "/b/a.o", "/b/b.o",
        "-L/libdir", "-lm"]);

    let (prog, args) = link_cmd(&desc, &cfg, TargetType::ObjectLib);
    assert_eq!(prog, "g++");
    assert_eq!(args, vec!["-g", "/b/a.o", "/b/b.o", "-o", "/out/demo.o", "-L/libdir", "-lm"]);
}

#[test]
fn msvc_link_dispatch_per_target_type() {
    let desc = (MSVC {}).descriptor();
    let cfg = demo_cfg();

    let (prog, args) = link_cmd(&desc, &cfg, TargetType::Executable);
    assert_eq!(prog, "cl");
    assert_eq!(args, vec!["/Zi", "/b/a.o", "/b/b.o", "/Fe:", "/out/demo.exe"]);

    let (prog, args) = link_cmd(&desc, &cfg, TargetType::StaticLib);
    assert_eq!(prog, "lib");
    assert_eq!(args, vec!["/OUT:", "/out/demo.lib", "/b/a.o", "/b/b.o"]);

    let (prog, args) = link_cmd(&desc, &cfg, TargetType::SharedLib);
    assert_eq!(prog, "link");
    assert_eq!(args, vec!["/Zi", "/OUT:", "/out/demo.dll", "/b/a.o", "/b/b.o"]);
}

#[test]
fn link_extensions_are_appended_not_replaced() {
    // A target name that already carries a dot keeps it; the target-type
    // extension is appended after it.
    let desc = (GNU {}).descriptor();
    let mut cfg = demo_cfg();
    cfg.target_name = Some("demo.v2".to_string());

    let (_, args) = link_cmd(&desc, &cfg, TargetType::StaticLib);
    assert_eq!(args[1], "/out/demo.v2.a");

    let (_, args) = link_cmd(&desc, &cfg, TargetType::SharedLib);
    assert_eq!(args[4], "/out/demo.v2.so");

    let (_, args) = link_cmd(&desc, &cfg, TargetType::ObjectLib);
    assert_eq!(args[4], "/out/demo.v2.o");

    let (_, args) = link_cmd(&desc, &cfg, TargetType::Executable);
    assert_eq!(args[4], "/out/demo.v2");
}

#[test]
fn link_outcome_is_fatal_on_failure() {
    assert!(link_result("demo", true).is_ok());
    let err = link_result("demo", false).unwrap_err();
    assert!(matches!(err, BuildError::LinkFailed { output } if output == "demo"));
}

#[test]
fn linking_nothing_is_an_error() {
    let desc = (GNU {}).descriptor();
    let cfg = demo_cfg();
    let col = ObjectCollection::new();
    assert!(matches!(
        link(&desc, &cfg, &col, TargetType::Executable).unwrap_err(),
        BuildError::NoObjects
    ));
}

#[test]
fn object_collection_to_args_keeps_order() {
    let col = collection(&["/b/z.o", "/b/a.o", "/b/z.o"]);
    assert_eq!(col.to_args(), vec!["/b/z.o", "/b/a.o", "/b/z.o"]);
}

#[test]
fn end_to_end_executable_scenario() {
    // sources = [a.c, b.cpp], toolchain = gnu, target executable "demo":
    // two objects under the build directory, one link command, and a
    // second run over fresh objects compiles nothing.
    let desc = (GNU {}).descriptor();
    let cfg = demo_cfg().is_ready().unwrap();
    let sources = vec![
        Source::new("/proj/a.c".to_string(), Some(10)).unwrap(),
        Source::new("/proj/b.cpp".to_string(), Some(10)).unwrap(),
    ];

    let mut col = ObjectCollection::new();
    let mut invocations = 0;
    for src in &sources {
        let obj_path =
            get_object_target_path(src, "/proj", &cfg.build_dir, &desc.object_lib_extension)
                .unwrap();
        // First run: no objects exist yet.
        let obj = match compile(&desc, &cfg, src, obj_path.clone(), None) {
            CompileStep::Invoke { cmd } => {
                invocations += 1;
                assert!(cmd.program == "gcc" || cmd.program == "g++");
                compile_result(src.get_path(), obj_path, true, 20).unwrap()
            },
            CompileStep::Reuse { object } => object,
        };
        col.push(obj);
    }
    assert_eq!(invocations, 2);
    assert_eq!(col.to_args(), vec!["/b/a.o", "/b/b.o"]);

    let cmd = link(&desc, &cfg, &col, cfg.get_target_type()).unwrap();
    assert_eq!(cmd.program, "g++");
    assert_eq!(cmd.args, vec!["-g", "/b/a.o", "/b/b.o", "-o", "/out/demo"]);

    // Second run, objects now newer than the sources: zero compiler
    // invocations.
    let mut rerun_invocations = 0;
    for src in &sources {
        let obj_path =
            get_object_target_path(src, "/proj", &cfg.build_dir, &desc.object_lib_extension)
                .unwrap();
        match compile(&desc, &cfg, src, obj_path, Some(20)) {
            CompileStep::Invoke { .. } => rerun_invocations += 1,
            CompileStep::Reuse { object } => assert_eq!(object.modified, Some(20)),
        }
    }
    assert_eq!(rerun_invocations, 0);
}
