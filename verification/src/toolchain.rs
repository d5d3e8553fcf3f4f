//! The toolchain abstraction: a read-only table of command names and flag
//! tokens for one compiler/linker family, selected once at startup and passed
//! by value to the compile and link planners. No other component branches on
//! the toolchain identity.

use vstd::prelude::*;

use crate::error::BuildError;

verus! {

/// The supported toolchain families.
pub enum ToolChain {
    GNU(),
    LLVM(),
    MSVC(),
}

/// The four kinds of final artifact a build can produce.
#[derive(Clone, Copy, PartialEq, Eq, Structural, Debug)]
pub enum TargetType {
    ObjectLib,
    Executable,
    StaticLib,
    SharedLib,
}

/// The character-level contents of a [`ToolchainDesc`], field for field.
#[verifier::ext_equal]
pub struct ToolchainView {
    pub cc: Seq<char>,
    pub cxx: Seq<char>,
    pub debug_flag: Seq<char>,
    pub executable_linker: Seq<char>,
    pub static_lib_linker: Seq<char>,
    pub shared_lib_linker: Seq<char>,
    pub object_lib_linker: Seq<char>,
    pub executable_output_flag: Seq<char>,
    pub static_lib_output_flag: Seq<char>,
    pub shared_lib_output_flag: Seq<char>,
    pub object_lib_output_flag: Seq<char>,
    pub executable_extension: Seq<char>,
    pub static_lib_extension: Seq<char>,
    pub shared_lib_extension: Seq<char>,
    pub object_lib_extension: Seq<char>,
    pub only_compile_flag: Seq<char>,
    pub define_flag_prefix: Seq<char>,
    pub include_flag_prefix: Seq<char>,
    pub link_dir_flag_prefix: Seq<char>,
    pub link_lib_flag_prefix: Seq<char>,
}

/// One toolchain family's fixed table: executable names, per-target-type
/// linker names, output flags and artifact extensions, and the flag prefixes
/// for defines, include directories, link directories and libraries.
pub struct ToolchainDesc {
    pub cc: String,
    pub cxx: String,
    pub debug_flag: String,
    pub executable_linker: String,
    pub static_lib_linker: String,
    pub shared_lib_linker: String,
    pub object_lib_linker: String,
    pub executable_output_flag: String,
    pub static_lib_output_flag: String,
    pub shared_lib_output_flag: String,
    pub object_lib_output_flag: String,
    pub executable_extension: String,
    pub static_lib_extension: String,
    pub shared_lib_extension: String,
    pub object_lib_extension: String,
    pub only_compile_flag: String,
    pub define_flag_prefix: String,
    pub include_flag_prefix: String,
    pub link_dir_flag_prefix: String,
    pub link_lib_flag_prefix: String,
}

impl View for ToolchainDesc {
    type V = ToolchainView;

    open spec fn view(&self) -> ToolchainView {
        ToolchainView {
            cc: self.cc@,
            cxx: self.cxx@,
            debug_flag: self.debug_flag@,
            executable_linker: self.executable_linker@,
            static_lib_linker: self.static_lib_linker@,
            shared_lib_linker: self.shared_lib_linker@,
            object_lib_linker: self.object_lib_linker@,
            executable_output_flag: self.executable_output_flag@,
            static_lib_output_flag: self.static_lib_output_flag@,
            shared_lib_output_flag: self.shared_lib_output_flag@,
            object_lib_output_flag: self.object_lib_output_flag@,
            executable_extension: self.executable_extension@,
            static_lib_extension: self.static_lib_extension@,
            shared_lib_extension: self.shared_lib_extension@,
            object_lib_extension: self.object_lib_extension@,
            only_compile_flag: self.only_compile_flag@,
            define_flag_prefix: self.define_flag_prefix@,
            include_flag_prefix: self.include_flag_prefix@,
            link_dir_flag_prefix: self.link_dir_flag_prefix@,
            link_lib_flag_prefix: self.link_lib_flag_prefix@,
        }
    }
}

/// A toolchain family: a carrier type whose descriptor is a constant table.
/// Adding a toolchain means adding one more implementation; nothing else
/// changes.
pub trait ToolChainTrait {
    /// The table's contents, as specification data.
    spec fn spec_table(&self) -> ToolchainView;

    /// Builds the family's descriptor table.
    fn descriptor(&self) -> (d: ToolchainDesc)
        ensures
            d@ == self.spec_table(),
    ;
}

impl ToolChain {
    /// The contents of the table [`Self::descriptor`] returns.
    pub open spec fn spec_table(&self) -> ToolchainView {
        match self {
            ToolChain::GNU() => crate::gnu::gnu_table(),
            ToolChain::LLVM() => crate::llvm::llvm_table(),
            ToolChain::MSVC() => crate::msvc::msvc_table(),
        }
    }

    /// Selects the descriptor table of this family.
    pub fn descriptor(&self) -> (d: ToolchainDesc)
        ensures
            d@ == self.spec_table(),
    {
        match self {
            ToolChain::GNU() => (crate::gnu::GNU {}).descriptor(),
            ToolChain::LLVM() => (crate::llvm::LLVM {}).descriptor(),
            ToolChain::MSVC() => (crate::msvc::MSVC {}).descriptor(),
        }
    }
}

/// Relies on which::which: resolves an executable name against the system's
/// search path. The outcome depends on the machine, so nothing is promised
/// of it.
#[verifier::external_body]
fn find_executable(name: &str) -> (r: Option<String>) {
    match which::which(name) {
        Ok(path) => match path.to_str() {
            Some(s) => Some(s.to_string()),
            None => None,
        },
        Err(_) => None,
    }
}

/// Probes, before any compilation starts, that every executable the chosen
/// toolchain may invoke resolves on the system. An error always names one of
/// the descriptor's six tools.
pub fn check_toolchain_availability(desc: &ToolchainDesc) -> (r: Result<(), BuildError>)
    ensures
        match r {
            Ok(_) => true,
            Err(e) => match e {
                BuildError::MissingTool { name } => {
                    ||| name@ == desc@.cc
                    ||| name@ == desc@.cxx
                    ||| name@ == desc@.executable_linker
                    ||| name@ == desc@.static_lib_linker
                    ||| name@ == desc@.shared_lib_linker
                    ||| name@ == desc@.object_lib_linker
                },
                _ => false,
            },
        },
{
    match check_executable_exists(desc.cc.as_str()) {
        Ok(_) => (),
        Err(e) => {
            return Err(e);
        },
    };
    match check_executable_exists(desc.cxx.as_str()) {
        Ok(_) => (),
        Err(e) => {
            return Err(e);
        },
    };
    match check_executable_exists(desc.executable_linker.as_str()) {
        Ok(_) => (),
        Err(e) => {
            return Err(e);
        },
    };
    match check_executable_exists(desc.static_lib_linker.as_str()) {
        Ok(_) => (),
        Err(e) => {
            return Err(e);
        },
    };
    match check_executable_exists(desc.shared_lib_linker.as_str()) {
        Ok(_) => (),
        Err(e) => {
            return Err(e);
        },
    };
    match check_executable_exists(desc.object_lib_linker.as_str()) {
        Ok(_) => (),
        Err(e) => {
            return Err(e);
        },
    };
    Ok(())
}

/// Resolves one executable name on the system, or reports it missing.
pub fn check_executable_exists(executable: &str) -> (r: Result<String, BuildError>)
    ensures
        match r {
            Ok(_) => true,
            Err(e) => match e {
                BuildError::MissingTool { name } => name@ == executable@,
                _ => false,
            },
        },
{
    match find_executable(executable) {
        Some(path) => Ok(path),
        None => Err(BuildError::MissingTool { name: String::from_str(executable) }),
    }
}

} // verus!
