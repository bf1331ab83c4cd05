//! The decisions of compiling a snippet: where the artifact lands, which
//! arguments the toolchain gets, and how its exit becomes a result.
use crate::source::{join_path, path_join};
use vstd::prelude::*;
use vstd::string::StringExecFns;

verus! {

/// Name of the library that evaluated code is compiled into.
pub const LIBRARY_NAME: &'static str = "papyrus_mem_code";

/// The resulting compiled executable.
pub struct Exe {
    path: String,
}

/// Where the executable of package `file_name` lands under `compile_dir`.
pub open spec fn exe_path_spec(compile_dir: Seq<char>, file_name: Seq<char>, windows: bool) -> Seq<char> {
    compile_dir + "/target/debug/"@ + file_name + if windows {
        ".exe"@
    } else {
        Seq::empty()
    }
}

impl Exe {
    pub closed spec fn path_spec(&self) -> Seq<char> {
        self.path@
    }

    /// The executable that building package `file_name` in `compile_dir`
    /// produces; `windows` adds the platform's suffix.
    pub fn at(compile_dir: &str, file_name: &str, windows: bool) -> (r: Exe)
        ensures
            r.path_spec() == exe_path_spec(compile_dir@, file_name@, windows),
    {
        let mut path = String::from_str(compile_dir);
        path.append("/target/debug/");
        path.append(file_name);
        if windows {
            path.append(".exe");
        }
        Exe { path }
    }

    pub fn path(&self) -> (r: &str)
        ensures
            r@ == self.path_spec(),
    {
        self.path.as_str()
    }

    /// The outcome of the build that produces this executable, given whether the
    /// toolchain exited successfully.
    pub fn finish(self, success: bool) -> (r: Result<Exe, CompileError>)
        ensures
            success ==> r == Ok::<Exe, CompileError>(self),
            !success ==> r is Err,
    {
        if success {
            Ok(self)
        } else {
            Err(CompileError)
        }
    }
}

/// Error starting a compilation.
#[derive(Debug)]
pub enum InitialisingError {
    /// Failed to start `cargo build`: usually `cargo` is not on the `PATH` or
    /// Rust is not installed.
    NoBuildCommand,
    /// A filesystem error, with its message.
    IOError(String),
}

impl InitialisingError {
    /// The message shown to the user.
    pub fn message(&self) -> (r: String)
        ensures
            r@ == match self {
                InitialisingError::NoBuildCommand => "cargo build command failed to start, is rust installed?"@,
                InitialisingError::IOError(e) => "io error occurred. "@ + e@,
            },
    {
        match self {
            InitialisingError::NoBuildCommand => String::from_str(
                "cargo build command failed to start, is rust installed?",
            ),
            InitialisingError::IOError(e) => {
                let mut s = String::from_str("io error occurred. ");
                s.append(e.as_str());
                s
            },
        }
    }
}

/// The toolchain ran and rejected the program.
#[derive(Debug)]
pub struct CompileError;

impl CompileError {
    /// The message shown to the user.
    pub fn message(&self) -> (r: String)
        ensures
            r@ == "compilation failed"@,
    {
        String::from_str("compilation failed")
    }
}

/// Error of a compilation with linking.
#[derive(Debug)]
pub enum CompilationError {
    /// Failed to start `cargo build`: usually `cargo` is not on the `PATH` or
    /// Rust is not installed.
    NoBuildCommand,
    /// The toolchain ran and failed; everything it wrote to stderr.
    CompileError(String),
    /// A pipe or process error, with its message.
    IOError(String),
}

impl CompilationError {
    /// The message shown to the user: the diagnostics themselves for a failed
    /// compile.
    pub fn message(&self) -> (r: String)
        ensures
            r@ == match self {
                CompilationError::NoBuildCommand => "cargo build command failed to start, is rust installed?"@,
                CompilationError::CompileError(e) => e@,
                CompilationError::IOError(e) => "io error occurred: "@ + e@,
            },
    {
        match self {
            CompilationError::NoBuildCommand => String::from_str(
                "cargo build command failed to start, is rust installed?",
            ),
            CompilationError::CompileError(e) => e.clone(),
            CompilationError::IOError(e) => {
                let mut s = String::from_str("io error occurred: ");
                s.append(e.as_str());
                s
            },
        }
    }
}

/// A library built earlier in the session, to link the next compile against.
pub struct LinkingConfiguration {
    pub crate_name: Option<String>,
}

/// The arguments of the toolchain command: build with warnings suppressed and,
/// when linking, name the external package and its artifact.
pub open spec fn compile_args_spec(linking: LinkingConfiguration) -> Seq<Seq<char>> {
    let base = seq!["rustc"@, "--"@, "-Awarnings"@];
    match linking.crate_name {
        Some(n) => base + seq!["--extern"@, n@ + "=lib"@ + n@ + ".rlib"@],
        None => base,
    }
}

pub fn compile_args(linking: &LinkingConfiguration) -> (r: Vec<String>)
    ensures
        r@.map_values(|a: String| a@) == compile_args_spec(*linking),
{
    let mut args: Vec<String> = Vec::new();
    args.push(String::from_str("rustc"));
    args.push(String::from_str("--"));
    args.push(String::from_str("-Awarnings"));
    match &linking.crate_name {
        Some(n) => {
            args.push(String::from_str("--extern"));
            let mut a = String::from_str(n.as_str());
            a.append("=lib");
            a.append(n.as_str());
            a.append(".rlib");
            args.push(a);
        },
        None => {},
    }
    args
}

/// File name of the evaluation library on the platform.
pub open spec fn lib_file_name(windows: bool) -> Seq<char> {
    if windows {
        LIBRARY_NAME@ + ".dll"@
    } else {
        "lib"@ + LIBRARY_NAME@ + ".so"@
    }
}

/// Where the evaluation library lands under `compile_dir`.
pub fn lib_file_path(compile_dir: &str, windows: bool) -> (r: String)
    ensures
        r@ == join_path(join_path(compile_dir@, "target/debug/"@), lib_file_name(windows)),
{
    let dir = path_join(compile_dir, "target/debug/");
    let name = if windows {
        let mut n = String::from_str(LIBRARY_NAME);
        n.append(".dll");
        n
    } else {
        let mut n = String::from_str("lib");
        n.append(LIBRARY_NAME);
        n.append(".so");
        n
    };
    path_join(dir.as_str(), name.as_str())
}

/// Adds one line of the toolchain's stderr to the text kept of it.
pub fn append_stderr_line(acc: &mut String, line: &str)
    ensures
        final(acc)@ == old(acc)@ + line@ + "\n"@,
{
    acc.append(line);
    acc.append("\n");
}

/// The result of a compile, given how waiting on the toolchain went (whether it
/// exited successfully, or the error message) and the stderr it wrote.
pub fn compile_outcome(lib_file: String, exit: Result<bool, String>, stderr: String) -> (r: Result<
    String,
    CompilationError,
>)
    ensures
        match exit {
            Ok(true) => r matches Ok(p) && p@ == lib_file@,
            Ok(false) => r matches Err(CompilationError::CompileError(e)) && e@ == stderr@,
            Err(m) => r matches Err(CompilationError::IOError(e)) && e@ == m@,
        },
{
    match exit {
        Ok(success) => {
            if success {
                Ok(lib_file)
            } else {
                Err(CompilationError::CompileError(stderr))
            }
        },
        Err(m) => Err(CompilationError::IOError(m)),
    }
}

} // verus!
