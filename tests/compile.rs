use papyrus::{
    append_stderr_line, build_compile_dir, cargotoml_contents, compile_args, compile_outcome, eval_fn_name,
    lib_file_path, main_contents, path_join, CompilationError, CompileError, CrateType, Exe, InitialisingError,
    LinkingConfiguration, SourceFile, SourceFileType,
};
use std::io;

const TEST_CONTENTS: &str = "fn main() { println!(\"Hello, world!\"); }";

fn crate_of(src_line: &str, cargo_name: &str) -> CrateType {
    CrateType { src_line: src_line.to_string(), cargo_name: cargo_name.to_string() }
}

#[test]
fn test_build_compile_dir() {
    let source = SourceFile {
        src: TEST_CONTENTS.to_string(),
        file_type: SourceFileType::Rs,
        file_name: "test-name".to_string(),
        crates: Vec::new(),
    };

    let files = build_compile_dir(&source, "tests/compile-dir/test-dir");
    assert_eq!(files.len(), 2);
    assert_eq!(&files[0].path, "tests/compile-dir/test-dir/src/main.rs");
    assert_eq!(&files[1].path, "tests/compile-dir/test-dir/Cargo.toml");
    assert_eq!(files[0].contents, format!("\n\n\n{}\n", TEST_CONTENTS));
    assert_eq!(
        &files[1].contents,
        "[package]\nname = \"test-name\"\nversion = \"0.1.0\"\n\n[dependencies]\n\n"
    );
}

#[test]
fn compilation_error_fmt_test() {
    let e = CompilationError::NoBuildCommand;
    assert_eq!(&e.message(), "cargo build command failed to start, is rust installed?");
    let e = CompilationError::CompileError("compile err".to_string());
    assert_eq!(&e.message(), "compile err");
    let ioe = io::Error::new(io::ErrorKind::Other, "test");
    let e = CompilationError::IOError(ioe.to_string());
    assert_eq!(&e.message(), "io error occurred: test");
}

#[test]
fn initialising_error_messages() {
    assert_eq!(
        &InitialisingError::NoBuildCommand.message(),
        "cargo build command failed to start, is rust installed?"
    );
    assert_eq!(&InitialisingError::IOError("disk full".to_string()).message(), "io error occurred. disk full");
    assert_eq!(&CompileError.message(), "compilation failed");
}

#[test]
fn manifest_lists_each_dependency() {
    let source = SourceFile {
        src: String::new(),
        file_type: SourceFileType::Rs,
        file_name: "test-name".to_string(),
        crates: vec![crate_of("use rand;", "rand"), crate_of("use regex;", "regex")],
    };
    assert_eq!(
        &cargotoml_contents(&source),
        "[package]\nname = \"test-name\"\nversion = \"0.1.0\"\n\n[dependencies]\nrand = \"*\"\nregex = \"*\"\n"
    );
}

#[test]
fn expression_is_wrapped_in_main() {
    let source = SourceFile {
        src: "let a = 1;".to_string(),
        file_type: SourceFileType::Rscript,
        file_name: "x".to_string(),
        crates: vec![crate_of("use rand;", "rand"), crate_of("use regex::Regex;", "regex")],
    };
    assert_eq!(
        &main_contents(&source),
        "\nuse rand;\nuse regex::Regex;\n\nfn main() {\n\tlet a = 1;\n}\n"
    );
}

#[test]
fn eval_fn_name_joins_module_path() {
    assert_eq!(&eval_fn_name(&["lib".to_string(), "out0".to_string()]), "_lib_out0_intern_eval");
    assert_eq!(&eval_fn_name(&["lib".to_string()]), "_lib_intern_eval");
    assert_eq!(&eval_fn_name(&[]), "__intern_eval");
}

#[test]
fn paths_join_like_the_filesystem() {
    assert_eq!(&path_join("dir", "Cargo.toml"), "dir/Cargo.toml");
    assert_eq!(&path_join("dir/", "Cargo.toml"), "dir/Cargo.toml");
    assert_eq!(&path_join("", "Cargo.toml"), "Cargo.toml");
    assert_eq!(&lib_file_path("build", false), "build/target/debug/libpapyrus_mem_code.so");
    assert_eq!(&lib_file_path("build", true), "build/target/debug/papyrus_mem_code.dll");
}

#[test]
fn executable_path_and_build_result() {
    let exe = Exe::at("build", "test-name", false);
    assert_eq!(exe.path(), "build/target/debug/test-name");
    assert_eq!(Exe::at("build", "test-name", true).path(), "build/target/debug/test-name.exe");
    let exe = exe.finish(true).unwrap();
    assert_eq!(exe.path(), "build/target/debug/test-name");
    assert!(exe.finish(false).is_err());
}

#[test]
fn compiler_arguments_with_and_without_linking() {
    assert_eq!(compile_args(&LinkingConfiguration { crate_name: None }), vec!["rustc", "--", "-Awarnings"]);
    assert_eq!(
        compile_args(&LinkingConfiguration { crate_name: Some("papyrus_mem_code".to_string()) }),
        vec!["rustc", "--", "-Awarnings", "--extern", "papyrus_mem_code=libpapyrus_mem_code.rlib"]
    );
}

#[test]
fn compile_outcome_classifies_exit() {
    let mut stderr = String::new();
    append_stderr_line(&mut stderr, "error: expected `;`");
    append_stderr_line(&mut stderr, "aborting");
    assert_eq!(&stderr, "error: expected `;`\naborting\n");
    match compile_outcome("lib.so".to_string(), Ok(false), stderr.clone()) {
        Err(CompilationError::CompileError(e)) => assert_eq!(e, stderr),
        _ => panic!("expecting compilation error"),
    }
    match compile_outcome("lib.so".to_string(), Ok(true), stderr.clone()) {
        Ok(p) => assert_eq!(&p, "lib.so"),
        _ => panic!("expecting success"),
    }
    match compile_outcome("lib.so".to_string(), Err("broken pipe".to_string()), stderr) {
        Err(CompilationError::IOError(e)) => assert_eq!(&e, "broken pipe"),
        _ => panic!("expecting an io error"),
    }
}
