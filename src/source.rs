//! Snippets of source code and the build directory generated for each.
use vstd::prelude::*;
use vstd::string::{StrSliceExecFns, StringExecFns};

verus! {

/// How the text of a snippet becomes the program's entry point.
#[derive(Debug, Clone, Copy, PartialEq, Eq, Structural)]
pub enum SourceFileType {
    /// The text already defines `main`.
    Rs,
    /// The text is wrapped in a generated `main`.
    Rscript,
}

/// An outside package the snippet uses.
pub struct CrateType {
    /// The `use`-style line that brings the package into scope.
    pub src_line: String,
    /// The package's name in the manifest.
    pub cargo_name: String,
}

/// A snippet to compile.
pub struct SourceFile {
    pub src: String,
    pub file_type: SourceFileType,
    pub file_name: String,
    pub crates: Vec<CrateType>,
}

/// A file of the build directory: where it goes and what it holds.
pub struct BuildFile {
    pub path: String,
    pub contents: String,
}

/// `parts` with `sep` between each two.
pub open spec fn join_with(parts: Seq<Seq<char>>, sep: Seq<char>) -> Seq<char>
    decreases parts.len(),
{
    if parts.len() == 0 {
        Seq::empty()
    } else if parts.len() == 1 {
        parts[0]
    } else {
        join_with(parts.drop_last(), sep) + sep + parts.last()
    }
}

proof fn lemma_join_step(parts: Seq<Seq<char>>, sep: Seq<char>, i: int)
    requires
        0 <= i < parts.len(),
    ensures
        join_with(parts.take(i + 1), sep) == if i == 0 {
            parts[0]
        } else {
            join_with(parts.take(i), sep) + sep + parts[i]
        },
{
    assert(parts.take(i + 1).drop_last() =~= parts.take(i));
}

/// `dir` followed by the relative path `rel`, with a `/` between them unless
/// `dir` is empty or already ends with one.
pub open spec fn join_path(dir: Seq<char>, rel: Seq<char>) -> Seq<char> {
    if dir.len() == 0 || dir.last() == '/' {
        dir + rel
    } else {
        dir + "/"@ + rel
    }
}

pub fn path_join(dir: &str, rel: &str) -> (r: String)
    ensures
        r@ == join_path(dir@, rel@),
{
    let n = dir.unicode_len();
    let mut s = String::from_str(dir);
    if n > 0 && dir.get_char(n - 1) != '/' {
        s.append("/");
    }
    s.append(rel);
    s
}

/// The manifest line that declares the package `c` at any version.
pub open spec fn dependency_line(c: CrateType) -> Seq<char> {
    c.cargo_name@ + " = \"*\""@
}

/// The manifest of the build directory: the package named after the snippet and
/// one dependency line per outside package.
pub open spec fn cargotoml_spec(source: SourceFile) -> Seq<char> {
    "[package]\nname = \""@ + source.file_name@ + "\"\nversion = \"0.1.0\"\n\n[dependencies]\n"@
        + join_with(source.crates@.map_values(|c: CrateType| dependency_line(c)), "\n"@) + "\n"@
}

/// The entry point's body: the text itself, or the text wrapped in `main`.
pub open spec fn main_body(source: SourceFile) -> Seq<char> {
    match source.file_type {
        SourceFileType::Rs => source.src@,
        SourceFileType::Rscript => "fn main() {\n\t"@ + source.src@ + "\n}"@,
    }
}

/// The entry point source: each package's `use` line, then the body.
pub open spec fn main_spec(source: SourceFile) -> Seq<char> {
    "\n"@ + join_with(source.crates@.map_values(|c: CrateType| c.src_line@), "\n"@) + "\n\n"@
        + main_body(source) + "\n"@
}

/// The manifest file's contents.
pub fn cargotoml_contents(source: &SourceFile) -> (r: String)
    ensures
        r@ == cargotoml_spec(*source),
{
    let mut s = String::from_str("[package]\nname = \"");
    s.append(source.file_name.as_str());
    s.append("\"\nversion = \"0.1.0\"\n\n[dependencies]\n");
    let ghost head = s@;
    let ghost lines = source.crates@.map_values(|c: CrateType| dependency_line(c));
    let mut i: usize = 0;
    while i < source.crates.len()
        invariant
            i <= source.crates@.len(),
            lines.len() == source.crates@.len(),
            lines == source.crates@.map_values(|c: CrateType| dependency_line(c)),
            s@ == head + join_with(lines.take(i as int), "\n"@),
        decreases source.crates@.len() - i,
    {
        proof {
            lemma_join_step(lines, "\n"@, i as int);
        }
        if i > 0 {
            s.append("\n");
        }
        s.append(source.crates[i].cargo_name.as_str());
        s.append(" = \"*\"");
        i = i + 1;
    }
    assert(lines.take(i as int) =~= lines);
    s.append("\n");
    s
}

/// The entry point file's contents.
pub fn main_contents(source: &SourceFile) -> (r: String)
    ensures
        r@ == main_spec(*source),
{
    let mut s = String::from_str("\n");
    let ghost head = s@;
    let ghost lines = source.crates@.map_values(|c: CrateType| c.src_line@);
    let mut i: usize = 0;
    while i < source.crates.len()
        invariant
            i <= source.crates@.len(),
            lines.len() == source.crates@.len(),
            lines == source.crates@.map_values(|c: CrateType| c.src_line@),
            s@ == head + join_with(lines.take(i as int), "\n"@),
        decreases source.crates@.len() - i,
    {
        proof {
            lemma_join_step(lines, "\n"@, i as int);
        }
        if i > 0 {
            s.append("\n");
        }
        s.append(source.crates[i].src_line.as_str());
        i = i + 1;
    }
    assert(lines.take(i as int) =~= lines);
    s.append("\n\n");
    match source.file_type {
        SourceFileType::Rs => {
            s.append(source.src.as_str());
        },
        SourceFileType::Rscript => {
            s.append("fn main() {\n\t");
            s.append(source.src.as_str());
            s.append("\n}");
        },
    }
    s.append("\n");
    s
}

/// The files of the build directory `compile_dir` for `source`: the entry point
/// `src/main.rs`, then the manifest `Cargo.toml`.
pub fn build_compile_dir(source: &SourceFile, compile_dir: &str) -> (r: Vec<BuildFile>)
    ensures
        r@.len() == 2,
        r@[0].path@ == join_path(compile_dir@, "src/main.rs"@),
        r@[0].contents@ == main_spec(*source),
        r@[1].path@ == join_path(compile_dir@, "Cargo.toml"@),
        r@[1].contents@ == cargotoml_spec(*source),
{
    let mut files: Vec<BuildFile> = Vec::new();
    files.push(BuildFile { path: path_join(compile_dir, "src/main.rs"), contents: main_contents(source) });
    files.push(BuildFile { path: path_join(compile_dir, "Cargo.toml"), contents: cargotoml_contents(source) });
    files
}

/// The name of the evaluation function of the module at path `mod_path`.
pub open spec fn eval_fn_name_spec(mod_path: Seq<Seq<char>>) -> Seq<char> {
    "_"@ + join_with(mod_path, "_"@) + "_intern_eval"@
}

/// Constructs the evaluation function name given the module path.
pub fn eval_fn_name(mod_path: &[String]) -> (r: String)
    ensures
        r@ == eval_fn_name_spec(mod_path@.map_values(|m: String| m@)),
{
    let mut s = String::from_str("_");
    let ghost head = s@;
    let ghost parts = mod_path@.map_values(|m: String| m@);
    let mut i: usize = 0;
    while i < mod_path.len()
        invariant
            i <= mod_path@.len(),
            parts == mod_path@.map_values(|m: String| m@),
            s@ == head + join_with(parts.take(i as int), "_"@),
        decreases mod_path@.len() - i,
    {
        proof {
            lemma_join_step(parts, "_"@, i as int);
        }
        if i > 0 {
            s.append("_");
        }
        s.append(mod_path[i].as_str());
        i = i + 1;
    }
    assert(parts.take(i as int) =~= parts);
    s.append("_intern_eval");
    s
}

} // verus!
