//! Engine of an interactive read-eval-print loop: an editable input line with
//! completion cycling, planning of in-place terminal redraws, and the pure parts
//! of building, compiling and running evaluated snippets.
pub mod buffer;
pub mod compile;
pub mod completion;
pub mod keys;
pub mod redraw;
pub mod source;

pub use buffer::InputBuffer;
pub use compile::{
    append_stderr_line, compile_args, compile_outcome, lib_file_path, CompilationError, CompileError, Exe,
    InitialisingError, LinkingConfiguration, LIBRARY_NAME,
};
pub use completion::{CItem, CompletionWriter};
pub use keys::{apply_event_to_buf, read_step, Event, KeyCode, KeyEvent, KeyModifiers, ReadAction};
pub use redraw::{erase_current_line, lines_covered, overwrite_text, write_output_chg, OutputChange, TermOp};
pub use source::{
    build_compile_dir, cargotoml_contents, eval_fn_name, main_contents, path_join, BuildFile, CrateType, SourceFile,
    SourceFileType,
};
