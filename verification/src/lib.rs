//! A typed model of `.editorconfig` documents and a verified serializer
//! that renders a model to the exact text the format prescribes. The
//! surrounding tool builds a default model with
//! [`create_default_editor_config`] and writes the rendered text to a
//! file; all I/O stays with that caller.

pub mod editorconfig;
pub mod genec;

use vstd::prelude::*;

verus! {

use crate::editorconfig::{Charset, Config, EditorConfig, EndOfLine, IndentStyle};
use crate::editorconfig::editor_config_text;

/// The default document the tool emits: one `*` section asking for
/// two-space indentation, LF line endings, UTF-8, trimmed trailing
/// whitespace and a final newline.
pub fn create_default_editor_config() -> (r: EditorConfig)
    ensures
        r.root == true,
        r.configs@.len() == 1,
        r.configs@[0].pattern@ == "*"@,
        r.configs@[0].indent_style == IndentStyle::Space,
        r.configs@[0].indent_size == Some(2u32),
        r.configs@[0].end_of_line == EndOfLine::LF,
        r.configs@[0].charset == Charset::UTF8,
        r.configs@[0].trim_trailing_whitespace == Some(true),
        r.configs@[0].insert_final_newline == Some(true),
{
    let mut editor_config = EditorConfig::new();

    let mut config = Config::new("*");
    config.indent_style = IndentStyle::Space;
    config.indent_size = Some(2);
    config.end_of_line = EndOfLine::LF;
    config.charset = Charset::UTF8;
    config.trim_trailing_whitespace = Some(true);
    config.insert_final_newline = Some(true);
    editor_config.configs.push(config);

    editor_config
}

/// Appends the document to `w` exactly as it is written out as a file:
/// the document text followed by one line terminator.
pub fn write_editor_config(w: &mut String, editor_config: &EditorConfig)
    ensures
        final(w)@ == old(w)@ + editor_config_text(*editor_config) + "\n"@,
{
    let text = editor_config.render();
    w.append(text.as_str());
    w.append("\n");
    proof {
        assert(w@ =~= old(w)@ + editor_config_text(*editor_config) + "\n"@);
    }
}

} // verus!
