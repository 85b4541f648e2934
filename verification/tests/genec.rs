use genec::editorconfig::{Charset, EndOfLine, IndentStyle};
use genec::{create_default_editor_config, write_editor_config};

#[test]
fn create_default_editor_config_test() {
    let editor_config = create_default_editor_config();
    assert_eq!(editor_config.root, true);
    assert_eq!(editor_config.configs.len(), 1);

    let config = &editor_config.configs[0];
    assert_eq!(config.pattern, "*");
    assert_eq!(config.indent_style, IndentStyle::Space);
    assert_eq!(config.indent_size, Some(2));
    assert_eq!(config.end_of_line, EndOfLine::LF);
    assert_eq!(config.charset, Charset::UTF8);
    assert_eq!(config.trim_trailing_whitespace, Some(true));
    assert_eq!(config.insert_final_newline, Some(true));
}

#[test]
fn write_editor_config_test() {
    let editor_config = create_default_editor_config();

    let mut w = String::new();
    write_editor_config(&mut w, &editor_config);
    assert_eq!(
        w.as_bytes(),
        b"\
root = true

[*]
indent_style = space
indent_size = 2
end_of_line = lf
charset = utf-8
trim_trailing_whitespace = true
insert_final_newline = true
"
    );
}
