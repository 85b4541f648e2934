use genec::editorconfig::{Charset, Config, EditorConfig, EndOfLine, IndentStyle};

#[test]
fn new_test() {
    let pattern = "*";
    let config = Config::new(&pattern);
    assert_eq!(config.pattern, pattern);
    assert_eq!(config.indent_style, IndentStyle::Unset);
    assert_eq!(config.indent_size, None);
    assert_eq!(config.end_of_line, EndOfLine::Unset);
    assert_eq!(config.charset, Charset::Unset);
    assert_eq!(config.trim_trailing_whitespace, None);
    assert_eq!(config.insert_final_newline, None);
}

#[test]
fn base_test() {
    let config = Config::base();
    assert_eq!(config.pattern, "*");
    assert_eq!(config.indent_style, IndentStyle::Unset);
    assert_eq!(config.indent_size, None);
    assert_eq!(config.end_of_line, EndOfLine::LF);
    assert_eq!(config.charset, Charset::UTF8);
    assert_eq!(config.trim_trailing_whitespace, Some(true));
    assert_eq!(config.insert_final_newline, Some(true));
}

#[test]
fn pattern_test() {
    let config = Config::new("*");
    assert_eq!(config.render(), "[*]");
    let config = Config::new("*.rs");
    assert_eq!(config.render(), "[*.rs]");
    let config = Config::new("Makefile");
    assert_eq!(config.render(), "[Makefile]");
}

#[test]
fn indent_style_test() {
    let mut config = Config::new("*");
    assert_eq!(config.render(), "[*]");
    config.indent_style = IndentStyle::Space;
    assert_eq!(config.render(), "[*]\nindent_style = space");
    config.indent_style = IndentStyle::Tab;
    assert_eq!(config.render(), "[*]\nindent_style = tab");
    config.indent_style = IndentStyle::Unset;
    assert_eq!(config.render(), "[*]");
}

#[test]
fn indent_size_test() {
    let mut config = Config::new("*");
    assert_eq!(config.render(), "[*]");
    config.indent_size = Some(2);
    assert_eq!(config.render(), "[*]\nindent_size = 2");
    config.indent_size = Some(4);
    assert_eq!(config.render(), "[*]\nindent_size = 4");
    config.indent_size = None;
    assert_eq!(config.render(), "[*]");
}

#[test]
fn end_of_line_test() {
    let mut config = Config::new("*");
    assert_eq!(config.render(), "[*]");
    config.end_of_line = EndOfLine::LF;
    assert_eq!(config.render(), "[*]\nend_of_line = lf");
    config.end_of_line = EndOfLine::CR;
    assert_eq!(config.render(), "[*]\nend_of_line = cr");
    config.end_of_line = EndOfLine::CRLF;
    assert_eq!(config.render(), "[*]\nend_of_line = crlf");
    config.end_of_line = EndOfLine::Unset;
    assert_eq!(config.render(), "[*]");
}

#[test]
fn charset_test() {
    let mut config = Config::new("*");
    assert_eq!(config.render(), "[*]");
    config.charset = Charset::UTF8;
    assert_eq!(config.render(), "[*]\ncharset = utf-8");
    config.charset = Charset::UTF8BOM;
    assert_eq!(config.render(), "[*]\ncharset = utf-8-bom");
    config.charset = Charset::Other("shift_jis".to_string());
    assert_eq!(config.render(), "[*]\ncharset = shift_jis");
    config.charset = Charset::Unset;
    assert_eq!(config.render(), "[*]");
}

#[test]
fn trim_trailing_whitespace() {
    let mut config = Config::new("*");
    assert_eq!(config.render(), "[*]");
    config.trim_trailing_whitespace = Some(true);
    assert_eq!(config.render(), "[*]\ntrim_trailing_whitespace = true");
    config.trim_trailing_whitespace = Some(false);
    assert_eq!(config.render(), "[*]\ntrim_trailing_whitespace = false");
    config.trim_trailing_whitespace = None;
    assert_eq!(config.render(), "[*]");
}

#[test]
fn insert_final_newline_test() {
    let mut config = Config::new("*");
    assert_eq!(config.render(), "[*]");
    config.insert_final_newline = Some(true);
    assert_eq!(config.render(), "[*]\ninsert_final_newline = true");
    config.insert_final_newline = Some(false);
    assert_eq!(config.render(), "[*]\ninsert_final_newline = false");
    config.insert_final_newline = None;
    assert_eq!(config.render(), "[*]");
}

#[test]
fn editorconfig_new_test() {
    let editor_config = EditorConfig::new();
    assert!(editor_config.root);
    assert_eq!(editor_config.configs.len(), 0);
}

#[test]
fn editor_config_test() {
    let mut editor_config = EditorConfig::new();
    assert_eq!(&editor_config.render(), "root = true");

    let mut config = Config::new("*");
    config.charset = Charset::UTF8;
    config.end_of_line = EndOfLine::LF;
    config.indent_style = IndentStyle::Space;
    config.indent_size = Some(2);
    config.trim_trailing_whitespace = Some(true);
    config.insert_final_newline = Some(true);
    editor_config.configs.push(config);
    assert_eq!(
        &editor_config.render(),
        "\
root = true

[*]
indent_style = space
indent_size = 2
end_of_line = lf
charset = utf-8
trim_trailing_whitespace = true
insert_final_newline = true\
"
    );

    let mut config = Config::new("*.rs");
    config.charset = Charset::UTF8;
    config.end_of_line = EndOfLine::LF;
    config.indent_style = IndentStyle::Space;
    config.indent_size = Some(4);
    editor_config.configs.push(config);
    assert_eq!(
        &editor_config.render(),
        "\
root = true

[*]
indent_style = space
indent_size = 2
end_of_line = lf
charset = utf-8
trim_trailing_whitespace = true
insert_final_newline = true

[*.rs]
indent_style = space
indent_size = 4
end_of_line = lf
charset = utf-8\
"
    );

    let mut config = Config::new("Makefile");
    config.charset = Charset::UTF8;
    config.end_of_line = EndOfLine::LF;
    config.indent_style = IndentStyle::Tab;
    config.indent_size = Some(4);
    editor_config.configs.push(config);
    assert_eq!(
        &editor_config.render(),
        "\
root = true

[*]
indent_style = space
indent_size = 2
end_of_line = lf
charset = utf-8
trim_trailing_whitespace = true
insert_final_newline = true

[*.rs]
indent_style = space
indent_size = 4
end_of_line = lf
charset = utf-8

[Makefile]
indent_style = tab
indent_size = 4
end_of_line = lf
charset = utf-8\
"
    );
}
