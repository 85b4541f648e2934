//! The typed model of an `.editorconfig` document and its deterministic
//! text serializer.
//!
//! A document is a root flag followed by an ordered list of pattern
//! sections; each section holds optional editing-convention settings.
//! Only settings that are present (not the unset sentinel) produce a
//! `key = value` line. The spec functions below give the exact text of
//! every value, line and document, and the exec renderers are proved to
//! produce that text.

use vstd::prelude::*;

verus! {

/// Indentation style option: spaces, hard tabs, or no opinion.
#[derive(Debug, PartialEq, Eq, Structural)]
pub enum IndentStyle {
    Space,
    Tab,
    Unset,
}

/// End-of-line convention option; `Unset` means no opinion.
#[derive(Debug, PartialEq, Eq, Structural)]
pub enum EndOfLine {
    LF,
    CR,
    CRLF,
    Unset,
}

/// Character-set option. The closed set covers the common encodings;
/// `Other` passes any charset name through verbatim. `Unset` means no
/// opinion.
#[derive(Debug, PartialEq, Eq)]
pub enum Charset {
    UTF8,
    UTF8BOM,
    UTF16BE,
    UTF16LE,
    Other(String),
    Unset,
}

/// The canonical text of an indentation style value; empty when unset.
pub open spec fn indent_style_text(s: IndentStyle) -> Seq<char> {
    match s {
        IndentStyle::Space => "space"@,
        IndentStyle::Tab => "tab"@,
        IndentStyle::Unset => Seq::<char>::empty(),
    }
}

/// The canonical text of an end-of-line value; empty when unset.
pub open spec fn end_of_line_text(e: EndOfLine) -> Seq<char> {
    match e {
        EndOfLine::LF => "lf"@,
        EndOfLine::CR => "cr"@,
        EndOfLine::CRLF => "crlf"@,
        EndOfLine::Unset => Seq::<char>::empty(),
    }
}

/// The canonical text of a charset value. An `Other` name is passed
/// through unchanged, with no quoting or escaping; empty when unset.
pub open spec fn charset_text(c: Charset) -> Seq<char> {
    match c {
        Charset::UTF8 => "utf-8"@,
        Charset::UTF8BOM => "utf-8-bom"@,
        Charset::UTF16BE => "utf-16-be"@,
        Charset::UTF16LE => "utf-16-le"@,
        Charset::Other(s) => s@,
        Charset::Unset => Seq::<char>::empty(),
    }
}

/// The text of a boolean setting value.
pub open spec fn bool_text(b: bool) -> Seq<char> {
    if b {
        "true"@
    } else {
        "false"@
    }
}

/// The character standing for a single decimal digit.
pub open spec fn digit_char(d: nat) -> char {
    if d == 0 {
        '0'
    } else if d == 1 {
        '1'
    } else if d == 2 {
        '2'
    } else if d == 3 {
        '3'
    } else if d == 4 {
        '4'
    } else if d == 5 {
        '5'
    } else if d == 6 {
        '6'
    } else if d == 7 {
        '7'
    } else if d == 8 {
        '8'
    } else {
        '9'
    }
}

/// The usual decimal rendering of a natural number: most significant
/// digit first, no leading zeros (except for the number zero itself).
pub open spec fn decimal_digits(n: nat) -> Seq<char>
    decreases n,
{
    if n < 10 {
        seq![digit_char(n)]
    } else {
        decimal_digits(n / 10) + seq![digit_char(n % 10)]
    }
}

impl IndentStyle {
    /// The canonical text encoding of this value.
    pub fn text(&self) -> (r: &'static str)
        ensures
            r@ == indent_style_text(*self),
    {
        proof {
            reveal_strlit("");
            assert(""@ =~= Seq::<char>::empty());
        }
        match self {
            IndentStyle::Space => "space",
            IndentStyle::Tab => "tab",
            IndentStyle::Unset => "",
        }
    }
}

impl EndOfLine {
    /// The canonical text encoding of this value.
    pub fn text(&self) -> (r: &'static str)
        ensures
            r@ == end_of_line_text(*self),
    {
        proof {
            reveal_strlit("");
            assert(""@ =~= Seq::<char>::empty());
        }
        match self {
            EndOfLine::LF => "lf",
            EndOfLine::CR => "cr",
            EndOfLine::CRLF => "crlf",
            EndOfLine::Unset => "",
        }
    }
}

impl Charset {
    /// The canonical text encoding of this value. An `Other` name is
    /// returned verbatim.
    pub fn text(&self) -> (r: &str)
        ensures
            r@ == charset_text(*self),
    {
        proof {
            reveal_strlit("");
            assert(""@ =~= Seq::<char>::empty());
        }
        match self {
            Charset::UTF8 => "utf-8",
            Charset::UTF8BOM => "utf-8-bom",
            Charset::UTF16BE => "utf-16-be",
            Charset::UTF16LE => "utf-16-le",
            Charset::Other(s) => s.as_str(),
            Charset::Unset => "",
        }
    }
}

/// The text of a boolean setting value.
fn bool_str(b: bool) -> (r: &'static str)
    ensures
        r@ == bool_text(b),
{
    if b {
        "true"
    } else {
        "false"
    }
}

/// The one-character string for a decimal digit.
fn digit_str(d: u32) -> (r: &'static str)
    requires
        d < 10,
    ensures
        r@ == seq![digit_char(d as nat)],
{
    proof {
        reveal_strlit("0");
        reveal_strlit("1");
        reveal_strlit("2");
        reveal_strlit("3");
        reveal_strlit("4");
        reveal_strlit("5");
        reveal_strlit("6");
        reveal_strlit("7");
        reveal_strlit("8");
        reveal_strlit("9");
        assert("0"@ =~= seq![digit_char(0)]);
        assert("1"@ =~= seq![digit_char(1)]);
        assert("2"@ =~= seq![digit_char(2)]);
        assert("3"@ =~= seq![digit_char(3)]);
        assert("4"@ =~= seq![digit_char(4)]);
        assert("5"@ =~= seq![digit_char(5)]);
        assert("6"@ =~= seq![digit_char(6)]);
        assert("7"@ =~= seq![digit_char(7)]);
        assert("8"@ =~= seq![digit_char(8)]);
        assert("9"@ =~= seq![digit_char(9)]);
    }
    match d {
        0 => "0",
        1 => "1",
        2 => "2",
        3 => "3",
        4 => "4",
        5 => "5",
        6 => "6",
        7 => "7",
        8 => "8",
        _ => "9",
    }
}

/// Appends the decimal rendering of `n` to `out`.
fn push_decimal(out: &mut String, n: u32)
    ensures
        final(out)@ == old(out)@ + decimal_digits(n as nat),
    decreases n,
{
    if n < 10 {
        out.append(digit_str(n));
    } else {
        push_decimal(out, n / 10);
        out.append(digit_str(n % 10));
        proof {
            assert(out@ =~= old(out)@ + decimal_digits(n as nat));
        }
    }
}

/// One pattern-scoped section of settings. Every setting defaults to
/// the unset/absent sentinel; only present settings are rendered.
#[derive(Debug, PartialEq)]
pub struct Config {
    pub pattern: String,
    pub indent_style: IndentStyle,
    pub indent_size: Option<u32>,
    pub end_of_line: EndOfLine,
    pub charset: Charset,
    pub trim_trailing_whitespace: Option<bool>,
    pub insert_final_newline: Option<bool>,
}

/// The section header line `[<pattern>]` (no terminator).
pub open spec fn pattern_header(pattern: Seq<char>) -> Seq<char> {
    "["@ + pattern + "]"@
}

/// The `indent_style` line, preceded by its line break; empty when the
/// setting is unset.
pub open spec fn indent_style_line(s: IndentStyle) -> Seq<char> {
    match s {
        IndentStyle::Unset => Seq::<char>::empty(),
        _ => "\nindent_style = "@ + indent_style_text(s),
    }
}

/// The `indent_size` line, preceded by its line break; empty when the
/// setting is absent.
pub open spec fn indent_size_line(o: Option<u32>) -> Seq<char> {
    match o {
        Option::None => Seq::<char>::empty(),
        Option::Some(n) => "\nindent_size = "@ + decimal_digits(n as nat),
    }
}

/// The `end_of_line` line, preceded by its line break; empty when the
/// setting is unset.
pub open spec fn end_of_line_line(e: EndOfLine) -> Seq<char> {
    match e {
        EndOfLine::Unset => Seq::<char>::empty(),
        _ => "\nend_of_line = "@ + end_of_line_text(e),
    }
}

/// The `charset` line, preceded by its line break; empty when the
/// setting is unset.
pub open spec fn charset_line(c: Charset) -> Seq<char> {
    match c {
        Charset::Unset => Seq::<char>::empty(),
        _ => "\ncharset = "@ + charset_text(c),
    }
}

/// The `trim_trailing_whitespace` line, preceded by its line break;
/// empty when the setting is absent.
pub open spec fn trim_trailing_whitespace_line(o: Option<bool>) -> Seq<char> {
    match o {
        Option::None => Seq::<char>::empty(),
        Option::Some(b) => "\ntrim_trailing_whitespace = "@ + bool_text(b),
    }
}

/// The `insert_final_newline` line, preceded by its line break; empty
/// when the setting is absent.
pub open spec fn insert_final_newline_line(o: Option<bool>) -> Seq<char> {
    match o {
        Option::None => Seq::<char>::empty(),
        Option::Some(b) => "\ninsert_final_newline = "@ + bool_text(b),
    }
}

/// The full text of one section: the header, then exactly the lines of
/// the present settings, in the fixed field order.
pub open spec fn config_text(c: Config) -> Seq<char> {
    pattern_header(c.pattern@) + indent_style_line(c.indent_style) + indent_size_line(
        c.indent_size,
    ) + end_of_line_line(c.end_of_line) + charset_line(c.charset) + trim_trailing_whitespace_line(
        c.trim_trailing_whitespace,
    ) + insert_final_newline_line(c.insert_final_newline)
}

/// Appends the `indent_style` line (or nothing, when unset) to `out`.
fn push_indent_style(out: &mut String, s: &IndentStyle)
    ensures
        final(out)@ == old(out)@ + indent_style_line(*s),
{
    match s {
        IndentStyle::Unset => {
            proof {
                assert(out@ =~= old(out)@ + indent_style_line(*s));
            }
        },
        _ => {
            out.append("\nindent_style = ");
            out.append(s.text());
            proof {
                assert(out@ =~= old(out)@ + indent_style_line(*s));
            }
        },
    }
}

/// Appends the `indent_size` line (or nothing, when absent) to `out`.
fn push_indent_size(out: &mut String, o: Option<u32>)
    ensures
        final(out)@ == old(out)@ + indent_size_line(o),
{
    match o {
        None => {
            proof {
                assert(out@ =~= old(out)@ + indent_size_line(o));
            }
        },
        Some(n) => {
            out.append("\nindent_size = ");
            push_decimal(out, n);
            proof {
                assert(out@ =~= old(out)@ + indent_size_line(o));
            }
        },
    }
}

/// Appends the `end_of_line` line (or nothing, when unset) to `out`.
fn push_end_of_line(out: &mut String, e: &EndOfLine)
    ensures
        final(out)@ == old(out)@ + end_of_line_line(*e),
{
    match e {
        EndOfLine::Unset => {
            proof {
                assert(out@ =~= old(out)@ + end_of_line_line(*e));
            }
        },
        _ => {
            out.append("\nend_of_line = ");
            out.append(e.text());
            proof {
                assert(out@ =~= old(out)@ + end_of_line_line(*e));
            }
        },
    }
}

/// Appends the `charset` line (or nothing, when unset) to `out`.
fn push_charset(out: &mut String, c: &Charset)
    ensures
        final(out)@ == old(out)@ + charset_line(*c),
{
    match c {
        Charset::Unset => {
            proof {
                assert(out@ =~= old(out)@ + charset_line(*c));
            }
        },
        _ => {
            out.append("\ncharset = ");
            out.append(c.text());
            proof {
                assert(out@ =~= old(out)@ + charset_line(*c));
            }
        },
    }
}

/// Appends the `trim_trailing_whitespace` line (or nothing, when
/// absent) to `out`.
fn push_trim_trailing_whitespace(out: &mut String, o: Option<bool>)
    ensures
        final(out)@ == old(out)@ + trim_trailing_whitespace_line(o),
{
    match o {
        None => {
            proof {
                assert(out@ =~= old(out)@ + trim_trailing_whitespace_line(o));
            }
        },
        Some(b) => {
            out.append("\ntrim_trailing_whitespace = ");
            out.append(bool_str(b));
            proof {
                assert(out@ =~= old(out)@ + trim_trailing_whitespace_line(o));
            }
        },
    }
}

/// Appends the `insert_final_newline` line (or nothing, when absent)
/// to `out`.
fn push_insert_final_newline(out: &mut String, o: Option<bool>)
    ensures
        final(out)@ == old(out)@ + insert_final_newline_line(o),
{
    match o {
        None => {
            proof {
                assert(out@ =~= old(out)@ + insert_final_newline_line(o));
            }
        },
        Some(b) => {
            out.append("\ninsert_final_newline = ");
            out.append(bool_str(b));
            proof {
                assert(out@ =~= old(out)@ + insert_final_newline_line(o));
            }
        },
    }
}

impl Config {
    /// A section for `pattern` with every setting unset/absent.
    pub fn new(pattern: &str) -> (r: Config)
        ensures
            r.pattern@ == pattern@,
            r.indent_style == IndentStyle::Unset,
            r.indent_size == Option::<u32>::None,
            r.end_of_line == EndOfLine::Unset,
            r.charset == Charset::Unset,
            r.trim_trailing_whitespace == Option::<bool>::None,
            r.insert_final_newline == Option::<bool>::None,
    {
        Config {
            pattern: String::from_str(pattern),
            indent_style: IndentStyle::Unset,
            indent_size: None,
            end_of_line: EndOfLine::Unset,
            charset: Charset::Unset,
            trim_trailing_whitespace: None,
            insert_final_newline: None,
        }
    }

    /// The canned base section: pattern `*`, LF line endings, UTF-8,
    /// trimmed trailing whitespace and a final newline; indentation
    /// left unset.
    pub fn base() -> (r: Config)
        ensures
            r.pattern@ == "*"@,
            r.indent_style == IndentStyle::Unset,
            r.indent_size == Option::<u32>::None,
            r.end_of_line == EndOfLine::LF,
            r.charset == Charset::UTF8,
            r.trim_trailing_whitespace == Option::<bool>::Some(true),
            r.insert_final_newline == Option::<bool>::Some(true),
    {
        Config {
            pattern: String::from_str("*"),
            indent_style: IndentStyle::Unset,
            indent_size: None,
            end_of_line: EndOfLine::LF,
            charset: Charset::UTF8,
            trim_trailing_whitespace: Some(true),
            insert_final_newline: Some(true),
        }
    }

    /// Renders this section to its exact text.
    pub fn render(&self) -> (r: String)
        ensures
            r@ == config_text(*self),
    {
        let mut out = String::from_str("[");
        out.append(self.pattern.as_str());
        out.append("]");
        push_indent_style(&mut out, &self.indent_style);
        push_indent_size(&mut out, self.indent_size);
        push_end_of_line(&mut out, &self.end_of_line);
        push_charset(&mut out, &self.charset);
        push_trim_trailing_whitespace(&mut out, self.trim_trailing_whitespace);
        push_insert_final_newline(&mut out, self.insert_final_newline);
        out
    }
}

/// A whole `.editorconfig` document: the root flag and the sections,
/// in the order the caller supplied them.
#[derive(Debug, PartialEq)]
pub struct EditorConfig {
    pub root: bool,
    pub configs: Vec<Config>,
}

/// The `root = <true|false>` line (no terminator).
pub open spec fn root_line(root: bool) -> Seq<char> {
    "root = "@ + bool_text(root)
}

/// The text of the section blocks, in sequence order, each preceded by
/// one blank line (so a blank line separates the root line from the
/// first section, and every section from the next).
pub open spec fn configs_text(cs: Seq<Config>) -> Seq<char>
    decreases cs.len(),
{
    if cs.len() == 0 {
        Seq::<char>::empty()
    } else {
        configs_text(cs.drop_last()) + "\n\n"@ + config_text(cs.last())
    }
}

/// The full text of a document (without a trailing line terminator):
/// the root line, then each section block after one blank line.
pub open spec fn editor_config_text(e: EditorConfig) -> Seq<char> {
    root_line(e.root) + configs_text(e.configs@)
}

/// Appending one section to a document appends exactly that section's
/// block after one blank line; the earlier sections' text is unchanged.
pub proof fn lemma_configs_text_push(cs: Seq<Config>, c: Config)
    ensures
        configs_text(cs.push(c)) == configs_text(cs) + "\n\n"@ + config_text(c),
{
    assert(cs.push(c).drop_last() =~= cs);
    assert(cs.push(c).last() == c);
}

impl EditorConfig {
    /// An empty document: marked root, with no sections yet.
    pub fn new() -> (r: EditorConfig)
        ensures
            r.root == true,
            r.configs@ == Seq::<Config>::empty(),
    {
        EditorConfig { root: true, configs: vec![] }
    }

    /// Renders this document to its exact text (no trailing line
    /// terminator).
    pub fn render(&self) -> (r: String)
        ensures
            r@ == editor_config_text(*self),
    {
        let mut out = String::from_str("root = ");
        out.append(bool_str(self.root));
        proof {
            assert(out@ =~= root_line(self.root));
        }

        let mut i: usize = 0;
        while i < self.configs.len()
            invariant
                i <= self.configs@.len(),
                out@ == root_line(self.root) + configs_text(self.configs@.take(i as int)),
            decreases self.configs@.len() - i,
        {
            out.append("\n\n");
            let section = self.configs[i].render();
            out.append(section.as_str());
            proof {
                assert(self.configs@.take(i + 1 as int) =~= self.configs@.take(i as int).push(
                    self.configs@[i as int],
                ));
                lemma_configs_text_push(self.configs@.take(i as int), self.configs@[i as int]);
                assert(out@ =~= root_line(self.root) + configs_text(
                    self.configs@.take(i + 1 as int),
                ));
            }
            i = i + 1;
        }
        proof {
            assert(self.configs@.take(self.configs@.len() as int) =~= self.configs@);
        }

        out
    }
}

/// Rendering is deterministic: the document text is a function of the
/// model value alone, so equal models always render to identical text.
pub proof fn lemma_render_deterministic(e1: EditorConfig, e2: EditorConfig)
    requires
        e1 == e2,
    ensures
        editor_config_text(e1) == editor_config_text(e2),
{
}

/// Presence decides rendering: a section's text is its header followed
/// by one segment per setting, in the fixed field order, and a
/// setting's segment is empty exactly when that setting is unset or
/// absent.
pub proof fn lemma_field_presence(c: Config)
    ensures
        config_text(c) == pattern_header(c.pattern@) + indent_style_line(c.indent_style)
            + indent_size_line(c.indent_size) + end_of_line_line(c.end_of_line) + charset_line(
            c.charset,
        ) + trim_trailing_whitespace_line(c.trim_trailing_whitespace) + insert_final_newline_line(
            c.insert_final_newline,
        ),
        (c.indent_style is Unset) <==> indent_style_line(c.indent_style).len() == 0,
        (c.indent_size is None) <==> indent_size_line(c.indent_size).len() == 0,
        (c.end_of_line is Unset) <==> end_of_line_line(c.end_of_line).len() == 0,
        (c.charset is Unset) <==> charset_line(c.charset).len() == 0,
        (c.trim_trailing_whitespace is None) <==> trim_trailing_whitespace_line(
            c.trim_trailing_whitespace,
        ).len() == 0,
        (c.insert_final_newline is None) <==> insert_final_newline_line(
            c.insert_final_newline,
        ).len() == 0,
{
    reveal_strlit("\nindent_style = ");
    reveal_strlit("\nindent_size = ");
    reveal_strlit("\nend_of_line = ");
    reveal_strlit("\ncharset = ");
    reveal_strlit("\ntrim_trailing_whitespace = ");
    reveal_strlit("\ninsert_final_newline = ");
}

/// Changing only `indent_style` changes only the `indent_style`
/// segment of the section text; every other segment is unchanged.
pub proof fn lemma_indent_style_presence(c: Config, d: Config)
    requires
        d.pattern@ == c.pattern@,
        d.indent_size == c.indent_size,
        d.end_of_line == c.end_of_line,
        d.charset == c.charset,
        d.trim_trailing_whitespace == c.trim_trailing_whitespace,
        d.insert_final_newline == c.insert_final_newline,
    ensures
        config_text(d) == pattern_header(c.pattern@) + indent_style_line(d.indent_style)
            + indent_size_line(c.indent_size) + end_of_line_line(c.end_of_line) + charset_line(
            c.charset,
        ) + trim_trailing_whitespace_line(c.trim_trailing_whitespace) + insert_final_newline_line(
            c.insert_final_newline,
        ),
{
}

/// Changing only `indent_size` changes only the `indent_size` segment
/// of the section text; every other segment is unchanged.
pub proof fn lemma_indent_size_presence(c: Config, d: Config)
    requires
        d.pattern@ == c.pattern@,
        d.indent_style == c.indent_style,
        d.end_of_line == c.end_of_line,
        d.charset == c.charset,
        d.trim_trailing_whitespace == c.trim_trailing_whitespace,
        d.insert_final_newline == c.insert_final_newline,
    ensures
        config_text(d) == pattern_header(c.pattern@) + indent_style_line(c.indent_style)
            + indent_size_line(d.indent_size) + end_of_line_line(c.end_of_line) + charset_line(
            c.charset,
        ) + trim_trailing_whitespace_line(c.trim_trailing_whitespace) + insert_final_newline_line(
            c.insert_final_newline,
        ),
{
}

/// Changing only `end_of_line` changes only the `end_of_line` segment
/// of the section text; every other segment is unchanged.
pub proof fn lemma_end_of_line_presence(c: Config, d: Config)
    requires
        d.pattern@ == c.pattern@,
        d.indent_style == c.indent_style,
        d.indent_size == c.indent_size,
        d.charset == c.charset,
        d.trim_trailing_whitespace == c.trim_trailing_whitespace,
        d.insert_final_newline == c.insert_final_newline,
    ensures
        config_text(d) == pattern_header(c.pattern@) + indent_style_line(c.indent_style)
            + indent_size_line(c.indent_size) + end_of_line_line(d.end_of_line) + charset_line(
            c.charset,
        ) + trim_trailing_whitespace_line(c.trim_trailing_whitespace) + insert_final_newline_line(
            c.insert_final_newline,
        ),
{
}

/// Changing only `charset` changes only the `charset` segment of the
/// section text; every other segment is unchanged.
pub proof fn lemma_charset_presence(c: Config, d: Config)
    requires
        d.pattern@ == c.pattern@,
        d.indent_style == c.indent_style,
        d.indent_size == c.indent_size,
        d.end_of_line == c.end_of_line,
        d.trim_trailing_whitespace == c.trim_trailing_whitespace,
        d.insert_final_newline == c.insert_final_newline,
    ensures
        config_text(d) == pattern_header(c.pattern@) + indent_style_line(c.indent_style)
            + indent_size_line(c.indent_size) + end_of_line_line(c.end_of_line) + charset_line(
            d.charset,
        ) + trim_trailing_whitespace_line(c.trim_trailing_whitespace) + insert_final_newline_line(
            c.insert_final_newline,
        ),
{
}

/// Changing only `trim_trailing_whitespace` changes only that segment
/// of the section text; every other segment is unchanged.
pub proof fn lemma_trim_trailing_whitespace_presence(c: Config, d: Config)
    requires
        d.pattern@ == c.pattern@,
        d.indent_style == c.indent_style,
        d.indent_size == c.indent_size,
        d.end_of_line == c.end_of_line,
        d.charset == c.charset,
        d.insert_final_newline == c.insert_final_newline,
    ensures
        config_text(d) == pattern_header(c.pattern@) + indent_style_line(c.indent_style)
            + indent_size_line(c.indent_size) + end_of_line_line(c.end_of_line) + charset_line(
            c.charset,
        ) + trim_trailing_whitespace_line(d.trim_trailing_whitespace) + insert_final_newline_line(
            c.insert_final_newline,
        ),
{
}

/// Changing only `insert_final_newline` changes only that segment of
/// the section text; every other segment is unchanged.
pub proof fn lemma_insert_final_newline_presence(c: Config, d: Config)
    requires
        d.pattern@ == c.pattern@,
        d.indent_style == c.indent_style,
        d.indent_size == c.indent_size,
        d.end_of_line == c.end_of_line,
        d.charset == c.charset,
        d.trim_trailing_whitespace == c.trim_trailing_whitespace,
    ensures
        config_text(d) == pattern_header(c.pattern@) + indent_style_line(c.indent_style)
            + indent_size_line(c.indent_size) + end_of_line_line(c.end_of_line) + charset_line(
            c.charset,
        ) + trim_trailing_whitespace_line(c.trim_trailing_whitespace) + insert_final_newline_line(
            d.insert_final_newline,
        ),
{
}

/// An `Other` charset name is passed through verbatim: its line is the
/// key, the separator, and exactly the wrapped string, with no quoting.
pub proof fn lemma_charset_passthrough(s: String)
    ensures
        charset_line(Charset::Other(s)) == "\ncharset = "@ + s@,
{
}

/// A document with two sections reads: the root line, one blank line,
/// the first section, one blank line, the second section, and nothing
/// after the second section's last line.
pub proof fn lemma_two_section_separation(e: EditorConfig)
    requires
        e.configs@.len() == 2,
    ensures
        editor_config_text(e) == root_line(e.root) + "\n\n"@ + config_text(e.configs@[0]) + "\n\n"@
            + config_text(e.configs@[1]),
{
    let cs = e.configs@;
    let first = cs.drop_last();
    assert(first.drop_last() =~= Seq::<Config>::empty());
    assert(configs_text(first.drop_last()) == Seq::<char>::empty());
    assert(first.last() == cs[0]);
    assert(cs.last() == cs[1]);
    assert(configs_text(first) =~= "\n\n"@ + config_text(cs[0]));
    assert(configs_text(cs) == configs_text(first) + "\n\n"@ + config_text(cs[1]));
    assert(editor_config_text(e) =~= root_line(e.root) + "\n\n"@ + config_text(cs[0]) + "\n\n"@
        + config_text(cs[1]));
}

/// Sections render in insertion order: adding a section at the end of
/// a document appends exactly that section's block after one blank
/// line and leaves the text of everything already in the document
/// unchanged. No reordering or deduplication ever occurs.
pub proof fn lemma_insertion_order(e1: EditorConfig, e2: EditorConfig, c: Config)
    requires
        e2.root == e1.root,
        e2.configs@ == e1.configs@.push(c),
    ensures
        editor_config_text(e2) == editor_config_text(e1) + "\n\n"@ + config_text(c),
{
    lemma_configs_text_push(e1.configs@, c);
    assert(editor_config_text(e2) =~= editor_config_text(e1) + "\n\n"@ + config_text(c));
}

} // verus!
