//! Turning results into text for a terminal: one line per result, with or
//! without labels, optionally beside a logo.

pub mod color;

use vstd::prelude::*;
use vstd::string::StringExecFns;
use crate::logo::{shown_lines, Logo, LogoView};
use crate::modules::ModuleKind;
use crate::text::to_chars;
use crate::tokens::{opt_str_view, texts};

verus! {

/// One result, ready to be shown: the text of what was detected, or the
/// text of a fault, or neither where the information is unavailable.
#[derive(Debug, Clone, PartialEq, Eq)]
pub struct RenderedModule {
    pub kind: ModuleKind,
    pub value: Option<String>,
    pub error: Option<String>,
}

/// The mathematical value of a [`RenderedModule`].
pub struct RenderedModuleView {
    pub kind: ModuleKind,
    pub value: Option<Seq<char>>,
    pub error: Option<Seq<char>>,
}

impl View for RenderedModule {
    type V = RenderedModuleView;

    open spec fn view(&self) -> RenderedModuleView {
        RenderedModuleView {
            kind: self.kind,
            value: opt_str_view(self.value),
            error: opt_str_view(self.error),
        }
    }
}

impl RenderedModule {
    /// The result of `kind` that was detected and shows as `value`.
    pub fn value(kind: ModuleKind, value: String) -> (m: RenderedModule)
        ensures
            m@ == (RenderedModuleView { kind, value: Some(value@), error: None }),
    {
        RenderedModule { kind, value: Some(value), error: None }
    }

    /// The result of `kind` that is unavailable.
    pub fn unavailable(kind: ModuleKind) -> (m: RenderedModule)
        ensures
            m@ == (RenderedModuleView { kind, value: None, error: None }),
    {
        RenderedModule { kind, value: None, error: None }
    }

    /// The result of `kind` that is the fault described by `error`.
    pub fn error(kind: ModuleKind, error: String) -> (m: RenderedModule)
        ensures
            m@ == (RenderedModuleView { kind, value: None, error: Some(error@) }),
    {
        RenderedModule { kind, value: None, error: Some(error) }
    }
}

/// The views of the results of `modules`.
pub open spec fn modules_view(modules: Seq<RenderedModule>) -> Seq<RenderedModuleView> {
    Seq::new(modules.len(), |i: int| modules[i]@)
}

/// `n` spaces.
pub open spec fn spaces(n: nat) -> Seq<char> {
    Seq::new(n, |i: int| ' ')
}

/// The length of the longest display name among `modules`; 0 for none.
pub open spec fn label_width_of(modules: Seq<RenderedModuleView>) -> nat
    decreases modules.len(),
{
    if modules.len() == 0 {
        0
    } else {
        let before = label_width_of(modules.drop_last());
        let name = modules.last().kind.name_of().len();
        if name > before {
            name
        } else {
            before
        }
    }
}

/// A labelled line: the display name of `kind`, spaces up to `width` if
/// the name is shorter, a colon, a space, and `rest`.
pub open spec fn labelled(kind: ModuleKind, width: nat, rest: Seq<char>) -> Seq<char> {
    let name = kind.name_of();
    let padding = if name.len() <= width {
        (width - name.len()) as nat
    } else {
        0
    };
    name + spaces(padding) + ": "@ + rest
}

/// The line that shows one result, if it is shown. With labels every
/// result has a line: the value, or `Error - ` and the fault, or `Not
/// available`. Without labels only a value has a line, and the line is
/// the value alone.
pub open spec fn module_line(m: RenderedModuleView, values_only: bool, width: nat) -> Option<
    Seq<char>,
> {
    match m.value {
        Some(value) => Some(
            if values_only {
                value
            } else {
                labelled(m.kind, width, value)
            },
        ),
        None => if values_only {
            None
        } else {
            match m.error {
                Some(error) => Some(labelled(m.kind, width, "Error - "@ + error)),
                None => Some(labelled(m.kind, width, "Not available"@)),
            }
        },
    }
}

/// The lines that show `modules`, in their order.
pub open spec fn module_lines(
    modules: Seq<RenderedModuleView>,
    values_only: bool,
    width: nat,
) -> Seq<Seq<char>>
    decreases modules.len(),
{
    if modules.len() == 0 {
        Seq::empty()
    } else {
        let before = module_lines(modules.drop_last(), values_only, width);
        match module_line(modules.last(), values_only, width) {
            Some(line) => before.push(line),
            None => before,
        }
    }
}

/// The lines that stand above the results: the program's name and an
/// empty line, and nothing without labels.
pub open spec fn heading(values_only: bool) -> Seq<Seq<char>> {
    if values_only {
        Seq::empty()
    } else {
        seq!["fastfetch-rs"@, Seq::empty()]
    }
}

/// All lines of the results: the heading, then one line for each result
/// that is shown, the labels padded to the longest of them.
pub open spec fn content_lines(modules: Seq<RenderedModuleView>, values_only: bool) -> Seq<
    Seq<char>,
> {
    heading(values_only) + module_lines(modules, values_only, label_width_of(modules))
}

/// `lines` with a line feed between each two of them.
pub open spec fn joined(lines: Seq<Seq<char>>) -> Seq<char>
    decreases lines.len(),
{
    if lines.len() == 0 {
        Seq::empty()
    } else if lines.len() == 1 {
        lines[0]
    } else {
        joined(lines.drop_last()) + seq!['\n'] + lines.last()
    }
}

/// Whether `c` is taken for a part of an escape sequence when the width
/// of a logo's line is measured: the escape character, a digit, an
/// opening square bracket, a semicolon or the letter `m`.
pub open spec fn is_escape_part(c: char) -> bool {
    c == '\x1b' || '0' <= c <= '9' || c == '[' || c == ';' || c == 'm'
}

/// The number of bytes that `c` takes in UTF-8.
pub open spec fn utf8_len(c: char) -> nat {
    if (c as u32) < 0x80 {
        1
    } else if (c as u32) < 0x800 {
        2
    } else if (c as u32) < 0x10000 {
        3
    } else {
        4
    }
}

/// The width that a logo's line is taken to have on the screen: the bytes
/// of its characters, those left out that are taken for parts of escape
/// sequences.
pub open spec fn visible_width(line: Seq<char>) -> nat
    decreases line.len(),
{
    if line.len() == 0 {
        0
    } else {
        let before = visible_width(line.drop_last());
        if is_escape_part(line.last()) {
            before
        } else {
            before + utf8_len(line.last())
        }
    }
}

/// The width of `line`, as [`visible_width`] has it, or the largest
/// machine word where the width is larger.
pub fn measure_visible(line: &str) -> (w: usize)
    ensures
        visible_width(line@) <= usize::MAX ==> w == visible_width(line@),
        visible_width(line@) > usize::MAX ==> w == usize::MAX,
{
    let chars = to_chars(line);
    let mut w: usize = 0;
    let mut i: usize = 0;
    proof {
        assert(chars@.take(0) =~= Seq::<char>::empty());
    }
    while i < chars.len()
        invariant
            i <= chars.len(),
            visible_width(chars@.take(i as int)) <= usize::MAX ==> w == visible_width(
                chars@.take(i as int),
            ),
            visible_width(chars@.take(i as int)) > usize::MAX ==> w == usize::MAX,
        decreases chars.len() - i,
    {
        proof {
            assert(chars@.take(i + 1).drop_last() =~= chars@.take(i as int));
            assert(chars@.take(i + 1).last() == chars@[i as int]);
        }
        let c: char = chars[i];
        let part = c == '\x1b' || (c >= '0' && c <= '9') || c == '[' || c == ';' || c == 'm';
        if !part {
            let code = c as u32;
            let bytes: usize = if code < 0x80 {
                1
            } else if code < 0x800 {
                2
            } else if code < 0x10000 {
                3
            } else {
                4
            };
            w = w.saturating_add(bytes);
        }
        i += 1;
    }
    proof {
        assert(chars@.take(i as int) =~= chars@);
    }
    w
}

/// The line `i` of the results beside the logo: the logo's line, spaces
/// up to the logo's width, two more spaces, and the line of the results.
/// Where either has no line `i`, the empty line stands for it.
pub open spec fn merged_line(
    content: Seq<Seq<char>>,
    logo_lines: Seq<Seq<char>>,
    width: nat,
    i: int,
) -> Seq<char> {
    let logo_line = if 0 <= i < logo_lines.len() {
        logo_lines[i]
    } else {
        Seq::empty()
    };
    let content_line = if 0 <= i < content.len() {
        content[i]
    } else {
        Seq::empty()
    };
    let shown = visible_width(logo_line);
    let padding = if shown <= width {
        (width - shown) as nat
    } else {
        0
    };
    logo_line + spaces(padding) + "  "@ + content_line
}

/// The results beside the logo: as many lines as the longer of the two
/// has, each as [`merged_line`] has it.
pub open spec fn merged_lines(content: Seq<Seq<char>>, logo_lines: Seq<Seq<char>>, width: nat) -> Seq<
    Seq<char>,
> {
    let total = if content.len() >= logo_lines.len() {
        content.len()
    } else {
        logo_lines.len()
    };
    Seq::new(total, |i: int| merged_line(content, logo_lines, width, i))
}

/// Shows results with or without labels, and beside a logo if it has one.
#[derive(Debug, Clone)]
pub struct OutputFormatter {
    values_only: bool,
    logo: Option<Logo>,
}

/// The mathematical value of an [`OutputFormatter`].
pub struct OutputFormatterView {
    pub values_only: bool,
    pub logo: Option<LogoView>,
}

impl View for OutputFormatter {
    type V = OutputFormatterView;

    closed spec fn view(&self) -> OutputFormatterView {
        OutputFormatterView {
            values_only: self.values_only,
            logo: match self.logo {
                Some(l) => Some(l@),
                None => None,
            },
        }
    }
}

/// The text that a formatter makes of `modules`: the lines of the
/// results, beside the logo's if there is a logo, with a line feed
/// between each two.
pub open spec fn rendered_text(f: OutputFormatterView, modules: Seq<RenderedModuleView>) -> Seq<
    char,
> {
    let content = content_lines(modules, f.values_only);
    match f.logo {
        Some(logo) => joined(merged_lines(content, shown_lines(logo), logo.width)),
        None => joined(content),
    }
}

/// Puts `n` spaces at the end of `text`.
pub fn push_spaces(text: &mut String, n: usize)
    ensures
        final(text)@ == old(text)@ + spaces(n as nat),
{
    let mut i: usize = 0;
    proof {
        assert(text@ =~= old(text)@ + spaces(0));
    }
    while i < n
        invariant
            i <= n,
            text@ == old(text)@ + spaces(i as nat),
        decreases n - i,
    {
        text.append(" ");
        proof {
            reveal_strlit(" ");
            assert(" "@ =~= seq![' ']);
            assert(text@ =~= old(text)@ + spaces((i + 1) as nat));
        }
        i += 1;
    }
}

/// `lines` with a line feed between each two of them.
pub fn join_lines(lines: &Vec<String>) -> (out: String)
    ensures
        out@ == joined(texts(lines@)),
{
    let mut out = String::new();
    let mut i: usize = 0;
    let ghost all = texts(lines@);
    proof {
        assert(all.take(0) =~= Seq::<Seq<char>>::empty());
    }
    while i < lines.len()
        invariant
            i <= lines.len(),
            all == texts(lines@),
            out@ == joined(all.take(i as int)),
        decreases lines.len() - i,
    {
        proof {
            assert(all.take(i + 1).drop_last() =~= all.take(i as int));
            assert(all.take(i + 1).last() == lines@[i as int]@);
            if i == 0 {
                assert(all.take(1)[0] == lines@[0]@);
            }
        }
        if i > 0 {
            out.append("\n");
            proof {
                reveal_strlit("\n");
                assert("\n"@ =~= seq!['\n']);
            }
        }
        out.append(lines[i].as_str());
        proof {
            if i == 0 {
                assert(out@ =~= lines@[0]@);
            }
        }
        i += 1;
    }
    proof {
        assert(all.take(i as int) =~= all);
    }
    out
}

/// A labelled line, as [`labelled`] has it.
pub fn label_line(kind: ModuleKind, width: usize, rest: &str) -> (line: String)
    ensures
        line@ == labelled(kind, width as nat, rest@),
{
    let name = kind.name();
    let mut line = name.to_owned();
    let used = name.unicode_len();
    push_spaces(&mut line, width.saturating_sub(used));
    line.append(": ");
    line.append(rest);
    line
}

/// The length of the longest display name among `modules`.
pub fn label_width(modules: &[RenderedModule]) -> (w: usize)
    ensures
        w == label_width_of(modules_view(modules@)),
{
    let mut w: usize = 0;
    let mut i: usize = 0;
    let ghost all = modules_view(modules@);
    proof {
        assert(all.take(0) =~= Seq::<RenderedModuleView>::empty());
    }
    while i < modules.len()
        invariant
            i <= modules.len(),
            all == modules_view(modules@),
            w == label_width_of(all.take(i as int)),
        decreases modules.len() - i,
    {
        proof {
            assert(all.take(i + 1).drop_last() =~= all.take(i as int));
            assert(all.take(i + 1).last() == modules@[i as int]@);
        }
        let n = modules[i].kind.name().unicode_len();
        if n > w {
            w = n;
        }
        i += 1;
    }
    proof {
        assert(all.take(i as int) =~= all);
    }
    w
}

impl OutputFormatter {
    /// A formatter that shows values alone if `values_only` is set, and
    /// the results beside `logo` if there is one.
    pub fn new(values_only: bool, logo: Option<Logo>) -> (f: OutputFormatter)
        ensures
            f@ == (OutputFormatterView {
                values_only,
                logo: match logo {
                    Some(l) => Some(l@),
                    None => None,
                },
            }),
    {
        OutputFormatter { values_only, logo }
    }

    /// The lines of the results, as [`content_lines`] has them.
    pub fn content(&self, modules: &[RenderedModule]) -> (lines: Vec<String>)
        ensures
            texts(lines@) == content_lines(modules_view(modules@), self@.values_only),
    {
        let mut lines: Vec<String> = Vec::new();
        if !self.values_only {
            lines.push("fastfetch-rs".to_owned());
            lines.push(String::new());
        }
        proof {
            assert(texts(lines@) =~= heading(self.values_only));
        }
        let width = label_width(modules);
        let ghost all = modules_view(modules@);
        let ghost w = width as nat;
        let mut i: usize = 0;
        proof {
            assert(all.take(0) =~= Seq::<RenderedModuleView>::empty());
            assert(texts(lines@) =~= heading(self.values_only) + module_lines(
                all.take(0),
                self.values_only,
                w,
            ));
        }
        while i < modules.len()
            invariant
                i <= modules.len(),
                all == modules_view(modules@),
                w == width,
                texts(lines@) == heading(self.values_only) + module_lines(
                    all.take(i as int),
                    self.values_only,
                    w,
                ),
            decreases modules.len() - i,
        {
            proof {
                assert(all.take(i + 1).drop_last() =~= all.take(i as int));
                assert(all.take(i + 1).last() == modules@[i as int]@);
            }
            let ghost before = texts(lines@);
            let module = &modules[i];
            let line: Option<String> = match &module.value {
                Some(value) => if self.values_only {
                    Some(value.clone())
                } else {
                    Some(label_line(module.kind, width, value.as_str()))
                },
                None => if self.values_only {
                    None
                } else {
                    match &module.error {
                        Some(error) => {
                            let rest = "Error - ".to_owned().concat(error.as_str());
                            Some(label_line(module.kind, width, rest.as_str()))
                        },
                        None => Some(label_line(module.kind, width, "Not available")),
                    }
                },
            };
            proof {
                assert(opt_str_view(line) == module_line(modules@[i as int]@, self.values_only, w));
            }
            match line {
                Some(text) => {
                    lines.push(text);
                    proof {
                        assert(texts(lines@) =~= before.push(text@));
                    }
                },
                None => {},
            }
            proof {
                assert(texts(lines@) =~= heading(self.values_only) + module_lines(
                    all.take(i + 1),
                    self.values_only,
                    w,
                ));
            }
            i += 1;
        }
        proof {
            assert(all.take(i as int) =~= all);
        }
        lines
    }

    /// The text that shows `modules`, as [`rendered_text`] has it.
    pub fn render(&self, modules: &[RenderedModule]) -> (out: String)
        ensures
            out@ == rendered_text(self@, modules_view(modules@)),
    {
        let lines = self.content(modules);
        match &self.logo {
            Some(logo) => self.merge_with_logo(lines, logo),
            None => join_lines(&lines),
        }
    }

    /// The lines `lines` beside `logo`, as [`merged_lines`] has them, with
    /// a line feed between each two.
    pub fn merge_with_logo(&self, lines: Vec<String>, logo: &Logo) -> (out: String)
        ensures
            out@ == joined(merged_lines(texts(lines@), shown_lines(logo@), logo@.width)),
    {
        let logo_lines = logo.lines();
        let total = if lines.len() >= logo_lines.len() {
            lines.len()
        } else {
            logo_lines.len()
        };
        let ghost content = texts(lines@);
        let ghost art = texts(logo_lines@);
        let ghost target = merged_lines(content, art, logo@.width);
        let mut rendered: Vec<String> = Vec::new();
        let mut idx: usize = 0;
        while idx < total
            invariant
                idx <= total,
                total == target.len(),
                content == texts(lines@),
                art == texts(logo_lines@),
                art == shown_lines(logo@),
                target == merged_lines(content, art, logo@.width),
                rendered@.len() == idx,
                forall|k: int| 0 <= k < idx ==> rendered@[k]@ == target[k],
            decreases total - idx,
        {
            let mut line = String::new();
            let shown = if idx < logo_lines.len() {
                line.append(logo_lines[idx].as_str());
                measure_visible(logo_lines[idx].as_str())
            } else {
                0
            };
            let padding = logo.width().saturating_sub(shown);
            push_spaces(&mut line, padding);
            line.append("  ");
            if idx < lines.len() {
                line.append(lines[idx].as_str());
            }
            proof {
                assert(line@ =~= merged_line(content, art, logo@.width, idx as int));
            }
            rendered.push(line);
            idx += 1;
        }
        proof {
            assert(texts(rendered@) =~= target);
        }
        join_lines(&rendered)
    }
}

} // verus!
