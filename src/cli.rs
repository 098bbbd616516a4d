//! Arguments of the subcommands and the text of their help examples.
use vstd::prelude::*;
use vstd::string::*;
use crate::text::joined;
use clap::builder::styling::{Effects, Style};

verus! {

/// Arguments of `switch`.
pub struct SwitchArgs {
    /// The system to switch to; the host's name where absent.
    pub name: Option<String>,
    /// The platform to build for, such as `x86_64-linux`.
    pub system: Option<String>,
}

/// Arguments of `test`.
pub struct TestArgs {
    /// The system to test; the host's name where absent.
    pub name: Option<String>,
    /// The platform to build for, such as `x86_64-linux`.
    pub system: Option<String>,
}

/// Arguments of `build`.
pub struct BuildArgs {
    /// The system to build; the host's name where absent.
    pub name: Option<String>,
    /// The platform to build for, such as `x86_64-linux`.
    pub system: Option<String>,
}

/// Text effects of a terminal style.
#[derive(PartialEq, Eq, Structural, Clone, Copy, Debug)]
pub struct TextStyle {
    pub bold: bool,
    pub dimmed: bool,
    pub underline: bool,
}

/// Bold and underlined, for headings.
pub open spec fn header_style() -> TextStyle {
    TextStyle { bold: true, dimmed: false, underline: true }
}

/// Dimmed, for comments.
pub open spec fn dim_style() -> TextStyle {
    TextStyle { bold: false, dimmed: true, underline: false }
}

/// Bold, for the program's name.
pub open spec fn bold_style() -> TextStyle {
    TextStyle { bold: true, dimmed: false, underline: false }
}

/// The ANSI codes that turn a style on: one per effect, in the order bold,
/// dimmed, underline.
pub open spec fn ansi_start(s: TextStyle) -> Seq<char> {
    (if s.bold {
        "\x1b[1m"@
    } else {
        Seq::empty()
    }) + (if s.dimmed {
        "\x1b[2m"@
    } else {
        Seq::empty()
    }) + (if s.underline {
        "\x1b[4m"@
    } else {
        Seq::empty()
    })
}

/// The ANSI code that turns a style off; nothing for the plain style.
pub open spec fn ansi_end(s: TextStyle) -> Seq<char> {
    if s.bold || s.dimmed || s.underline {
        "\x1b[0m"@
    } else {
        Seq::empty()
    }
}

/// `t` in style `s`.
pub open spec fn styled(s: TextStyle, t: Seq<char>) -> Seq<char> {
    ansi_start(s) + t + ansi_end(s)
}

/// Relies on `anstyle::Style::render` (re-exported by clap), which writes the
/// code of each effect that is set, by the effect's index.
#[verifier::external_body]
fn style_start(s: TextStyle) -> (r: String)
    ensures
        r@ == ansi_start(s),
{
    let effects = Effects::new().set(Effects::BOLD, s.bold).set(Effects::DIMMED, s.dimmed).set(
        Effects::UNDERLINE,
        s.underline,
    );
    Style::new().effects(effects).render().to_string()
}

/// Relies on `anstyle::Style::render_reset` (re-exported by clap): the reset
/// code, left out for a style with no effect.
#[verifier::external_body]
fn style_end(s: TextStyle) -> (r: String)
    ensures
        r@ == ansi_end(s),
{
    let effects = Effects::new().set(Effects::BOLD, s.bold).set(Effects::DIMMED, s.dimmed).set(
        Effects::UNDERLINE,
        s.underline,
    );
    Style::new().effects(effects).render_reset().to_string()
}

fn with_style(s: TextStyle, t: &str) -> (r: String)
    ensures
        r@ == styled(s, t@),
{
    let a = style_start(s);
    let b = joined(a.as_str(), t);
    let c = style_end(s);
    joined(b.as_str(), c.as_str())
}

/// One example: a dimmed comment line, then the command line after a dimmed
/// `$` and a bold program name.
pub open spec fn example_text(comment: Seq<char>, command: Seq<char>) -> Seq<char> {
    "\n  "@ + styled(dim_style(), "# "@ + comment) + "\n  "@ + styled(dim_style(), "$"@) + " "@
        + styled(bold_style(), "nilla"@) + " "@ + command + "\n"@
}

/// The heading and the first `n` examples.
pub open spec fn examples_text(exs: Seq<(Seq<char>, Seq<char>)>, n: int) -> Seq<char>
    decreases n,
{
    if n <= 0 {
        styled(header_style(), "Examples:"@)
    } else {
        examples_text(exs, n - 1) + example_text(exs[n - 1].0, exs[n - 1].1)
    }
}

/// Help text listing examples, each a comment and a command line.
pub fn make_examples(examples: &[(&str, &str)]) -> (r: String)
    ensures
        r@ == examples_text(
            examples@.map_values(|e: (&str, &str)| (e.0@, e.1@)),
            examples@.len() as int,
        ),
{
    let ghost exs = examples@.map_values(|e: (&str, &str)| (e.0@, e.1@));
    let header = TextStyle { bold: true, dimmed: false, underline: true };
    let dim = TextStyle { bold: false, dimmed: true, underline: false };
    let bold = TextStyle { bold: true, dimmed: false, underline: false };
    let mut out = with_style(header, "Examples:");
    let mut i: usize = 0;
    while i < examples.len()
        invariant
            i <= examples@.len(),
            exs == examples@.map_values(|e: (&str, &str)| (e.0@, e.1@)),
            out@ == examples_text(exs, i as int),
            header == header_style(),
            dim == dim_style(),
            bold == bold_style(),
        decreases examples@.len() - i,
    {
        let (comment, command) = examples[i];
        let c = joined("# ", comment);
        let c = with_style(dim, c.as_str());
        let dollar = with_style(dim, "$");
        let nilla = with_style(bold, "nilla");
        let a = joined("\n  ", c.as_str());
        let a = joined(a.as_str(), "\n  ");
        let a = joined(a.as_str(), dollar.as_str());
        let a = joined(a.as_str(), " ");
        let a = joined(a.as_str(), nilla.as_str());
        let a = joined(a.as_str(), " ");
        let a = joined(a.as_str(), command);
        let a = joined(a.as_str(), "\n");
        assert(a@ =~= example_text(exs[i as int].0, exs[i as int].1));
        out = joined(out.as_str(), a.as_str());
        i += 1;
    }
    out
}

} // verus!
