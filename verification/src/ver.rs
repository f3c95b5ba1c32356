//! The version banner.

use vstd::prelude::*;
use vstd::string::*;

verus! {

/// A line of the banner.
#[derive(Debug)]
pub enum BannerLine {
    /// An empty line.
    Blank,
    /// A line that is shown as an information.
    Info(String),
    /// A line that is shown as it is.
    Plain(String),
}

/// A `BannerLine` with its text as a sequence of characters.
pub enum BannerLineView {
    Blank,
    Info(Seq<char>),
    Plain(Seq<char>),
}

impl View for BannerLine {
    type V = BannerLineView;

    open spec fn view(&self) -> BannerLineView {
        match self {
            BannerLine::Blank => BannerLineView::Blank,
            BannerLine::Info(text) => BannerLineView::Info(text@),
            BannerLine::Plain(text) => BannerLineView::Plain(text@),
        }
    }
}

/// The views of the lines of a banner.
pub open spec fn banner_views(lines: Seq<BannerLine>) -> Seq<BannerLineView> {
    lines.map_values(|l: BannerLine| l@)
}

/// A text in bold purple, as a terminal shows it: the escape sequence that
/// switches the style on, the text, and the one that resets the style.
pub open spec fn spec_bold_purple(text: Seq<char>) -> Seq<char> {
    "\x1B[1;35m"@ + text + "\x1B[0m"@
}

/// The banner for the given version of the program.
pub open spec fn spec_banner(version: Seq<char>) -> Seq<BannerLineView> {
    seq![
        BannerLineView::Blank,
        BannerLineView::Info("ame - "@ + version),
        BannerLineView::Blank,
        BannerLineView::Info("Contributors:"@),
        BannerLineView::Plain("- axtlos <axtlos@salyut.one>"@),
        BannerLineView::Plain("- jnats <jnats@salyut.one>"@),
        BannerLineView::Plain("- jasio <jasiobene@icloud.com>"@),
        BannerLineView::Plain("- generic <mdc028@bucknell.edu>"@),
        BannerLineView::Blank,
        BannerLineView::Info("This software is licensed under the BSD 3-Clause license."@),
        BannerLineView::Info("All source code is available at:"@),
        BannerLineView::Blank,
        BannerLineView::Plain(spec_bold_purple("https://git.getcryst.al/crystal/ame"@)),
        BannerLineView::Blank,
    ]
}

/// Paints a text in bold purple with `ansi_term`: `Colour::Purple.bold()`
/// and `Style::paint`, written out by the `Display` of the painted string.
/// The crate writes the codes of the style between `ESC [` and `m`, bold
/// (`1`) before the foreground colour (`35`), then the text, then the reset
/// sequence `ESC [ 0 m`.
#[verifier::external_body]
fn bold_purple(text: &str) -> (painted: String)
    ensures
        painted@ == spec_bold_purple(text@),
{
    ansi_term::Colour::Purple.bold().paint(text).to_string()
}

/// The version banner: the name and version of the program, those who wrote
/// it, its licence, and where its source is.
pub fn ver(version: &str) -> (lines: Vec<BannerLine>)
    ensures
        banner_views(lines@) == spec_banner(version@),
{
    let mut lines: Vec<BannerLine> = Vec::new();
    lines.push(BannerLine::Blank);
    lines.push(BannerLine::Info(String::from_str("ame - ").concat(version)));
    lines.push(BannerLine::Blank);
    lines.push(BannerLine::Info(String::from_str("Contributors:")));
    lines.push(BannerLine::Plain(String::from_str("- axtlos <axtlos@salyut.one>")));
    lines.push(BannerLine::Plain(String::from_str("- jnats <jnats@salyut.one>")));
    lines.push(BannerLine::Plain(String::from_str("- jasio <jasiobene@icloud.com>")));
    lines.push(BannerLine::Plain(String::from_str("- generic <mdc028@bucknell.edu>")));
    lines.push(BannerLine::Blank);
    lines.push(
        BannerLine::Info(
            String::from_str("This software is licensed under the BSD 3-Clause license."),
        ),
    );
    lines.push(BannerLine::Info(String::from_str("All source code is available at:")));
    lines.push(BannerLine::Blank);
    lines.push(BannerLine::Plain(bold_purple("https://git.getcryst.al/crystal/ame")));
    lines.push(BannerLine::Blank);
    assert(banner_views(lines@) =~= spec_banner(version@));
    lines
}

} // verus!
