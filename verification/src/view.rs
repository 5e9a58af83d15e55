use vstd::prelude::*;
use vstd::string::*;
use vstd::view::View as _;

use crate::terminal::{Size, Terminal};

verus! {

/// An ordered sequence of text lines; insertion order is display order.
/// Populated by an outside collaborator before the first render pass and
/// read-only for this crate.
pub struct Buffer {
    pub lines: Vec<String>,
}

impl Default for Buffer {
    fn default() -> (b: Buffer)
        ensures
            b.lines@.len() == 0,
    {
        Buffer { lines: Vec::new() }
    }
}

/// The welcome banner's message for a given product name and version.
pub open spec fn spec_welcome_message(name: Seq<char>, version: Seq<char>) -> Seq<char> {
    name + " editor -- version "@ + version
}

/// A run of `n` spaces.
pub open spec fn spec_spaces(n: int) -> Seq<char> {
    Seq::new(n as nat, |i: int| ' ')
}

/// Left padding that centers a message of length `len` in a row of `width`
/// cells: half the leftover space, truncated toward zero, and zero when the
/// message does not fit.
pub open spec fn spec_welcome_padding(width: int, len: int) -> int {
    if width > len {
        (width - len) / 2
    } else {
        0
    }
}

/// The full welcome row: a `~` marker, then the centering spaces (one fewer
/// than the padding, to leave room for the marker), then the message, the
/// whole cut to at most `width` characters.
pub open spec fn spec_welcome_row(name: Seq<char>, version: Seq<char>, width: int) -> Seq<char> {
    let message = spec_welcome_message(name, version);
    let padding = spec_welcome_padding(width, message.len() as int);
    let spaces = if padding > 0 {
        padding - 1
    } else {
        0
    };
    let full = "~"@ + spec_spaces(spaces) + message;
    if full.len() > width {
        full.take(width)
    } else {
        full
    }
}

/// Builds the welcome banner row for a terminal `width` cells wide.
pub fn welcome_row(name: &str, version: &str, width: usize) -> (s: String)
    ensures
        s@ == spec_welcome_row(name@, version@, width as int),
{
    let mut message = name.to_owned();
    message.append(" editor -- version ");
    message.append(version);
    proof {
        assert(message@ =~= spec_welcome_message(name@, version@));
    }
    let message_len = message.as_str().unicode_len();
    let padding: usize = if width > message_len {
        (width - message_len) / 2
    } else {
        0
    };
    let space_count: usize = if padding > 0 {
        padding - 1
    } else {
        0
    };
    let mut row: String = "~".to_owned();
    proof {
        assert(row@ =~= "~"@ + spec_spaces(0));
    }
    let mut i: usize = 0;
    while i < space_count
        invariant
            i <= space_count,
            row@ == "~"@ + spec_spaces(i as int),
        decreases space_count - i,
    {
        row.append(" ");
        proof {
            reveal_strlit(" ");
            assert(row@ =~= "~"@ + spec_spaces(i as int + 1));
        }
        i += 1;
    }
    row.append(message.as_str());
    proof {
        assert(row@ =~= "~"@ + spec_spaces(space_count as int) + spec_welcome_message(
            name@,
            version@,
        ));
    }
    let row_len = row.as_str().unicode_len();
    if row_len > width {
        let cut = row.as_str().substring_char(0, width).to_owned();
        proof {
            assert(cut@ =~= spec_welcome_row(name@, version@, width as int));
        }
        cut
    } else {
        row
    }
}

/// The text a render pass paints on row `r`, out of `height` visible rows of
/// `width` cells: the buffer line at `r` when there is one; on a filler row,
/// the welcome banner at row `height / 3` and the placeholder `~` elsewhere.
pub open spec fn spec_row_text(
    lines: Seq<Seq<char>>,
    height: int,
    width: int,
    name: Seq<char>,
    version: Seq<char>,
    r: int,
) -> Seq<char> {
    if r < lines.len() {
        lines[r]
    } else if r == height / 3 {
        spec_welcome_row(name, version, width)
    } else {
        "~"@
    }
}

/// Whether a line break follows row `r`: always after a buffer line, and
/// after a filler row only when it is not the last visible row (so the pass
/// never scrolls the terminal by one extra line).
pub open spec fn spec_row_break(lines_len: int, height: int, r: int) -> bool {
    r < lines_len || r + 1 < height
}

/// One row of a render pass: the text painted on it and whether a line
/// break follows it.
pub struct RenderedRow {
    pub text: String,
    pub line_break: bool,
}

/// Computes the whole render pass for a buffer of `lines` on a terminal of
/// `height` rows and `width` columns: one entry per visible row, in order.
pub fn render_rows(
    lines: &Vec<String>,
    height: usize,
    width: usize,
    name: &str,
    version: &str,
) -> (rows: Vec<RenderedRow>)
    ensures
        rows@.len() == height as int,
        forall|r: int|
            0 <= r < height ==> (#[trigger] rows@[r]).text@ == spec_row_text(
                lines.deep_view(),
                height as int,
                width as int,
                name@,
                version@,
                r,
            ),
        forall|r: int|
            0 <= r < height ==> (#[trigger] rows@[r]).line_break == spec_row_break(
                lines@.len() as int,
                height as int,
                r,
            ),
{
    let mut rows: Vec<RenderedRow> = Vec::new();
    let mut r: usize = 0;
    while r < height
        invariant
            r <= height,
            rows@.len() == r as int,
            forall|j: int|
                0 <= j < r ==> (#[trigger] rows@[j]).text@ == spec_row_text(
                    lines.deep_view(),
                    height as int,
                    width as int,
                    name@,
                    version@,
                    j,
                ),
            forall|j: int|
                0 <= j < r ==> (#[trigger] rows@[j]).line_break == spec_row_break(
                    lines@.len() as int,
                    height as int,
                    j,
                ),
        decreases height - r,
    {
        let text: String = if r < lines.len() {
            lines[r].clone()
        } else if r == height / 3 {
            welcome_row(name, version, width)
        } else {
            "~".to_owned()
        };
        let line_break: bool = r < lines.len() || r + 1 < height;
        rows.push(RenderedRow { text, line_break });
        r += 1;
    }
    rows
}

/// For every terminal width and every banner message, the welcome row is
/// `min(width, 1 + spaces + message length)` characters long — `spaces`
/// being the centering padding less one cell for the `~` marker, clamped at
/// zero — and never exceeds the terminal width.
pub proof fn lemma_welcome_row_length(name: Seq<char>, version: Seq<char>, width: int)
    requires
        width >= 0,
    ensures
        ({
            let message_len = spec_welcome_message(name, version).len() as int;
            let padding = spec_welcome_padding(width, message_len);
            let spaces = if padding > 0 {
                padding - 1
            } else {
                0
            };
            let full_len = 1 + spaces + message_len;
            spec_welcome_row(name, version, width).len() == if full_len > width {
                width
            } else {
                full_len
            }
        }),
        spec_welcome_row(name, version, width).len() <= width,
{
    reveal_strlit("~");
}

/// A render pass over an empty line buffer leaves no row blank: it paints
/// the welcome banner on row `height / 3` and the placeholder `~` on every
/// other row, with a line break after every row but the last.
pub proof fn lemma_empty_buffer_pass(
    lines: Seq<Seq<char>>,
    height: int,
    width: int,
    name: Seq<char>,
    version: Seq<char>,
)
    requires
        lines.len() == 0,
    ensures
        forall|r: int|
            0 <= r < height ==> spec_row_text(lines, height, width, name, version, r) == (if r
                == height / 3 {
                spec_welcome_row(name, version, width)
            } else {
                "~"@
            }),
        forall|r: int|
            0 <= r < height ==> spec_row_break(lines.len() as int, height, r) == (r + 1 < height),
{
}

/// With `N` buffer lines and `height` visible rows: when `N >= height`,
/// every rendered row is the buffer line of its index — no placeholder and
/// no banner — and a line break follows each one; when `N < height`, rows
/// `0..N` are buffer lines followed by a line break, and rows `N..height`
/// follow the filler rules: the banner on row `height / 3`, the placeholder
/// `~` elsewhere.
pub proof fn lemma_buffer_rows(
    lines: Seq<Seq<char>>,
    height: int,
    width: int,
    name: Seq<char>,
    version: Seq<char>,
)
    ensures
        lines.len() >= height ==> forall|r: int|
            0 <= r < height ==> spec_row_text(lines, height, width, name, version, r) == lines[r],
        forall|r: int|
            0 <= r < height && r < lines.len() ==> spec_row_text(
                lines,
                height,
                width,
                name,
                version,
                r,
            ) == lines[r] && spec_row_break(lines.len() as int, height, r),
        forall|r: int|
            lines.len() <= r < height ==> spec_row_text(lines, height, width, name, version, r)
                == (if r == height / 3 {
                spec_welcome_row(name, version, width)
            } else {
                "~"@
            }),
{
}

/// Two consecutive render passes with an unchanged buffer, an unchanged
/// terminal size, and unchanged banner inputs paint identical row
/// sequences: the same text and the same line breaks on every row.
pub proof fn lemma_render_pass_deterministic(
    lines1: Seq<Seq<char>>,
    lines2: Seq<Seq<char>>,
    height1: int,
    height2: int,
    width1: int,
    width2: int,
    name1: Seq<char>,
    name2: Seq<char>,
    version1: Seq<char>,
    version2: Seq<char>,
)
    requires
        lines1 == lines2,
        height1 == height2,
        width1 == width2,
        name1 == name2,
        version1 == version2,
    ensures
        forall|r: int|
            spec_row_text(lines1, height1, width1, name1, version1, r) == spec_row_text(
                lines2,
                height2,
                width2,
                name2,
                version2,
                r,
            ),
        forall|r: int|
            spec_row_break(lines1.len() as int, height1, r) == spec_row_break(
                lines2.len() as int,
                height2,
                r,
            ),
{
}

/// Translates a line buffer plus the current terminal size into a
/// full-screen repaint.
pub struct View {
    pub buffer: Buffer,
    pub name: String,
    pub version: String,
}

impl View {
    /// A view over `lines`, with the product name and version shown in the
    /// welcome banner.
    pub fn new(name: &str, version: &str, lines: Vec<String>) -> (v: View)
        ensures
            v.buffer.lines == lines,
            v.name@ == name@,
            v.version@ == version@,
    {
        View { buffer: Buffer { lines }, name: name.to_owned(), version: version.to_owned() }
    }

    /// One full repaint: queries the current terminal size, computes the
    /// pass with `render_rows`, and queues each row as a clear of the
    /// current line, the row's text, and its line break if it has one.
    /// Queued output stays invisible until the caller flushes it with
    /// `Terminal::execute`; a failing terminal operation aborts the pass at
    /// that row and is returned unchanged.
    pub fn render(&self) -> Result<(), std::io::Error> {
        let size: Size = Terminal::size()?;
        let rows = render_rows(
            &self.buffer.lines,
            size.height,
            size.width,
            self.name.as_str(),
            self.version.as_str(),
        );
        let mut r: usize = 0;
        while r < rows.len()
            invariant
                r <= rows@.len(),
            decreases rows@.len() - r,
        {
            Terminal::clean_line()?;
            Terminal::print(rows[r].text.as_str())?;
            if rows[r].line_break {
                Terminal::print("\r\n")?;
            }
            r += 1;
        }
        Ok(())
    }
}

impl Default for View {
    fn default() -> (v: View)
        ensures
            v.buffer.lines@.len() == 0,
            v.name@.len() == 0,
            v.version@.len() == 0,
    {
        View { buffer: Buffer { lines: Vec::new() }, name: String::new(), version: String::new() }
    }
}

} // verus!
