use vstd::prelude::*;

use crossterm::QueueableCommand;
use std::io::Write;

verus! {

/// Terminal dimensions in character cells, as reported by the terminal
/// driver at the moment of the query.
#[derive(Clone, Copy, Debug, PartialEq, Eq, Structural)]
pub struct Size {
    pub height: usize,
    pub width: usize,
}

impl Default for Size {
    fn default() -> (s: Size)
        ensures
            s.height == 0,
            s.width == 0,
    {
        Size { height: 0, width: 0 }
    }
}

/// An absolute caret position: zero-based column and row.
#[derive(Clone, Copy, Debug, PartialEq, Eq, Structural)]
pub struct Position {
    pub col: usize,
    pub row: usize,
}

impl Default for Position {
    fn default() -> (p: Position)
        ensures
            p.col == 0,
            p.row == 0,
    {
        Position { col: 0, row: 0 }
    }
}

/// The OS error produced by a failing terminal operation; carried through
/// unchanged, never inspected by this crate.
#[verifier::external_type_specification]
#[verifier::external_body]
pub struct ExIoError(std::io::Error);

/// The commands the controller can issue to the terminal driver, used to
/// model the order in which the exec functions below issue them. Only the
/// raw-mode toggles change the driver's input mode; the rest paint, move
/// the caret, or flush queued output.
pub enum TermCommand {
    EnterRaw,
    LeaveRaw,
    ClearScreen,
    ClearLine,
    HideCaret,
    ShowCaret,
    PrintText,
    MoveCaret,
    Flush,
}

/// The terminal's input mode (raw or cooked) after a command sequence runs,
/// starting from mode `raw`.
pub open spec fn raw_mode_after(cmds: Seq<TermCommand>, raw: bool) -> bool
    decreases cmds.len(),
{
    if cmds.len() == 0 {
        raw
    } else {
        let next = match cmds[0] {
            TermCommand::EnterRaw => true,
            TermCommand::LeaveRaw => false,
            _ => raw,
        };
        raw_mode_after(cmds.drop_first(), next)
    }
}

/// The command sequence `Terminal::initialize` issues, in order.
pub open spec fn initialize_commands() -> Seq<TermCommand> {
    seq![TermCommand::EnterRaw, TermCommand::ClearScreen, TermCommand::Flush]
}

/// The command sequence `Terminal::terminate` issues, in order.
pub open spec fn terminate_commands() -> Seq<TermCommand> {
    seq![TermCommand::Flush, TermCommand::LeaveRaw]
}

/// Initialization followed immediately by termination is a round trip on the
/// terminal's input mode: whatever mode the terminal started in, the command
/// sequence of `initialize` ends in raw mode, and appending the sequence of
/// `terminate` leaves the terminal in cooked mode.
pub proof fn lemma_initialize_then_terminate_cooked(raw: bool)
    ensures
        raw_mode_after(initialize_commands(), raw),
        !raw_mode_after(initialize_commands() + terminate_commands(), raw),
{
    let all = initialize_commands() + terminate_commands();
    let s1 = all.drop_first();
    let s2 = s1.drop_first();
    let s3 = s2.drop_first();
    let s4 = s3.drop_first();
    let s5 = s4.drop_first();
    assert(all[0] == TermCommand::EnterRaw);
    assert(raw_mode_after(all, raw) == raw_mode_after(s1, true));
    assert(s1[0] == TermCommand::ClearScreen);
    assert(raw_mode_after(s1, true) == raw_mode_after(s2, true));
    assert(s2[0] == TermCommand::Flush);
    assert(raw_mode_after(s2, true) == raw_mode_after(s3, true));
    assert(s3[0] == TermCommand::Flush);
    assert(raw_mode_after(s3, true) == raw_mode_after(s4, true));
    assert(s4[0] == TermCommand::LeaveRaw);
    assert(raw_mode_after(s4, true) == raw_mode_after(s5, false));
    assert(s5.len() == 0);
    assert(!raw_mode_after(s5, false));
    let i0 = initialize_commands();
    let i1 = i0.drop_first();
    let i2 = i1.drop_first();
    let i3 = i2.drop_first();
    assert(i0[0] == TermCommand::EnterRaw);
    assert(raw_mode_after(i0, raw) == raw_mode_after(i1, true));
    assert(i1[0] == TermCommand::ClearScreen);
    assert(raw_mode_after(i1, true) == raw_mode_after(i2, true));
    assert(i2[0] == TermCommand::Flush);
    assert(raw_mode_after(i2, true) == raw_mode_after(i3, true));
    assert(i3.len() == 0);
    assert(raw_mode_after(i3, true));
}

/// The sole owner of terminal mode state and the sole issuer of terminal
/// control sequences. Drawing commands are queued and become visible only
/// when `execute` flushes them.
pub struct Terminal;

impl Terminal {
    /// Enters raw input mode and clears the whole screen; the commands it
    /// issues are `initialize_commands()`, in that order. Must be called
    /// exactly once before any drawing; fails with the OS error when the
    /// terminal cannot be configured.
    pub fn initialize() -> Result<(), std::io::Error> {
        enter_raw_mode()?;
        Self::clean_screen()?;
        Self::execute()?;
        Ok(())
    }

    /// Flushes pending output and restores cooked mode; the commands it
    /// issues are `terminate_commands()`, in that order. Must be invoked on
    /// every exit path after a successful `initialize`.
    pub fn terminate() -> Result<(), std::io::Error> {
        Self::execute()?;
        leave_raw_mode()?;
        Ok(())
    }

    /// Queues a clear of the whole screen.
    /// Relies on crossterm's terminal::Clear(ClearType::All) queued on stdout.
    #[verifier::external_body]
    pub fn clean_screen() -> Result<(), std::io::Error> {
        std::io::stdout().queue(crossterm::terminal::Clear(crossterm::terminal::ClearType::All))?;
        Ok(())
    }

    /// Queues a clear of the line the caret is on.
    /// Relies on crossterm's terminal::Clear(ClearType::CurrentLine) queued on stdout.
    #[verifier::external_body]
    pub fn clean_line() -> Result<(), std::io::Error> {
        std::io::stdout().queue(
            crossterm::terminal::Clear(crossterm::terminal::ClearType::CurrentLine),
        )?;
        Ok(())
    }

    /// Queues a command that makes the caret invisible.
    /// Relies on crossterm's cursor::Hide queued on stdout.
    #[verifier::external_body]
    pub fn hide_caret() -> Result<(), std::io::Error> {
        std::io::stdout().queue(crossterm::cursor::Hide)?;
        Ok(())
    }

    /// Queues a command that makes the caret visible again.
    /// Relies on crossterm's cursor::Show queued on stdout.
    #[verifier::external_body]
    pub fn show_caret() -> Result<(), std::io::Error> {
        std::io::stdout().queue(crossterm::cursor::Show)?;
        Ok(())
    }

    /// Queues `text` for output at the current caret position; adds no line
    /// break and does not move the caret itself.
    /// Relies on crossterm's style::Print queued on stdout.
    #[verifier::external_body]
    pub fn print(text: &str) -> Result<(), std::io::Error> {
        std::io::stdout().queue(crossterm::style::Print(text))?;
        Ok(())
    }

    /// Queues an absolute caret move to the given zero-based column and row;
    /// positions inside the driver's cell range but outside the terminal
    /// bounds are the caller's responsibility. The driver addresses cells as
    /// one-based u16 pairs, so each coordinate must stay below the u16
    /// maximum: MoveTo adds one to each in u16 arithmetic, which would
    /// overflow on the maximum itself.
    /// Relies on crossterm's cursor::MoveTo queued on stdout.
    #[verifier::external_body]
    pub fn move_caret_to(position: Position) -> Result<(), std::io::Error>
        requires
            position.col < u16::MAX as usize,
            position.row < u16::MAX as usize,
    {
        std::io::stdout().queue(
            crossterm::cursor::MoveTo(position.col as u16, position.row as u16),
        )?;
        Ok(())
    }

    /// Queries the terminal driver for its current size; reflects the size at
    /// the instant of the call and may change between calls.
    /// Relies on crossterm's terminal::size, which reports the terminal's
    /// columns and rows as u16 values.
    #[verifier::external_body]
    pub fn size() -> (r: Result<Size, std::io::Error>)
        ensures
            r matches Ok(s) ==> s.height <= u16::MAX as usize && s.width <= u16::MAX as usize,
    {
        match crossterm::terminal::size() {
            Ok((width_u16, height_u16)) => Ok(Size {
                height: height_u16 as usize,
                width: width_u16 as usize,
            }),
            Err(e) => Err(e),
        }
    }

    /// Delivers all queued commands to the terminal.
    /// Relies on std::io::Stdout::flush.
    #[verifier::external_body]
    pub fn execute() -> Result<(), std::io::Error> {
        std::io::stdout().flush()?;
        Ok(())
    }
}

/// Relies on crossterm's terminal::enable_raw_mode: switches the terminal
/// driver into raw input mode, or reports the OS error.
#[verifier::external_body]
fn enter_raw_mode() -> Result<(), std::io::Error> {
    crossterm::terminal::enable_raw_mode()
}

/// Relies on crossterm's terminal::disable_raw_mode: restores the terminal
/// driver to cooked input mode, or reports the OS error.
#[verifier::external_body]
fn leave_raw_mode() -> Result<(), std::io::Error> {
    crossterm::terminal::disable_raw_mode()
}

} // verus!
