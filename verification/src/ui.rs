//! The lines of the plain terminal output: a timestamp, an icon, a message.
//!
//! Every function here builds the line; printing it is left to the caller.

use vstd::prelude::*;
use vstd::string::StringExecFns;
use crate::downloader::same_chars;
use crate::text::chars_of;
use crate::text::clock_text;
use crate::text::format_clock;
use crate::text::skip_spaces;
use crate::text::skip_whitespace;
use crate::text::string_of;
use crate::text::trim_end;
use crate::text::trim_trailing;
use crate::tui::unix_seconds;

verus! {

/// The builder of terminal lines.
pub struct TerminalUI;

/// The time of day shown on a terminal line for the moment `secs` seconds
/// after the Unix epoch: the UTC hour plus eight, not wrapped at midnight.
pub open spec fn terminal_timestamp_text(secs: int) -> Seq<char> {
    clock_text((secs / 3600) % 24 + 8, (secs / 60) % 60, secs % 60)
}

/// A terminal line: the timestamp in brackets, the icon, the message.
pub open spec fn status_line(timestamp: Seq<char>, icon: Seq<char>, message: Seq<char>) -> Seq<
    char,
> {
    "["@ + timestamp + "] "@ + icon + " "@ + message
}

/// Whether `line` is the line of `icon` and `message` at some moment.
pub open spec fn is_status_line(line: Seq<char>, icon: Seq<char>, message: Seq<char>) -> bool {
    exists|secs: u64| line == status_line(terminal_timestamp_text(secs as int), icon, message)
}

/// What `str::to_lowercase` makes of a text.
pub uninterp spec fn lowercase_text(text: Seq<char>) -> Seq<char>;

/// `str::to_lowercase`: the text in lower case, which depends on the text
/// alone.
#[verifier::external_body]
fn to_lowercase(text: &str) -> (out: String)
    ensures
        out@ == lowercase_text(text@),
{
    text.to_lowercase()
}

/// A text without the white space at its ends.
pub open spec fn trimmed(text: Seq<char>) -> Seq<char> {
    let start = skip_spaces(text, 0, text.len() as int);
    text.subrange(start, trim_end(text, start, text.len() as int))
}

/// Whether an answer, trimmed and in lower case, says yes.
pub open spec fn says_yes(answer: Seq<char>) -> bool {
    answer == "y"@ || answer == "yes"@ || answer == "是"@ || answer == "确定"@
}

/// The width of the progress bar, in characters.
pub const BAR_LENGTH: usize = 40;

/// The progress bar with `filled` cells full: full cells, then a half cell
/// while the download is under way, then empty cells.
pub open spec fn bar_text(filled: int, progress: int) -> Seq<char> {
    Seq::new(
        BAR_LENGTH as nat,
        |i: int|
            if i < filled {
                '█'
            } else if i == filled && progress < 100 {
                '▌'
            } else {
                '░'
            },
    )
}

/// The question put to the user, with the choices after it.
pub open spec fn confirmation_text(message: Seq<char>) -> Seq<char> {
    "❓ "@ + message + " (y/N): "@
}

impl TerminalUI {
    /// The progress bar with `filled_length` cells full, at `progress`
    /// percent.
    pub fn progress_bar(filled_length: usize, progress: u32) -> (bar: String)
        ensures
            bar@ == bar_text(filled_length as int, progress as int),
    {
        let mut bar = String::new();
        let mut i: usize = 0;
        while i < BAR_LENGTH
            invariant
                i <= BAR_LENGTH,
                bar@ == bar_text(filled_length as int, progress as int).subrange(0, i as int),
            decreases BAR_LENGTH - i,
        {
            if i < filled_length {
                bar.push('█');
            } else if i == filled_length && progress < 100 {
                bar.push('▌');
            } else {
                bar.push('░');
            }
            i = i + 1;
            assert(bar@ =~= bar_text(filled_length as int, progress as int).subrange(0, i as int));
        }
        assert(bar@ =~= bar_text(filled_length as int, progress as int));
        bar
    }

    /// The question put to the user, with the choices after it.
    pub fn confirmation_prompt(message: &str) -> (out: String)
        ensures
            out@ == confirmation_text(message@),
    {
        let mut out = String::from_str("❓ ");
        out.append(message);
        out.append(" (y/N): ");
        out
    }

    /// A text without the white space at its ends.
    pub fn trim(text: &str) -> (out: String)
        ensures
            out@ == trimmed(text@),
    {
        let chars = chars_of(text);
        let start = skip_whitespace(&chars, 0, chars.len());
        let end = trim_trailing(&chars, start, chars.len());
        string_of(&chars, start, end)
    }

    /// Whether an answer, already trimmed and in lower case, says yes.
    pub fn is_yes(answer: &str) -> (r: bool)
        ensures
            r == says_yes(answer@),
    {
        let chars = chars_of(answer);
        let y = chars_of("y");
        let yes = chars_of("yes");
        let shi = chars_of("是");
        let queding = chars_of("确定");
        same_chars(&chars, &y) || same_chars(&chars, &yes) || same_chars(&chars, &shi)
            || same_chars(&chars, &queding)
    }

    /// Whether a line typed by the user confirms: trimmed and put in lower
    /// case, it has to say yes.
    pub fn is_affirmative(input: &str) -> (r: bool)
        ensures
            r == says_yes(lowercase_text(trimmed(input@))),
    {
        let answer = Self::trim(input);
        let lowered = to_lowercase(answer.as_str());
        Self::is_yes(lowered.as_str())
    }

    /// The terminal timestamp of the moment `secs` seconds after the epoch.
    pub fn format_timestamp(secs: u64) -> (out: String)
        ensures
            out@ == terminal_timestamp_text(secs as int),
    {
        let hours: u64 = (secs / 3600) % 24;
        let minutes: u64 = (secs / 60) % 60;
        let seconds: u64 = secs % 60;
        format_clock(hours + 8, minutes, seconds)
    }

    /// The terminal timestamp of the present moment.
    pub fn get_timestamp() -> (out: String)
        ensures
            exists|secs: u64| out@ == terminal_timestamp_text(secs as int),
    {
        let secs = unix_seconds();
        Self::format_timestamp(secs)
    }

    /// The line of `icon` and `message` under the given timestamp.
    pub fn format_status(timestamp: &str, icon: &str, message: &str) -> (line: String)
        ensures
            line@ == status_line(timestamp@, icon@, message@),
    {
        let mut line = String::from_str("[");
        line.append(timestamp);
        line.append("] ");
        line.append(icon);
        line.append(" ");
        line.append(message);
        line
    }

    /// The line of `icon` and `message` at the present moment.
    pub fn print_status(icon: &str, message: &str) -> (line: String)
        ensures
            is_status_line(line@, icon@, message@),
    {
        let secs = unix_seconds();
        let timestamp = Self::format_timestamp(secs);
        let line = Self::format_status(timestamp.as_str(), icon, message);
        assert(line@ == status_line(terminal_timestamp_text(secs as int), icon@, message@));
        line
    }

    /// The line that reports a success.
    pub fn print_success(message: &str) -> (line: String)
        ensures
            is_status_line(line@, "✅"@, message@),
    {
        Self::print_status("✅", message)
    }

    /// The line that reports an error.
    pub fn print_error(message: &str) -> (line: String)
        ensures
            is_status_line(line@, "❌"@, message@),
    {
        Self::print_status("❌", message)
    }

    /// The line that gives a warning.
    pub fn print_warning(message: &str) -> (line: String)
        ensures
            is_status_line(line@, "⚠️"@, message@),
    {
        Self::print_status("⚠️", message)
    }

    /// The line that gives a piece of information.
    pub fn print_info(message: &str) -> (line: String)
        ensures
            is_status_line(line@, "ℹ️"@, message@),
    {
        Self::print_status("ℹ️", message)
    }

    /// The line that reports progress.
    pub fn print_progress(message: &str) -> (line: String)
        ensures
            is_status_line(line@, "📊"@, message@),
    {
        Self::print_status("📊", message)
    }

    /// The line that speaks of a device.
    pub fn print_device(message: &str) -> (line: String)
        ensures
            is_status_line(line@, "📱"@, message@),
    {
        Self::print_status("📱", message)
    }

    /// The line that speaks of a download.
    pub fn print_download(message: &str) -> (line: String)
        ensures
            is_status_line(line@, "📥"@, message@),
    {
        Self::print_status("📥", message)
    }

    /// The line that speaks of a file.
    pub fn print_file(message: &str) -> (line: String)
        ensures
            is_status_line(line@, "📁"@, message@),
    {
        Self::print_status("📁", message)
    }

    /// The line that speaks of a version.
    pub fn print_version(message: &str) -> (line: String)
        ensures
            is_status_line(line@, "📦"@, message@),
    {
        Self::print_status("📦", message)
    }

    /// The line that speaks of the network.
    pub fn print_network(message: &str) -> (line: String)
        ensures
            is_status_line(line@, "🌐"@, message@),
    {
        Self::print_status("🌐", message)
    }

    /// The line that reports a launch.
    pub fn print_launch(message: &str) -> (line: String)
        ensures
            is_status_line(line@, "🚀"@, message@),
    {
        Self::print_status("🚀", message)
    }

    /// The line that reports a stop.
    pub fn print_stop(message: &str) -> (line: String)
        ensures
            is_status_line(line@, "🛑"@, message@),
    {
        Self::print_status("🛑", message)
    }

    /// The line that gives a tip.
    pub fn print_tip(message: &str) -> (line: String)
        ensures
            is_status_line(line@, "💡"@, message@),
    {
        Self::print_status("💡", message)
    }

    /// The line that reports a search.
    pub fn print_search(message: &str) -> (line: String)
        ensures
            is_status_line(line@, "🔍"@, message@),
    {
        Self::print_status("🔍", message)
    }

    /// The line that speaks of the instance lock.
    pub fn print_lock(message: &str) -> (line: String)
        ensures
            is_status_line(line@, "🔒"@, message@),
    {
        Self::print_status("🔒", message)
    }
}

} // verus!
