//! One row of the history, shaped for the selection list.

use crate::render::{decimal, pad_right, padded, signed_to_string};
use std::fmt::Write;
use vstd::prelude::*;
use vstd::utf8::{encode_utf8, is_ascii_chars};

verus! {

/// The number of bytes that `s` takes in UTF-8.
pub open spec fn byte_len(s: Seq<char>) -> nat {
    encode_utf8(s).len()
}

/// A history row as plain values. `window` is the byte range of the command
/// in the line that the selection list shows.
pub struct Record {
    pub id: i64,
    pub cmd: Seq<char>,
    pub start: u64,
    pub exit_status: Option<i64>,
    pub duration: Option<i64>,
    pub count: i64,
    pub session: i64,
    pub host: Seq<char>,
    pub dir: Seq<char>,
    pub window: (int, int),
}

/// One executed command, as read from the database.
#[derive(Debug)]
pub struct History {
    pub id: i64,
    pub cmd: String,
    /// Start of the execution, in seconds since the epoch.
    pub start: u64,
    pub exit_status: Option<i64>,
    /// Run time in seconds.
    pub duration: Option<i64>,
    /// How many executions this row stands for.
    pub count: i64,
    pub session: i64,
    pub host: String,
    pub dir: String,
    /// The byte range of the command inside the line that `text` renders.
    pub searchrange: [(usize, usize); 1],
}

/// The decoded columns of one result row.
#[derive(Debug)]
pub struct Row {
    pub id: i64,
    pub cmd: String,
    pub start: u64,
    pub exit_status: Option<i64>,
    pub duration: Option<i64>,
    pub count: i64,
    pub session: i64,
    pub host: String,
    pub dir: String,
}

/// The byte range that a command of `len` bytes occupies in a rendered
/// line: it follows the date column and one space.
pub open spec fn window_for(len: nat) -> (int, int) {
    (11, 11 + len as int)
}

impl View for Row {
    type V = Record;

    /// The record that the row is shaped into.
    open spec fn view(&self) -> Record {
        Record {
            id: self.id,
            cmd: self.cmd@,
            start: self.start,
            exit_status: self.exit_status,
            duration: self.duration,
            count: self.count,
            session: self.session,
            host: self.host@,
            dir: self.dir@,
            window: window_for(byte_len(self.cmd@)),
        }
    }
}

impl View for History {
    type V = Record;

    open spec fn view(&self) -> Record {
        Record {
            id: self.id,
            cmd: self.cmd@,
            start: self.start,
            exit_status: self.exit_status,
            duration: self.duration,
            count: self.count,
            session: self.session,
            host: self.host@,
            dir: self.dir@,
            window: (self.searchrange[0].0 as int, self.searchrange[0].1 as int),
        }
    }
}

impl Clone for Row {
    fn clone(&self) -> (copy: Row)
        ensures
            copy@ == self@,
    {
        Row {
            id: self.id,
            cmd: self.cmd.clone(),
            start: self.start,
            exit_status: self.exit_status,
            duration: self.duration,
            count: self.count,
            session: self.session,
            host: self.host.clone(),
            dir: self.dir.clone(),
        }
    }
}

impl Clone for History {
    fn clone(&self) -> (copy: History)
        ensures
            copy@ == self@,
            copy.searchrange == self.searchrange,
    {
        History {
            id: self.id,
            cmd: self.cmd.clone(),
            start: self.start,
            exit_status: self.exit_status,
            duration: self.duration,
            count: self.count,
            session: self.session,
            host: self.host.clone(),
            dir: self.dir.clone(),
            searchrange: self.searchrange,
        }
    }
}

/// The number of seconds in a day.
pub const SECONDS_PER_DAY: u64 = 86400;

/// The last midnight at or before `now`, both in seconds since the epoch.
pub open spec fn start_of_day(now: nat) -> nat {
    (now - now % 86400) as nat
}

/// The pattern that renders a time of day.
pub open spec fn time_pattern() -> Seq<char> {
    "%H:%M"@
}

/// The pattern by which a start time is rendered. The full form is the date
/// followed by the time of day. The short form is the time of day alone for
/// a start on the current day, and the date alone for an earlier one.
pub open spec fn date_pattern(full: bool, start: u64, day_start: u64, date_format: Seq<char>) -> Seq<
    char,
> {
    if full {
        date_format + " "@ + time_pattern()
    } else if start >= day_start {
        time_pattern()
    } else {
        date_format
    }
}

/// The marker that stands for a value that is not there.
pub open spec fn none_marker() -> Seq<char> {
    "\x1b[37;1m<NONE>\x1b[0m"@
}

/// A number that may be absent, as text.
pub open spec fn number_or_none(x: Option<i64>) -> Seq<char> {
    match x {
        Some(value) => decimal(value as int),
        None => none_marker(),
    }
}

/// The run time in words, as `humantime` writes a duration of that many
/// whole seconds.
pub uninterp spec fn humanized(seconds: u64) -> Seq<char>;

/// `text` wrapped to lines of at most `width` columns, as `textwrap` fills it.
pub uninterp spec fn filled(text: Seq<char>, width: usize) -> Seq<char>;

/// The instant `start` seconds after the epoch as `chrono` renders it by
/// `pattern` in a time zone that is `offset` seconds east of UTC.
pub uninterp spec fn rendered_at(start: u64, offset: i32, pattern: Seq<char>) -> Seq<char>;

/// Whether `date` is a rendering of `start` in the time zone of some
/// machine at some time of day: `start` rendered at an offset of less than
/// a day from UTC, by `date_pattern` for some midnight.
pub open spec fn is_local_date(date: Seq<char>, full: bool, start: u64, date_format: Seq<char>) -> bool {
    exists|day_start: u64, offset: i32|
        day_start % 86400 == 0 && -86400 < offset < 86400 && date == #[trigger] rendered_at(
            start,
            offset,
            date_pattern(full, start, day_start, date_format),
        )
}

/// The number of seconds that a stored duration is shown as: the duration
/// itself, and for a negative one what the cast to an unsigned number wraps
/// it round to.
pub open spec fn shown_seconds(duration: i64) -> u64 {
    duration as u64
}

/// The run time of a record as text.
pub open spec fn runtime_of(duration: Option<i64>) -> Seq<char> {
    match duration {
        Some(seconds) => humanized(shown_seconds(seconds)),
        None => none_marker(),
    }
}

/// The line that the selection list shows: the date in a column of ten
/// characters, a space, and the command.
pub open spec fn display_line(date: Seq<char>, cmd: Seq<char>) -> Seq<char> {
    padded(date, 10) + " "@ + cmd
}

/// One labelled line of the preview: the label in bold, in a column of
/// twenty characters, and the value.
pub open spec fn preview_row(label: Seq<char>, value: Seq<char>) -> Seq<char> {
    "\x1b[1m"@ + padded(label, 20) + "\x1b[0m"@ + value + "\n"@
}

/// The preview block of a record, given its run time, its start time and
/// its wrapped command as text.
pub open spec fn preview_text(
    record: Record,
    runtime: Seq<char>,
    start_time: Seq<char>,
    wrapped: Seq<char>,
) -> Seq<char> {
    "\x1b[1mDetails for "@ + decimal(record.id as int) + "\x1b[0m\n\n"@ + preview_row(
        "Runtime"@,
        runtime,
    ) + preview_row("Host"@, record.host) + preview_row("Executed"@, decimal(record.count as int))
        + preview_row("Directory"@, record.dir) + preview_row(
        "Exit Status"@,
        number_or_none(record.exit_status),
    ) + preview_row("Session"@, decimal(record.session as int)) + preview_row(
        "Start Time"@,
        start_time,
    ) + "\x1b[1mCommand\x1b[0m\n\n"@ + wrapped + "\n"@
}

/// Reads the clock: `SystemTime::now` as whole seconds since the epoch, zero
/// for a clock that stands before the epoch. Nothing is promised of the value.
#[verifier::external_body]
fn now_epoch_secs() -> (now: u64) {
    std::time::SystemTime::now().duration_since(std::time::SystemTime::UNIX_EPOCH)
        .unwrap_or_default().as_secs()
}

/// The offset from UTC, in seconds east, that the time zone of this machine
/// has at the instant `start` seconds after the epoch: `with_timezone` to
/// `Local` and `FixedOffset::local_minus_utc` of the offset it finds. The
/// instant is `DateTime::from_timestamp`, the epoch itself where that is out
/// of chrono's range. Which offset comes back depends on the machine; the
/// contract claims only that it is less than a day either way, which holds
/// of every offset that chrono makes.
#[verifier::external_body]
fn local_offset(start: u64) -> (offset: i32)
    ensures
        -86400 < offset < 86400,
{
    let utc = chrono::DateTime::from_timestamp(start as i64, 0).unwrap_or_default();
    utc.with_timezone(&chrono::Local).offset().local_minus_utc()
}

/// Renders the instant `start` seconds after the epoch at `offset` seconds
/// east of UTC: `with_timezone` to `FixedOffset::east_opt(offset)` and
/// `format` with `pattern`. The instant is `DateTime::from_timestamp`, the
/// epoch itself where that is out of chrono's range. The contract only gives
/// the text its name; the text is empty where chrono cannot render the
/// pattern.
#[verifier::external_body]
fn render_at(start: u64, offset: i32, pattern: &str) -> (rendered: String)
    requires
        -86400 < offset < 86400,
    ensures
        rendered@ == rendered_at(start, offset, pattern@),
{
    let utc = chrono::DateTime::from_timestamp(start as i64, 0).unwrap_or_default();
    let zone = chrono::FixedOffset::east_opt(offset).unwrap();
    let mut rendered = String::new();
    let _ = write!(rendered, "{}", utc.with_timezone(&zone).format(pattern));
    rendered
}

/// Calls `humantime::format_duration` on a duration of `seconds` whole
/// seconds and takes its text. The contract only gives the text its name.
#[verifier::external_body]
fn humanize(seconds: u64) -> (text: String)
    ensures
        text@ == humanized(seconds),
{
    humantime::format_duration(std::time::Duration::from_secs(seconds)).to_string()
}

/// Calls `textwrap::fill` with a plain width. The contract only gives the
/// text its name.
#[verifier::external_body]
fn fill(text: &str, width: usize) -> (wrapped: String)
    ensures
        wrapped@ == filled(text@, width),
{
    textwrap::fill(text, width)
}

/// The last midnight at or before `now`.
pub fn epoch_start_of_day(now: u64) -> (day_start: u64)
    ensures
        day_start == start_of_day(now as nat),
        day_start % 86400 == 0,
        day_start <= now < day_start + 86400,
{
    let seconds_since_midnight = now % SECONDS_PER_DAY;
    now - seconds_since_midnight
}

/// The start of the current day by this machine's clock. Whatever the clock
/// says, the result is a midnight.
pub fn get_epoch_start_of_day() -> (day_start: u64)
    ensures
        day_start % 86400 == 0,
{
    epoch_start_of_day(now_epoch_secs())
}

/// The pattern by which a start time is rendered: see `date_pattern`.
pub fn date_pattern_for(full: bool, start: u64, day_start: u64, date_format: &str) -> (pattern:
    String)
    ensures
        pattern@ == date_pattern(full, start, day_start, date_format@),
{
    if full {
        let mut dateinfo = String::from_str(date_format);
        dateinfo.append(" ");
        dateinfo.append("%H:%M");
        dateinfo
    } else if start >= day_start {
        String::from_str("%H:%M")
    } else {
        String::from_str(date_format)
    }
}

/// A row with its date already rendered, as the selection list shows it.
pub fn compose_line(date: &str, cmd: &str) -> (line: String)
    ensures
        line@ == display_line(date@, cmd@),
{
    let mut line = pad_right(date, History::FORMAT_DATE_LENGTH);
    line.append(" ");
    line.append(cmd);
    line
}

/// Appends one labelled line of the preview to `text`.
fn push_preview_row(text: &mut String, label: &str, value: &str)
    ensures
        final(text)@ == old(text)@ + preview_row(label@, value@),
{
    let field = pad_right(label, 20);
    text.append("\x1b[1m");
    text.append(field.as_str());
    text.append("\x1b[0m");
    text.append(value);
    text.append("\n");
    proof {
        assert(text@ =~= old(text)@ + preview_row(label@, value@));
    }
}

impl History {
    /// Width of the date column at the start of a rendered line.
    pub const FORMAT_DATE_LENGTH: usize = 10;

    /// Byte offset of the command in a rendered line: the date column and
    /// one separating space.
    pub const COMMAND_START: usize = 11;

    /// The match window covers exactly the command.
    pub open spec fn wf(&self) -> bool {
        self@.window == window_for(byte_len(self.cmd@))
    }

    /// Shapes a result row into a record and computes its match window.
    pub fn new(row: Row) -> (record: History)
        requires
            byte_len(row.cmd@) + 11 <= usize::MAX,
        ensures
            record@ == row@,
            record.wf(),
            record.searchrange[0] == (11usize, (11 + byte_len(row.cmd@)) as usize),
    {
        let commandend: usize = row.cmd.as_str().len();
        History {
            id: row.id,
            cmd: row.cmd,
            start: row.start,
            exit_status: row.exit_status,
            duration: row.duration,
            count: row.count,
            session: row.session,
            host: row.host,
            dir: row.dir,
            searchrange: [(Self::COMMAND_START, commandend + Self::COMMAND_START)],
        }
    }

    /// The command as it was typed.
    pub fn command(&self) -> (cmd: &String)
        ensures
            cmd@ == self.cmd@,
    {
        &self.cmd
    }

    /// The part of the rendered line that fuzzy matching is restricted to.
    pub fn get_matching_ranges(&self) -> (ranges: Option<&[(usize, usize); 1]>)
        ensures
            ranges == Some(&self.searchrange),
            self.wf() ==> ranges->0[0].0 == 11 && ranges->0[0].1 == 11 + byte_len(self.cmd@),
    {
        Some(&self.searchrange)
    }

    /// The start time as text, in the time zone of this machine: the start
    /// rendered at the offset that this machine's time zone has at that
    /// instant, by `date_pattern` for the start of the current day by this
    /// machine's clock. Clock and time zone decide which midnight and which
    /// offset these are.
    fn format_date(&self, full: bool, date_format: &str) -> (date: String)
        ensures
            is_local_date(date@, full, self.start, date_format@),
    {
        let day_start = get_epoch_start_of_day();
        let pattern = date_pattern_for(full, self.start, day_start, date_format);
        let offset = local_offset(self.start);
        let date = render_at(self.start, offset, pattern.as_str());
        proof {
            assert(date@ == rendered_at(
                self.start,
                offset,
                date_pattern(full, self.start, day_start, date_format@),
            ));
        }
        date
    }

    /// A number that may be absent, as text.
    pub fn format_or_none(x: Option<i64>) -> (text: String)
        ensures
            text@ == number_or_none(x),
    {
        match x {
            Some(value) => signed_to_string(value),
            None => String::from_str("\x1b[37;1m<NONE>\x1b[0m"),
        }
    }

    /// The run time in words, or the marker for none.
    pub fn format_duration(&self) -> (text: String)
        ensures
            text@ == runtime_of(self.duration),
    {
        match self.duration {
            Some(seconds) => humanize(seconds as u64),
            None => History::format_or_none(None),
        }
    }

    /// The line that the selection list shows for this record: the short
    /// rendering of the start time in the date column, then the command.
    pub fn text(&self, date_format: &str) -> (line: String)
        ensures
            exists|date: Seq<char>|
                is_local_date(date, false, self.start, date_format@) && line@ == display_line(
                    date,
                    self.cmd@,
                ),
    {
        let date = self.format_date(false, date_format);
        let line = compose_line(date.as_str(), self.cmd.as_str());
        proof {
            assert(is_local_date(date@, false, self.start, date_format@) && line@ == display_line(
                date@,
                self.cmd@,
            ));
        }
        line
    }

    /// The preview block of this record for the given run time, start time
    /// and wrapped command.
    pub fn compose_preview(&self, runtime: &str, start_time: &str, wrapped: &str) -> (block: String)
        ensures
            block@ == preview_text(self@, runtime@, start_time@, wrapped@),
    {
        let mut block = String::from_str("\x1b[1mDetails for ");
        block.append(signed_to_string(self.id).as_str());
        block.append("\x1b[0m\n\n");
        push_preview_row(&mut block, "Runtime", runtime);
        push_preview_row(&mut block, "Host", self.host.as_str());
        push_preview_row(&mut block, "Executed", signed_to_string(self.count).as_str());
        push_preview_row(&mut block, "Directory", self.dir.as_str());
        push_preview_row(&mut block, "Exit Status", History::format_or_none(self.exit_status).as_str());
        push_preview_row(&mut block, "Session", signed_to_string(self.session).as_str());
        push_preview_row(&mut block, "Start Time", start_time);
        block.append("\x1b[1mCommand\x1b[0m\n\n");
        block.append(wrapped);
        block.append("\n");
        block
    }

    /// The preview block of this record in a window `width` columns wide:
    /// the run time in words, the short rendering of the start time, and
    /// the command wrapped to the width.
    pub fn preview(&self, width: usize, date_format: &str) -> (block: String)
        ensures
            exists|start_time: Seq<char>|
                is_local_date(start_time, false, self.start, date_format@) && block@
                    == preview_text(
                    self@,
                    runtime_of(self.duration),
                    start_time,
                    filled(self.cmd@, width),
                ),
    {
        let runtime = self.format_duration();
        let start_time = self.format_date(false, date_format);
        let wrapped = fill(self.cmd.as_str(), width);
        let block = self.compose_preview(runtime.as_str(), start_time.as_str(), wrapped.as_str());
        proof {
            assert(is_local_date(start_time@, false, self.start, date_format@) && block@
                == preview_text(
                self@,
                runtime_of(self.duration),
                start_time@,
                filled(self.cmd@, width),
            ));
        }
        block
    }
}

/// The bytes of a joined text are the bytes of its parts, joined.
pub proof fn lemma_bytes_of_join(left: Seq<char>, right: Seq<char>)
    ensures
        encode_utf8(left + right) == encode_utf8(left) + encode_utf8(right),
        byte_len(left + right) == byte_len(left) + byte_len(right),
    decreases left.len(),
{
    if left.len() == 0 {
        assert(left + right =~= right);
        assert(encode_utf8(left) + encode_utf8(right) =~= encode_utf8(right));
    } else {
        let whole = left + right;
        assert(whole[0] == left[0]);
        assert(whole.drop_first() =~= left.drop_first() + right);
        lemma_bytes_of_join(left.drop_first(), right);
        assert(encode_utf8(whole) =~= encode_utf8(left) + encode_utf8(right));
    }
}

/// In a rendered line whose date is plain ASCII of at most ten characters,
/// the match window of a well-formed record is the place of the command:
/// the bytes inside the window are the bytes of the command, and the line
/// ends where the window ends.
pub proof fn lemma_window_covers_command(date: Seq<char>, cmd: Seq<char>)
    requires
        is_ascii_chars(date),
        date.len() <= 10,
    ensures
        byte_len(display_line(date, cmd)) == window_for(byte_len(cmd)).1,
        encode_utf8(display_line(date, cmd)).subrange(
            window_for(byte_len(cmd)).0,
            window_for(byte_len(cmd)).1,
        ) == encode_utf8(cmd),
        forall|i: int|
            0 <= i < window_for(byte_len(cmd)).0 ==> encode_utf8(display_line(date, cmd))[i] < 128,
{
    let column = padded(date, 10) + " "@;
    reveal_strlit(" ");
    assert(column.len() == 11);
    assert(is_ascii_chars(column)) by {
        assert forall|i: int| 0 <= i < column.len() implies '\0' <= #[trigger] column[i]
            <= '\u{7f}' by {
            if i < date.len() {
                assert(column[i] == date[i]);
            } else {
                assert(column[i] == ' ');
            }
        }
    }
    vstd::utf8::is_ascii_chars_encode_utf8(column);
    lemma_bytes_of_join(column, cmd);
    let line = encode_utf8(display_line(date, cmd));
    assert(line == encode_utf8(column) + encode_utf8(cmd));
    assert(line.subrange(11, 11 + byte_len(cmd) as int) =~= encode_utf8(cmd));
    assert forall|i: int| 0 <= i < 11 implies line[i] < 128 by {
        assert(line[i] == encode_utf8(column)[i]);
        assert(column[i] as u8 == encode_utf8(column)[i]);
        assert('\0' <= column[i] <= '\u{7f}');
    }
}

/// The short form of a start time is the time of day from the last
/// midnight on and the date before it; a start one minute before a moment
/// that is at least a minute into its day falls on that day. The full form
/// is always the date followed by the time of day.
pub proof fn lemma_date_rule(now: u64, start: u64, date_format: Seq<char>)
    ensures
        start >= start_of_day(now as nat) ==> date_pattern(
            false,
            start,
            start_of_day(now as nat) as u64,
            date_format,
        ) == time_pattern(),
        start < start_of_day(now as nat) ==> date_pattern(
            false,
            start,
            start_of_day(now as nat) as u64,
            date_format,
        ) == date_format,
        now % 86400 >= 60 ==> date_pattern(
            false,
            (now - 60) as u64,
            start_of_day(now as nat) as u64,
            date_format,
        ) == time_pattern(),
        date_pattern(true, start, start_of_day(now as nat) as u64, date_format) == date_format
            + " "@ + time_pattern(),
        start_of_day(now as nat) % 86400 == 0,
        start_of_day(now as nat) <= now < start_of_day(now as nat) + 86400,
{
}

} // verus!
