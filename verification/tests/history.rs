use histdb_skim::history::{
    compose_line, date_pattern_for, epoch_start_of_day, get_epoch_start_of_day, History, Row,
};

fn row(cmd: &str) -> Row {
    Row {
        id: 17,
        cmd: cmd.to_string(),
        start: 1_700_000_000,
        exit_status: Some(0),
        duration: Some(9420),
        count: 3,
        session: 4711,
        host: "workstation".to_string(),
        dir: "/home/user".to_string(),
    }
}

#[test]
fn match_window_follows_the_date_column() {
    for cmd in ["", "l", "ls -la", "git commit -m 'a long message that goes on and on'"] {
        let record = History::new(row(cmd));
        assert_eq!(record.searchrange, [(11, 11 + cmd.len())]);
        assert_eq!(record.get_matching_ranges(), Some(&[(11, 11 + cmd.len())]));
    }
}

#[test]
fn match_window_counts_bytes() {
    let record = History::new(row("echo äöü"));
    assert_eq!(record.searchrange, [(11, 11 + 11)]);
    let record = History::new(row("echo 日本"));
    assert_eq!(record.searchrange, [(11, 22)]);
}

#[test]
fn match_window_of_a_very_long_command() {
    let cmd = "x".repeat(100_000);
    let record = History::new(row(&cmd));
    assert_eq!(record.searchrange, [(11, 100_011)]);
}

#[test]
fn constants_of_the_date_column() {
    assert_eq!(History::FORMAT_DATE_LENGTH, 10);
    assert_eq!(History::COMMAND_START, 11);
}

#[test]
fn a_record_keeps_the_columns_of_its_row() {
    let record = History::new(row("make test"));
    assert_eq!(record.id, 17);
    assert_eq!(record.cmd, "make test");
    assert_eq!(record.command(), "make test");
    assert_eq!(record.start, 1_700_000_000);
    assert_eq!(record.exit_status, Some(0));
    assert_eq!(record.duration, Some(9420));
    assert_eq!(record.count, 3);
    assert_eq!(record.session, 4711);
    assert_eq!(record.host, "workstation");
    assert_eq!(record.dir, "/home/user");
}

#[test]
fn line_has_the_date_in_a_column_of_ten() {
    assert_eq!(compose_line("12:30", "ls -la"), "12:30      ls -la");
    assert_eq!(compose_line("24/12/2023", "ls -la"), "24/12/2023 ls -la");
    assert_eq!(compose_line("", ""), "           ");
}

#[test]
fn match_window_selects_the_command_in_the_line() {
    for (date, cmd) in [("12:30", "ls -la"), ("24/12/2023", "echo äöü"), ("07:05", "")] {
        let record = History::new(row(cmd));
        let line = compose_line(date, record.command());
        let (from, to) = record.get_matching_ranges().unwrap()[0];
        assert_eq!(&line[from..to], cmd);
        assert_eq!(line.len(), to);
    }
}

#[test]
fn line_of_a_record_ends_with_the_command() {
    let record = History::new(row("cargo build --release"));
    let line = record.text("%d/%m/%Y");
    assert!(line.ends_with(" cargo build --release"));
    assert!(line.chars().count() >= 11 + "cargo build --release".len());
    let (from, to) = record.searchrange[0];
    assert_eq!(&line[from..to], "cargo build --release");
}

#[test]
fn start_of_day_is_the_last_midnight() {
    assert_eq!(epoch_start_of_day(0), 0);
    assert_eq!(epoch_start_of_day(86399), 0);
    assert_eq!(epoch_start_of_day(86400), 86400);
    assert_eq!(epoch_start_of_day(1_700_000_000), 1_699_920_000);
    assert_eq!(epoch_start_of_day(u64::MAX), u64::MAX - u64::MAX % 86400);
}

#[test]
fn start_of_today_is_a_midnight_not_in_the_future() {
    let day_start = get_epoch_start_of_day();
    assert_eq!(day_start % 86400, 0);
    let now = std::time::SystemTime::now()
        .duration_since(std::time::SystemTime::UNIX_EPOCH)
        .unwrap()
        .as_secs();
    assert!(day_start <= now);
    assert!(now - day_start < 86400 + 5);
}

#[test]
fn a_start_on_the_current_day_shows_the_time() {
    let now: u64 = 1_700_000_000;
    let day_start = epoch_start_of_day(now);
    assert_eq!(date_pattern_for(false, now - 60, day_start, "%d/%m/%Y"), "%H:%M");
    assert_eq!(date_pattern_for(false, now, day_start, "%m/%d/%Y"), "%H:%M");
    assert_eq!(date_pattern_for(false, day_start, day_start, "%d/%m/%Y"), "%H:%M");
}

#[test]
fn a_start_on_an_earlier_day_shows_the_date_only() {
    let now: u64 = 1_700_000_000;
    let day_start = epoch_start_of_day(now);
    assert_eq!(date_pattern_for(false, day_start - 1, day_start, "%d/%m/%Y"), "%d/%m/%Y");
    assert_eq!(date_pattern_for(false, now - 86400, day_start, "%m/%d/%Y"), "%m/%d/%Y");
    assert_eq!(date_pattern_for(false, 0, day_start, "%d/%m/%Y"), "%d/%m/%Y");
}

#[test]
fn the_full_form_shows_date_and_time() {
    let now: u64 = 1_700_000_000;
    let day_start = epoch_start_of_day(now);
    assert_eq!(date_pattern_for(true, now, day_start, "%d/%m/%Y"), "%d/%m/%Y %H:%M");
    assert_eq!(date_pattern_for(true, 0, day_start, "%m/%d/%Y"), "%m/%d/%Y %H:%M");
}

fn is_time_of_day(text: &str) -> bool {
    let bytes = text.as_bytes();
    bytes.len() == 5
        && bytes[0].is_ascii_digit()
        && bytes[1].is_ascii_digit()
        && bytes[2] == b':'
        && bytes[3].is_ascii_digit()
        && bytes[4].is_ascii_digit()
}

fn is_date(text: &str) -> bool {
    let bytes = text.as_bytes();
    bytes.len() == 10
        && bytes[2] == b'/'
        && bytes[5] == b'/'
        && bytes.iter().enumerate().all(|(i, b)| i == 2 || i == 5 || b.is_ascii_digit())
}

#[test]
fn a_record_of_a_minute_ago_renders_as_time_of_day() {
    let now = std::time::SystemTime::now()
        .duration_since(std::time::SystemTime::UNIX_EPOCH)
        .unwrap()
        .as_secs();
    // Within the first minutes after midnight a minute ago is yesterday.
    let start = if now % 86400 >= 120 { now - 60 } else { now };
    let mut recent = row("ls");
    recent.start = start;
    let record = History::new(recent);
    let line = record.text("%d/%m/%Y");
    assert_eq!(line.len(), 13);
    assert!(is_time_of_day(&line[..5]), "{}", line);
    assert_eq!(&line[5..], "      ls");
    let us = record.text("%m/%d/%Y");
    assert!(is_time_of_day(&us[..5]), "{}", us);
}

#[test]
fn a_record_of_an_earlier_day_renders_as_date() {
    let mut old = row("ls");
    old.start = 1_000_000_000;
    let record = History::new(old);
    let line = record.text("%d/%m/%Y");
    assert_eq!(line.len(), 13);
    let date = &line[..10];
    assert!(is_date(date), "{}", line);
    assert!(date == "09/09/2001" || date == "08/09/2001", "{}", line);
    assert_eq!(&line[10..], " ls");
    let us = record.text("%m/%d/%Y");
    assert!(&us[..10] == "09/09/2001" || &us[..10] == "09/08/2001", "{}", us);
}

#[test]
fn absent_numbers_show_the_none_marker() {
    assert_eq!(History::format_or_none(None), "\x1b[37;1m<NONE>\x1b[0m");
    assert_eq!(History::format_or_none(Some(0)), "0");
    assert_eq!(History::format_or_none(Some(127)), "127");
    assert_eq!(History::format_or_none(Some(-1)), "-1");
}

#[test]
fn run_time_is_written_in_words() {
    let record = History::new(row("ls"));
    assert_eq!(record.format_duration(), "2h 37m");
    let mut short = row("ls");
    short.duration = Some(0);
    assert_eq!(History::new(short).format_duration(), "0s");
    let mut day = row("ls");
    day.duration = Some(90061);
    assert_eq!(History::new(day).format_duration(), "1day 1h 1m 1s");
}

#[test]
fn a_negative_run_time_wraps_round() {
    let mut negative = row("ls");
    negative.duration = Some(-1);
    assert_eq!(
        History::new(negative).format_duration(),
        humantime::format_duration(std::time::Duration::from_secs(u64::MAX)).to_string()
    );
}

#[test]
fn absent_run_time_shows_the_none_marker() {
    let mut unknown = row("ls");
    unknown.duration = None;
    assert_eq!(History::new(unknown).format_duration(), "\x1b[37;1m<NONE>\x1b[0m");
}

#[test]
fn preview_block_is_laid_out_in_labelled_lines() {
    let record = History::new(row("make test"));
    let block = record.compose_preview("2h 37m", "12:30", "make test");
    assert_eq!(
        block,
        "\x1b[1mDetails for 17\x1b[0m\n\n\
\x1b[1mRuntime             \x1b[0m2h 37m\n\
\x1b[1mHost                \x1b[0mworkstation\n\
\x1b[1mExecuted            \x1b[0m3\n\
\x1b[1mDirectory           \x1b[0m/home/user\n\
\x1b[1mExit Status         \x1b[0m0\n\
\x1b[1mSession             \x1b[0m4711\n\
\x1b[1mStart Time          \x1b[0m12:30\n\
\x1b[1mCommand\x1b[0m\n\nmake test\n"
    );
}

#[test]
fn preview_block_marks_an_absent_exit_status() {
    let mut running = row("sleep 100");
    running.exit_status = None;
    let record = History::new(running);
    let block = record.compose_preview("x", "y", "z");
    assert!(block.contains("\x1b[1mExit Status         \x1b[0m\x1b[37;1m<NONE>\x1b[0m\n"));
}

#[test]
fn preview_wraps_the_command_to_the_width() {
    let mut long = row("Memory safety without garbage collection.");
    long.start = 1_000_000_000;
    let record = History::new(long);
    let block = record.preview(15, "%d/%m/%Y");
    assert!(block.starts_with("\x1b[1mDetails for 17\x1b[0m\n\n\x1b[1mRuntime             \x1b[0m2h 37m\n"));
    assert!(block.ends_with("\x1b[1mCommand\x1b[0m\n\nMemory safety\nwithout garbage\ncollection.\n"));
    let line = record.text("%d/%m/%Y");
    let date = &line[..10];
    assert!(block.contains(&format!("\x1b[1mStart Time          \x1b[0m{}\n", date)));
    assert_eq!(block, record.compose_preview("2h 37m", date, "Memory safety\nwithout garbage\ncollection."));
}

#[test]
fn preview_leaves_a_short_command_on_one_line() {
    let record = History::new(row("ls -la"));
    let block = record.preview(80, "%d/%m/%Y");
    assert!(block.ends_with("\x1b[1mCommand\x1b[0m\n\nls -la\n"));
}

#[test]
fn the_date_column_is_the_local_rendering_of_the_start() {
    for start in [0u64, 86_399, 1_000_000_000, 1_341_100_800, 1_700_000_000] {
        let mut old = row("ls");
        old.start = start;
        let record = History::new(old);
        let local = chrono::DateTime::from_timestamp(start as i64, 0)
            .unwrap()
            .with_timezone(&chrono::Local);
        assert_eq!(
            record.text("%d/%m/%Y"),
            format!("{} ls", local.format("%d/%m/%Y"))
        );
        assert_eq!(
            record.text("%m/%d/%Y"),
            format!("{} ls", local.format("%m/%d/%Y"))
        );
    }
}

#[test]
fn a_recent_start_is_the_local_time_of_day() {
    let now = std::time::SystemTime::now()
        .duration_since(std::time::SystemTime::UNIX_EPOCH)
        .unwrap()
        .as_secs();
    let mut recent = row("ls");
    recent.start = now;
    let record = History::new(recent);
    let local = chrono::DateTime::from_timestamp(now as i64, 0)
        .unwrap()
        .with_timezone(&chrono::Local);
    assert_eq!(record.text("%d/%m/%Y"), format!("{}      ls", local.format("%H:%M")));
}
