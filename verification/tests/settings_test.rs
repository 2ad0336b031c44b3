//! Tests of the text helpers, the file naming and the settings readers.

use framecap::file::{append_info, ColorMode, File, FileFormat, FileInfo};
use framecap::image::{Geometry, Padding};
use framecap::parse::{
    chars_of, count_char, i64_text, parse_hex_u64, parse_u32, parse_u64, split_char, u64_text,
};
use framecap::settings::{
    duration_millis, RecordArgs, RecordSettings, RecordTime, RecordWindow, SaveArgs, SaveSettings,
};

fn args_with_defaults() -> RecordArgs {
    RecordArgs {
        command: None,
        border: None,
        padding: None,
        size: None,
        size_occurrences: 0,
        duration: None,
        countdown: None,
        timeout: None,
        interval: None,
        with_alpha: false,
        no_keys: false,
        action_keys: None,
        cancel_keys: None,
        font: None,
        monitor: None,
        focus: false,
        root: false,
        parent: false,
        select: false,
        mouse: false,
    }
}

#[test]
fn split_keeps_empty_segments() {
    let chars = chars_of("a::b:");
    let parts = split_char(&chars, ':');
    let texts: Vec<String> = parts.iter().map(|p| p.iter().collect()).collect();
    assert_eq!(texts, vec!["a", "", "b", ""]);
    let empty = split_char(&chars_of(""), ':');
    assert_eq!(empty.len(), 1);
    assert!(empty[0].is_empty());
}

#[test]
fn count_char_counts() {
    assert_eq!(count_char(&chars_of("10x10+10+10"), '+'), 2);
    assert_eq!(count_char(&chars_of("10x10"), '+'), 0);
}

#[test]
fn decimal_parsing_is_exact() {
    assert_eq!(parse_u64(&chars_of("0")), Some(0));
    assert_eq!(parse_u64(&chars_of("301")), Some(301));
    assert_eq!(parse_u64(&chars_of("18446744073709551615")), Some(u64::MAX));
    assert_eq!(parse_u64(&chars_of("18446744073709551616")), None);
    assert_eq!(parse_u64(&chars_of("")), None);
    assert_eq!(parse_u64(&chars_of("12a")), None);
    assert_eq!(parse_u64(&chars_of("-3")), None);
    assert_eq!(parse_u32(&chars_of("4294967295")), Some(u32::MAX));
    assert_eq!(parse_u32(&chars_of("4294967296")), None);
}

#[test]
fn hexadecimal_parsing_is_exact() {
    assert_eq!(parse_hex_u64(&chars_of("000000")), Some(0));
    assert_eq!(parse_hex_u64(&chars_of("ff")), Some(255));
    assert_eq!(parse_hex_u64(&chars_of("3AA431")), Some(0x003A_A431));
    assert_eq!(parse_hex_u64(&chars_of("FFFFFFFFFFFFFFFF")), Some(u64::MAX));
    assert_eq!(parse_hex_u64(&chars_of("10000000000000000")), None);
    assert_eq!(parse_hex_u64(&chars_of("xyz")), None);
    assert_eq!(parse_hex_u64(&chars_of("")), None);
}

#[test]
fn integers_render_back_to_text() {
    assert_eq!(u64_text(0), "0");
    assert_eq!(u64_text(12345), "12345");
    assert_eq!(u64_text(u64::MAX), "18446744073709551615");
    assert_eq!(i64_text(-5), "-5");
    assert_eq!(i64_text(7), "7");
    assert_eq!(i64_text(i64::MIN), "-9223372036854775808");
}

#[test]
fn durations_read_as_milliseconds() {
    assert_eq!(duration_millis(&chars_of("1")), Some(1000));
    assert_eq!(duration_millis(&chars_of("1.5")), Some(1500));
    assert_eq!(duration_millis(&chars_of("0.25")), Some(250));
    assert_eq!(duration_millis(&chars_of(".5")), Some(500));
    assert_eq!(duration_millis(&chars_of("2.")), Some(2000));
    assert_eq!(duration_millis(&chars_of("0.1234")), Some(123));
    assert_eq!(duration_millis(&chars_of("0")), None);
    assert_eq!(duration_millis(&chars_of("")), None);
    assert_eq!(duration_millis(&chars_of("abc")), None);
    assert_eq!(duration_millis(&chars_of("1.2.3")), None);
}

#[test]
fn geometry_and_padding_read_their_text() {
    assert_eq!(Geometry::parse("10x20"), Geometry::new(0, 0, 10, 20));
    assert_eq!(Geometry::parse(""), Geometry::new(0, 0, 0, 0));
    assert_eq!(Geometry::parse("10"), Geometry::new(0, 0, 0, 0));
    assert_eq!(Geometry::parse("ax7"), Geometry::new(0, 0, 0, 7));
    assert_eq!(Padding::parse("1:2:3:4"), Padding::new(1, 2, 3, 4));
    assert_eq!(Padding::parse("0:0:0:0"), Padding::new(0, 0, 0, 0));
    assert_eq!(Padding::parse("1:2"), Padding::new(0, 0, 0, 0));
}

#[test]
fn file_names_take_their_information() {
    assert_eq!(append_info("test.jpg", "X"), "test_X.jpg");
    assert_eq!(append_info("a.b.c", "X"), "a_X.b.c");
    assert_eq!(append_info("noext", "X"), "noext_X");
    assert_eq!(append_info("", "X"), "_X");
}

#[test]
fn file_info_weaves_time_into_the_name() {
    let mut name = String::from("shot.png");
    FileInfo::Date.append(&mut name);
    assert!(name.starts_with("shot_"));
    assert!(name.ends_with(".png"));
    assert!(name.len() > "shot_.png".len());
    let mut name = String::from("shot.png");
    FileInfo::Timestamp.append(&mut name);
    assert!(name.starts_with("shot_"));
    assert!(name.ends_with(".png"));
    assert!(name.len() > "shot_.png".len());
}

#[test]
fn file_formats_decide_their_encoders() {
    assert_eq!(FileFormat::from_args(false, true, true, true), FileFormat::Gif);
    assert_eq!(FileFormat::from_args(true, true, false, false), FileFormat::Bmp);
    assert_eq!(FileFormat::from_args(true, false, true, false), FileFormat::Jpg);
    assert_eq!(FileFormat::from_args(true, false, false, true), FileFormat::Farbfeld);
    assert_eq!(FileFormat::from_args(true, false, false, false), FileFormat::Png);
    assert_eq!(FileFormat::Jpg.color_mode(), ColorMode::Rgb8);
    assert_eq!(FileFormat::Farbfeld.color_mode(), ColorMode::Rgba16);
    assert_eq!(FileFormat::Png.color_mode(), ColorMode::Rgba8);
    assert_eq!(FileFormat::Gif.extension(), "gif");
    let file = File::from_format(FileFormat::Png);
    assert_eq!(file.name, "t.png");
    assert!(file.info.is_none());
}

#[test]
fn test_record_settings() {
    let args = RecordArgs {
        command: None,
        border: Some(String::from("10")),
        padding: Some(String::from("0:0:0:0")),
        size: Some(String::from("10x10+10+10")),
        size_occurrences: 1,
        duration: Some(String::from("1")),
        countdown: Some(String::from("2")),
        timeout: Some(String::from("300")),
        interval: Some(String::from("12")),
        with_alpha: true,
        no_keys: false,
        action_keys: Some(String::from("LControl-Q,S")),
        cancel_keys: Some(String::from("X")),
        font: None,
        monitor: None,
        focus: false,
        root: true,
        parent: false,
        select: false,
        mouse: false,
    };
    let record_settings = RecordSettings::from_parser(Some(&args), "000000");
    assert_eq!(0x0000_0000, record_settings.color);
    assert_eq!(10, record_settings.border.unwrap());
    assert_eq!(Padding::new(10, 0, 0, 10), record_settings.padding);
    assert_eq!(2, record_settings.time.countdown);
    assert_eq!(300, record_settings.time.timeout);
    assert_eq!(12, record_settings.time.interval);
    assert_eq!(
        RecordWindow::Root(Some(Geometry::new(0, 0, 10, 10))),
        record_settings.window
    );
    assert!(record_settings.flag.alpha);
    assert_eq!("LControl-Q,S", record_settings.flag.action_keys.unwrap());
    assert_eq!("X", record_settings.flag.cancel_keys.unwrap());
}

#[test]
fn record_settings_window_fallback() {
    let args = args_with_defaults();
    let settings = RecordSettings::from_parser(Some(&args), "");
    assert_eq!(settings.color, 0x003A_A431);
    assert_eq!(settings.border, None);
    assert_eq!(
        settings.window,
        RecordWindow::Focus(Some(Geometry::new(0, 0, 0, 0)), false)
    );
    assert!(settings.flag.select);
    let mut focused = args_with_defaults();
    focused.focus = true;
    let settings = RecordSettings::from_parser(Some(&focused), "");
    assert_eq!(settings.window, RecordWindow::Focus(None, false));
    let mut keyless = args_with_defaults();
    keyless.no_keys = true;
    let settings = RecordSettings::from_parser(Some(&keyless), "");
    assert!(settings.flag.action_keys.is_none());
}

#[test]
fn record_time_reads_duration() {
    let mut args = args_with_defaults();
    args.duration = Some(String::from("1.5"));
    let time = RecordTime::from_parser(&args);
    assert_eq!(time.duration, Some(1500));
    assert_eq!(time.countdown, 3);
    assert_eq!(time.timeout, 300);
    assert_eq!(time.interval, 10);
    args.duration = Some(String::from("0"));
    assert_eq!(RecordTime::from_parser(&args).duration, None);
}

#[test]
fn test_save_settings() {
    let args = SaveArgs {
        output: Some(String::from("test.jpg")),
        date: true,
        timestamp: false,
        prompt_reply: None,
    };
    let format = FileFormat::from_args(true, false, true, false);
    let save_settings = SaveSettings::from_args(Some(&args), format);
    assert!(save_settings.file.name.contains("test_"));
    assert_eq!(FileFormat::Jpg, save_settings.file.format);
    assert_eq!(FileInfo::Date, save_settings.file.info.unwrap());
}

#[test]
fn save_settings_honour_the_prompt() {
    let args = SaveArgs {
        output: Some(String::from("ignored.png")),
        date: false,
        timestamp: false,
        prompt_reply: Some(String::from("chosen.png")),
    };
    let settings = SaveSettings::from_args(Some(&args), FileFormat::Png);
    assert_eq!(settings.file.name, "chosen.png");
    let empty_reply = SaveArgs {
        output: Some(String::from("kept.png")),
        date: false,
        timestamp: false,
        prompt_reply: Some(String::new()),
    };
    let settings = SaveSettings::from_args(Some(&empty_reply), FileFormat::Png);
    assert_eq!(settings.file.name, "kept.png");
    let defaulted = SaveSettings::from_args(None, FileFormat::Gif);
    assert_eq!(defaulted.file.name, "t.gif");
}
