//! Settings of a recording and of the output file, built from plain
//! argument values.  Reading the command line itself is an outside
//! concern; the decisions about what the values mean are made and proved
//! here.

use vstd::prelude::*;
use vstd::string::StrSliceExecFns;
use vstd::string::StringExecFns;

use crate::file::{File, FileFormat, FileInfo, spec_append_info, spec_extension};
use crate::image::{spec_parse_geometry, spec_parse_padding, Geometry, Padding};
use crate::parse::{
    all_digits_check, chars_of, count_char, dec_value_opt, lemma_dec_value_bound,
    lemma_dec_value_nonneg, parse_u64, spec_all_digits, spec_count_char, spec_dec_value,
    spec_parse_hex_u64, spec_parse_u64, spec_pow10, spec_split, split_char, parse_hex_u64,
};

verus! {

/// The text of an optional value, empty when it is absent: the fallback
/// rule of the settings layer.
pub open spec fn spec_text_or_empty(o: Option<String>) -> Seq<char> {
    match o {
        Some(s) => s@,
        None => Seq::<char>::empty(),
    }
}

/// An optional value read as a decimal number, with a default for an
/// absent or unreadable one.
pub open spec fn spec_u64_or(o: Option<String>, d: u64) -> u64 {
    match o {
        Some(s) => match spec_parse_u64(s@) {
            Some(v) => v,
            None => d,
        },
        None => d,
    }
}

/// Read an optional decimal value, falling back to a default.
pub fn u64_or(text: &Option<String>, d: u64) -> (r: u64)
    ensures
        r == spec_u64_or(*text, d),
{
    match text {
        Some(s) => {
            let chars = chars_of(s.as_str());
            match parse_u64(&chars) {
                Some(v) => v,
                None => d,
            }
        },
        None => d,
    }
}

/// Copy an optional text value.
fn clone_text(o: &Option<String>) -> (r: Option<String>)
    ensures
        o is Some <==> r is Some,
        o matches Some(s) ==> (r matches Some(c) && c@ == s@),
{
    match o {
        Some(s) => Some(String::from_str(s.as_str())),
        None => None,
    }
}

/// The millisecond count a duration value stands for.  The value is read
/// as seconds with an optional decimal fraction, digits only on both
/// sides of the dot; the fraction counts to millisecond precision and
/// further digits are ignored.  Anything else — a sign, an exponent form
/// such as `1e3`, a zero duration, or one beyond what fits — is no
/// duration, and the recording falls back to running until stopped.
pub open spec fn spec_frac_millis(f: Seq<char>) -> int {
    let g = f.take(
        if f.len() < 3 {
            f.len() as int
        } else {
            3
        },
    );
    if g.len() == 0 {
        0
    } else if g.len() == 1 {
        spec_dec_value(g) * 100
    } else if g.len() == 2 {
        spec_dec_value(g) * 10
    } else {
        spec_dec_value(g)
    }
}

/// What a duration value is worth in milliseconds (see
/// [`spec_frac_millis`] for the fraction rule).
pub open spec fn spec_duration_millis(s: Seq<char>) -> Option<u64> {
    let parts = spec_split(s, '.');
    if parts.len() <= 2 && spec_all_digits(parts[0]) && (parts.len() == 2
        ==> spec_all_digits(parts[1])) && parts[0].len() + (if parts.len() == 2 {
        parts[1].len()
    } else {
        0
    }) > 0 {
        let total = spec_dec_value(parts[0]) * 1000 + if parts.len() == 2 {
            spec_frac_millis(parts[1])
        } else {
            0
        };
        if 0 < total <= u64::MAX as int {
            Some(total as u64)
        } else {
            None::<u64>
        }
    } else {
        None::<u64>
    }
}

/// The duration of an optional value: absent means none.
pub open spec fn spec_duration_opt(o: Option<String>) -> Option<u64> {
    match o {
        Some(s) => spec_duration_millis(s@),
        None => None::<u64>,
    }
}

/// Read a duration value into milliseconds.
pub fn duration_millis(s: &Vec<char>) -> (r: Option<u64>)
    ensures
        r == spec_duration_millis(s@),
{
    let parts = split_char(s, '.');
    proof {
        crate::parse::lemma_split_len(s@, '.');
        assert(parts@.len() == spec_split(s@, '.').len());
        assert(parts@[0]@ == spec_split(s@, '.')[0]);
        if parts@.len() == 2 {
            assert(parts@[1]@ == spec_split(s@, '.')[1]);
        }
    }
    if parts.len() > 2 {
        return None;
    }
    let whole = &parts[0];
    let frac_len: usize = if parts.len() == 2 {
        parts[1].len()
    } else {
        0
    };
    if whole.len() == 0 && frac_len == 0 {
        return None;
    }
    let secs: u64 = match dec_value_opt(whole) {
        Some(v) => v,
        None => {
            proof {
                let p = spec_split(s@, '.');
                if spec_all_digits(p[0]) && (p.len() == 2 ==> spec_all_digits(p[1])) {
                    lemma_dec_value_nonneg(p[0]);
                    if p.len() == 2 {
                        lemma_frac_millis_bounds(p[1]);
                    }
                }
            }
            return None;
        },
    };
    let frac: u64 = if parts.len() == 2 {
        let f = &parts[1];
        if !all_digits_check(f) {
            return None;
        }
        frac_millis_of(f)
    } else {
        0
    };
    let total: Option<u64> = match secs.checked_mul(1000) {
        Some(v) => v.checked_add(frac),
        None => None,
    };
    proof {
        let p = spec_split(s@, '.');
        if p.len() == 2 && spec_all_digits(p[1]) {
            lemma_frac_millis_bounds(p[1]);
        }
        lemma_dec_value_nonneg(p[0]);
    }
    match total {
        Some(t) => {
            if t == 0 {
                None
            } else {
                Some(t)
            }
        },
        None => None,
    }
}

/// The fraction of a duration is a millisecond count below one thousand,
/// and never negative.
proof fn lemma_frac_millis_bounds(f: Seq<char>)
    requires
        spec_all_digits(f),
    ensures
        0 <= spec_frac_millis(f) < 1000,
{
    let g = f.take(
        if f.len() < 3 {
            f.len() as int
        } else {
            3
        },
    );
    assert(spec_all_digits(g));
    lemma_dec_value_bound(g);
    reveal_with_fuel(spec_pow10, 4);
}

/// Read the millisecond count of an all-digit fraction.
fn frac_millis_of(f: &Vec<char>) -> (r: u64)
    requires
        spec_all_digits(f@),
    ensures
        r == spec_frac_millis(f@),
{
    let glen: usize = if f.len() < 3 {
        f.len()
    } else {
        3
    };
    let mut g: Vec<char> = Vec::new();
    let mut j: usize = 0;
    while j < glen
        invariant
            0 <= j <= glen,
            glen <= f@.len(),
            g@ =~= f@.take(j as int),
        decreases glen - j,
    {
        g.push(f[j]);
        proof {
            assert(g@ =~= f@.take(j + 1 as int));
        }
        j += 1;
    }
    proof {
        assert(g@ =~= f@.take(
            if f@.len() < 3 {
                f@.len() as int
            } else {
                3
            },
        ));
        assert(spec_all_digits(g@));
        lemma_dec_value_bound(g@);
        reveal_with_fuel(spec_pow10, 4);
    }
    let gv: u64 = match dec_value_opt(&g) {
        Some(v) => v,
        None => vstd::pervasive::unreached(),
    };
    if g.len() == 0 {
        0
    } else if g.len() == 1 {
        gv * 100
    } else if g.len() == 2 {
        gv * 10
    } else {
        gv
    }
}

/// The plain values of the recording arguments, as the outside argument
/// reader hands them over: each optional value is its text, each flag its
/// presence.
pub struct RecordArgs {
    pub command: Option<String>,
    pub border: Option<String>,
    pub padding: Option<String>,
    pub size: Option<String>,
    /// How many times the size argument occurred.
    pub size_occurrences: u64,
    pub duration: Option<String>,
    pub countdown: Option<String>,
    pub timeout: Option<String>,
    pub interval: Option<String>,
    pub with_alpha: bool,
    pub no_keys: bool,
    pub action_keys: Option<String>,
    pub cancel_keys: Option<String>,
    pub font: Option<String>,
    pub monitor: Option<String>,
    pub focus: bool,
    pub root: bool,
    pub parent: bool,
    pub select: bool,
    pub mouse: bool,
}

/// Time related recording settings.  All durations are integers: the
/// recording duration in milliseconds, the countdown and timeout in
/// seconds, the tick interval in milliseconds.
#[derive(Clone, Copy, PartialEq, Eq, Structural, Debug)]
pub struct RecordTime {
    /// How long to record, in milliseconds; absent means until stopped.
    pub duration: Option<u64>,
    /// Seconds counted down before capture starts.
    pub countdown: u64,
    /// Seconds after which a selection attempt gives up.
    pub timeout: u64,
    /// Input polling interval in milliseconds.
    pub interval: u64,
}

impl Default for RecordTime {
    /// No duration, three seconds of countdown, a five minute timeout and
    /// a ten millisecond interval.
    fn default() -> (r: RecordTime)
        ensures
            r == (RecordTime { duration: None, countdown: 3, timeout: 300, interval: 10 }),
    {
        RecordTime { duration: None, countdown: 3, timeout: 300, interval: 10 }
    }
}

impl RecordTime {
    /// Create time settings from their values.
    pub fn new(duration: Option<u64>, countdown: u64, timeout: u64, interval: u64) -> (r:
        RecordTime)
        ensures
            r == (RecordTime { duration, countdown, timeout, interval }),
    {
        RecordTime { duration, countdown, timeout, interval }
    }

    /// Read time settings from argument values, falling back to the
    /// defaults for absent or unreadable ones.
    pub fn from_parser(args: &RecordArgs) -> (r: RecordTime)
        ensures
            r == (RecordTime {
                duration: spec_duration_opt(args.duration),
                countdown: spec_u64_or(args.countdown, 3),
                timeout: spec_u64_or(args.timeout, 300),
                interval: spec_u64_or(args.interval, 10),
            }),
    {
        let duration: Option<u64> = match &args.duration {
            Some(s) => {
                let chars = chars_of(s.as_str());
                duration_millis(&chars)
            },
            None => None,
        };
        RecordTime {
            duration,
            countdown: u64_or(&args.countdown, 3),
            timeout: u64_or(&args.timeout, 300),
            interval: u64_or(&args.interval, 10),
        }
    }
}

/// Flag values of recording.
#[derive(Debug)]
pub struct RecordFlag {
    pub alpha: bool,
    pub action_keys: Option<String>,
    pub cancel_keys: Option<String>,
    pub font: Option<String>,
    pub monitor: Option<usize>,
    pub select: bool,
    pub mouse: bool,
}

/// The default flags: nothing special, empty key bindings, selection on.
pub open spec fn spec_default_flag(f: RecordFlag) -> bool {
    &&& !f.alpha
    &&& f.action_keys matches Some(a) && a@ == Seq::<char>::empty()
    &&& f.cancel_keys matches Some(c) && c@ == Seq::<char>::empty()
    &&& f.font is None
    &&& f.monitor is None
    &&& f.select
    &&& !f.mouse
}

impl Default for RecordFlag {
    /// The default flags: nothing special, empty key bindings, selection
    /// on.
    fn default() -> (r: RecordFlag)
        ensures
            spec_default_flag(r),
    {
        RecordFlag {
            alpha: false,
            action_keys: Some(String::new()),
            cancel_keys: Some(String::new()),
            font: None,
            monitor: None,
            select: true,
            mouse: false,
        }
    }
}

impl RecordFlag {
    /// Create flag settings from their values; an empty font name means
    /// no font.
    pub fn new(
        alpha: bool,
        action_keys: Option<String>,
        cancel_keys: Option<String>,
        font: &str,
        monitor: Option<usize>,
        select: bool,
        mouse: bool,
    ) -> (r: RecordFlag)
        ensures
            r.alpha == alpha,
            r.action_keys == action_keys,
            r.cancel_keys == cancel_keys,
            font@.len() == 0 ==> r.font is None,
            font@.len() != 0 ==> (r.font matches Some(f) && f@ == font@),
            r.monitor == monitor,
            r.select == select,
            r.mouse == mouse,
    {
        RecordFlag {
            alpha,
            action_keys,
            cancel_keys,
            font: if font.is_empty() {
                None
            } else {
                Some(String::from_str(font))
            },
            monitor,
            select,
            mouse,
        }
    }
}

/// Window to record, with geometric properties.
#[derive(Clone, Copy, PartialEq, Debug)]
pub enum RecordWindow {
    /// The focused window, with an optional size and the parent flag.
    Focus(Option<Geometry>, bool),
    /// The root window, with an optional size.
    Root(Option<Geometry>),
}

/// The geometry the size value describes: its part before the first `+`,
/// read as `WxH`.
pub open spec fn spec_size_geometry(size: Option<String>) -> Geometry {
    spec_parse_geometry(spec_split(spec_text_or_empty(size), '+')[0])
}

/// The window choice the arguments describe: an explicit or selected size
/// is honoured; focus beats root unless a monitor is named; naming
/// neither falls back to the focused window with a definite size.
pub open spec fn spec_record_window(args: RecordArgs) -> RecordWindow {
    let size = if args.size_occurrences != 0 || args.select {
        Some(spec_size_geometry(args.size))
    } else {
        None::<Geometry>
    };
    if args.focus && !(args.monitor is Some) {
        RecordWindow::Focus(size, args.parent)
    } else if args.root || args.monitor is Some {
        RecordWindow::Root(size)
    } else {
        RecordWindow::Focus(
            Some(
                match size {
                    Some(g) => g,
                    None => Geometry { x: 0, y: 0, width: 0, height: 0 },
                },
            ),
            args.parent,
        )
    }
}

impl RecordWindow {
    /// Choose the window to record from argument values.
    pub fn from_args(args: &RecordArgs) -> (r: RecordWindow)
        ensures
            r == spec_record_window(*args),
    {
        let size: Option<Geometry> = if args.size_occurrences != 0 || args.select {
            let text: &str = match &args.size {
                Some(s) => s.as_str(),
                None => "",
            };
            proof {
                reveal_strlit("");
                assert(text@ =~= spec_text_or_empty(args.size));
            }
            let chars = chars_of(text);
            let parts = split_char(&chars, '+');
            proof {
                crate::parse::lemma_split_len(text@, '+');
                assert(parts@[0]@ == spec_split(text@, '+')[0]);
            }
            Some(Geometry::from_chars(&parts[0]))
        } else {
            None
        };
        let monitor_present: bool = match &args.monitor {
            Some(_) => true,
            None => false,
        };
        if args.focus && !monitor_present {
            RecordWindow::Focus(size, args.parent)
        } else if args.root || monitor_present {
            RecordWindow::Root(size)
        } else {
            let g: Geometry = match size {
                Some(g) => g,
                None => Geometry::default(),
            };
            RecordWindow::Focus(Some(g), args.parent)
        }
    }
}

/// Recording and window settings.
#[derive(Debug)]
pub struct RecordSettings {
    /// The companion command to run while recording, if one is set.
    pub command: Option<String>,
    pub color: u64,
    pub border: Option<u32>,
    pub padding: Padding,
    pub time: RecordTime,
    pub flag: RecordFlag,
    pub window: RecordWindow,
}

/// The default main color.
pub const DEFAULT_COLOR: u64 = 0x003A_A431;

/// The color a hexadecimal value stands for, with the default for an
/// unreadable one.
pub open spec fn spec_color(s: Seq<char>) -> u64 {
    match spec_parse_hex_u64(s) {
        Some(v) => v,
        None => DEFAULT_COLOR,
    }
}

/// The border an argument value stands for: a positive width, or none.
pub open spec fn spec_border(o: Option<String>) -> Option<u32> {
    let b = spec_u64_or(o, 0);
    if 0 < b <= u32::MAX as u64 {
        Some(b as u32)
    } else {
        None::<u32>
    }
}

/// The padding the arguments describe: the padding value, and when the
/// size value carries exactly two offsets, those replace the left and top
/// edges.
pub open spec fn spec_padding_args(args: RecordArgs) -> Padding {
    let base = spec_parse_padding(spec_text_or_empty(args.padding));
    let size = spec_text_or_empty(args.size);
    if spec_count_char(size, '+') == 2 {
        let parts = spec_split(size, '+');
        Padding {
            left: crate::image::spec_u32_or_zero(parts[1]),
            top: crate::image::spec_u32_or_zero(parts[2]),
            ..base
        }
    } else {
        base
    }
}

/// The monitor number an argument value stands for, if it reads as one.
pub open spec fn spec_monitor(o: Option<String>) -> Option<usize> {
    match o {
        Some(s) => match spec_parse_u64(s@) {
            Some(v) => if v <= usize::MAX as u64 {
                Some(v as usize)
            } else {
                None::<usize>
            },
            None => None::<usize>,
        },
        None => None::<usize>,
    }
}

/// Whether the select flag applies: an explicit position in the size
/// value leaves the choice to the flag, otherwise selection is on.
pub open spec fn spec_select(args: RecordArgs) -> bool {
    if spec_count_char(spec_text_or_empty(args.size), '+') != 0 {
        args.select
    } else {
        true
    }
}

/// The default record settings.
pub open spec fn spec_default_settings(r: RecordSettings) -> bool {
    &&& r.command is None
    &&& r.color == DEFAULT_COLOR
    &&& r.border == Some(1u32)
    &&& r.padding == (Padding { top: 0, right: 0, bottom: 0, left: 0 })
    &&& r.time == (RecordTime { duration: None, countdown: 3, timeout: 300, interval: 10 })
    &&& spec_default_flag(r.flag)
    &&& r.window == RecordWindow::Focus(
        Some(Geometry { x: 0, y: 0, width: 0, height: 0 }),
        false,
    )
}

/// What the record settings hold after reading the given arguments.
pub open spec fn spec_settings_from(r: RecordSettings, args: RecordArgs, color: Seq<char>) -> bool {
    &&& (args.command matches Some(c) ==> (r.command matches Some(rc) && rc@ == c@))
    &&& (args.command is None ==> r.command is None)
    &&& r.color == spec_color(color)
    &&& r.border == spec_border(args.border)
    &&& r.padding == spec_padding_args(args)
    &&& r.time == (RecordTime {
        duration: spec_duration_opt(args.duration),
        countdown: spec_u64_or(args.countdown, 3),
        timeout: spec_u64_or(args.timeout, 300),
        interval: spec_u64_or(args.interval, 10),
    })
    &&& r.flag.alpha == args.with_alpha
    &&& (args.no_keys ==> r.flag.action_keys is None)
    &&& (!args.no_keys ==> (r.flag.action_keys matches Some(a) && a@ == spec_text_or_empty(
        args.action_keys,
    )))
    &&& (r.flag.cancel_keys matches Some(c) && c@ == spec_text_or_empty(args.cancel_keys))
    &&& (spec_text_or_empty(args.font).len() == 0 ==> r.flag.font is None)
    &&& (spec_text_or_empty(args.font).len() != 0 ==> (r.flag.font matches Some(f) && f@
        == spec_text_or_empty(args.font)))
    &&& r.flag.monitor == spec_monitor(args.monitor)
    &&& r.flag.select == spec_select(args)
    &&& r.flag.mouse == args.mouse
    &&& r.window == spec_record_window(args)
}

impl Default for RecordSettings {
    /// The default recording settings.
    fn default() -> (r: RecordSettings)
        ensures
            spec_default_settings(r),
    {
        RecordSettings {
            command: None,
            color: DEFAULT_COLOR,
            border: Some(1),
            padding: Padding::default(),
            time: RecordTime::default(),
            flag: RecordFlag::default(),
            window: RecordWindow::Focus(Some(Geometry::default()), false),
        }
    }
}

impl RecordSettings {
    /// Create record settings from their values.
    pub fn new(
        command: Option<String>,
        color: u64,
        border: Option<u32>,
        padding: Padding,
        time: RecordTime,
        flag: RecordFlag,
        window: RecordWindow,
    ) -> (r: RecordSettings)
        ensures
            r.command == command,
            r.color == color,
            r.border == border,
            r.padding == padding,
            r.time == time,
            r.flag == flag,
            r.window == window,
    {
        RecordSettings { command, color, border, padding, time, flag, window }
    }

    /// Read record settings from argument values (the color value comes
    /// from the surrounding arguments); absent arguments mean the
    /// defaults.
    pub fn from_args(args: Option<&RecordArgs>, color: Option<&str>) -> (r: RecordSettings)
        ensures
            args is None ==> spec_default_settings(r),
            args matches Some(a) ==> spec_settings_from(r, *a, match color {
                Some(c) => c@,
                None => Seq::<char>::empty(),
            }),
    {
        let color_text: &str = match color {
            Some(c) => c,
            None => "",
        };
        proof {
            reveal_strlit("");
        }
        Self::from_parser(args, color_text)
    }

    /// Read record settings from argument values: the companion command
    /// and flags are taken over, the color is read as hexadecimal, the
    /// border must be positive to exist, and padding, times, keys, font,
    /// monitor and window all follow their own reading rules.
    pub fn from_parser(args: Option<&RecordArgs>, color: &str) -> (r: RecordSettings)
        ensures
            args is None ==> spec_default_settings(r),
            args matches Some(a) ==> spec_settings_from(r, *a, color@),
    {
        match args {
            Some(a) => {
                let color_chars = chars_of(color);
                let color_value: u64 = match parse_hex_u64(&color_chars) {
                    Some(v) => v,
                    None => DEFAULT_COLOR,
                };
                let border_value: u64 = u64_or(&a.border, 0);
                let border: Option<u32> = if border_value > 0 && border_value <= u32::MAX as u64 {
                    Some(border_value as u32)
                } else {
                    None
                };
                let size_text: &str = match &a.size {
                    Some(s) => s.as_str(),
                    None => "",
                };
                proof {
                    reveal_strlit("");
                    assert(size_text@ =~= spec_text_or_empty(a.size));
                }
                let size_chars = chars_of(size_text);
                let plus_count = count_char(&size_chars, '+');
                let action_keys: Option<String> = if a.no_keys {
                    None
                } else {
                    match &a.action_keys {
                        Some(k) => Some(String::from_str(k.as_str())),
                        None => Some(String::new()),
                    }
                };
                let cancel_keys: Option<String> = match &a.cancel_keys {
                    Some(k) => Some(String::from_str(k.as_str())),
                    None => Some(String::new()),
                };
                let font_text: &str = match &a.font {
                    Some(f) => f.as_str(),
                    None => "",
                };
                proof {
                    assert(font_text@ =~= spec_text_or_empty(a.font));
                }
                let monitor: Option<usize> = match &a.monitor {
                    Some(m) => {
                        let chars = chars_of(m.as_str());
                        match parse_u64(&chars) {
                            Some(v) => if v <= usize::MAX as u64 {
                                Some(v as usize)
                            } else {
                                None
                            },
                            None => None,
                        }
                    },
                    None => None,
                };
                let select: bool = if plus_count != 0 {
                    a.select
                } else {
                    true
                };
                RecordSettings::new(
                    clone_text(&a.command),
                    color_value,
                    border,
                    Self::parse_padding(a),
                    RecordTime::from_parser(a),
                    RecordFlag::new(
                        a.with_alpha,
                        action_keys,
                        cancel_keys,
                        font_text,
                        monitor,
                        select,
                        a.mouse,
                    ),
                    RecordWindow::from_args(a),
                )
            },
            None => RecordSettings::default(),
        }
    }

    /// Read the padding from argument values: the padding value itself,
    /// with the left and top edges replaced by the two offsets of the
    /// size value when it carries exactly two.
    pub fn parse_padding(args: &RecordArgs) -> (r: Padding)
        ensures
            r == spec_padding_args(*args),
    {
        let padding_text: &str = match &args.padding {
            Some(p) => p.as_str(),
            None => "",
        };
        proof {
            reveal_strlit("");
            assert(padding_text@ =~= spec_text_or_empty(args.padding));
        }
        let mut padding = Padding::parse(padding_text);
        let size_text: &str = match &args.size {
            Some(s) => s.as_str(),
            None => "",
        };
        proof {
            assert(size_text@ =~= spec_text_or_empty(args.size));
        }
        let size_chars = chars_of(size_text);
        if count_char(&size_chars, '+') == 2 {
            let parts = split_char(&size_chars, '+');
            proof {
                lemma_split_segments(size_text@, '+');
                assert(parts@[1]@ == spec_split(size_text@, '+')[1]);
                assert(parts@[2]@ == spec_split(size_text@, '+')[2]);
            }
            padding.left = crate::image::u32_or_zero(&parts[1]);
            padding.top = crate::image::u32_or_zero(&parts[2]);
        }
        padding
    }

    /// The companion command, if one is set.
    pub fn get_command(&self) -> (r: Option<String>)
        ensures
            self.command is Some <==> r is Some,
            self.command matches Some(c) ==> (r matches Some(rc) && rc@ == c@),
    {
        clone_text(&self.command)
    }
}

/// The plain values of the save arguments, as the outside argument
/// reader and prompt hand them over.
pub struct SaveArgs {
    pub output: Option<String>,
    pub date: bool,
    pub timestamp: bool,
    /// The reply the file name prompt got, if one was asked and answered.
    pub prompt_reply: Option<String>,
}

/// Output file settings.
#[derive(Debug)]
pub struct SaveSettings {
    pub file: File,
}

/// The base file name the save arguments describe: a non-empty prompt
/// reply wins over the output value.
pub open spec fn spec_base_name(a: SaveArgs) -> Seq<char> {
    match a.prompt_reply {
        Some(r) => if r@.len() > 0 {
            r@
        } else {
            spec_text_or_empty(a.output)
        },
        None => spec_text_or_empty(a.output),
    }
}

impl SaveSettings {
    /// Create save settings around a file description.
    pub fn new(file: File) -> (r: SaveSettings)
        ensures
            r.file.name@ == file.name@,
            r.file.format == file.format,
            r.file.info == file.info,
    {
        SaveSettings { file }
    }

    /// Read save settings from argument values: without arguments the
    /// format's default file; otherwise the output name (a non-empty
    /// prompt reply wins over it), with the date or timestamp woven in
    /// when asked for.
    pub fn from_args(args: Option<&SaveArgs>, format: FileFormat) -> (r: SaveSettings)
        ensures
            args is None ==> (r.file.name@ == "t."@ + spec_extension(format) && r.file.format
                == format && r.file.info is None),
            args matches Some(a) ==> {
                &&& r.file.format == format
                &&& r.file.info == (if a.date {
                    Some(FileInfo::Date)
                } else if a.timestamp {
                    Some(FileInfo::Timestamp)
                } else {
                    None::<FileInfo>
                })
                &&& ((a.date || a.timestamp) ==> (exists|t: Seq<char>|
                    r.file.name@ == spec_append_info(spec_base_name(*a), t)))
                &&& (!a.date && !a.timestamp ==> r.file.name@ == spec_base_name(*a))
            },
    {
        match args {
            Some(a) => {
                let mut file_name: String = match &a.output {
                    Some(o) => String::from_str(o.as_str()),
                    None => String::new(),
                };
                let file_info = FileInfo::from_args(a.date, a.timestamp);
                match &a.prompt_reply {
                    Some(reply) => {
                        if !reply.as_str().is_empty() {
                            file_name = String::from_str(reply.as_str());
                        }
                    },
                    None => {},
                }
                let ghost base = file_name@;
                proof {
                    assert(base == spec_base_name(*a));
                }
                match file_info {
                    Some(info) => {
                        info.append(&mut file_name);
                        proof {
                            let t = choose|t: Seq<char>|
                                file_name@ == spec_append_info(base, t);
                            assert(file_name@ == spec_append_info(spec_base_name(*a), t));
                        }
                    },
                    None => {},
                }
                SaveSettings::new(File::new(file_name, format, file_info))
            },
            None => SaveSettings::new(File::from_format(format)),
        }
    }
}

/// Everything the orchestrator needs: the output file, the recording
/// settings, the frame rate, and whether an existing artifact is edited
/// instead of captured.
#[derive(Debug)]
pub struct AppSettings {
    pub save: SaveSettings,
    pub record: RecordSettings,
    /// Target frame rate of a recording.
    pub fps: u32,
    /// The path of an artifact to edit instead of capturing, if any.
    pub edit: Option<String>,
}

impl AppSettings {
    /// Create application settings from their parts.
    pub fn new(save: SaveSettings, record: RecordSettings, fps: u32, edit: Option<String>) -> (r:
        AppSettings)
        ensures
            r.save == save,
            r.record == record,
            r.fps == fps,
            r.edit == edit,
    {
        AppSettings { save, record, fps, edit }
    }
}

/// A split has one segment more than the separator occurs.
pub proof fn lemma_split_segments(s: Seq<char>, sep: char)
    ensures
        spec_split(s, sep).len() == spec_count_char(s, sep) + 1,
    decreases s.len(),
{
    if s.len() > 0 {
        lemma_split_segments(s.drop_first(), sep);
    }
}

} // verus!
