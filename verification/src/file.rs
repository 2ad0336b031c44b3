//! The output file: its format, its name, and the date or timestamp
//! information woven into the name.

use vstd::prelude::*;
use vstd::string::StrSliceExecFns;
use vstd::string::StringExecFns;

use crate::parse::{i64_text, spec_i64_text};

verus! {

/// Information to include in the output file name.
#[derive(Clone, Copy, PartialEq, Eq, Structural, Debug)]
pub enum FileInfo {
    /// The local date and time.
    Date,
    /// The epoch timestamp.
    Timestamp,
}

/// Relies on `chrono::Local::now` and `chrono::DateTime::format`: the
/// current local time rendered with the `%Y%m%dT%H%M%S` pattern.  The
/// result depends on the clock, so nothing is promised of it.
#[verifier::external_body]
fn date_text() -> String {
    chrono::Local::now().format("%Y%m%dT%H%M%S").to_string()
}

/// Relies on `chrono::Local::now` and `chrono::DateTime::timestamp`: the
/// number of non-leap seconds since the Unix epoch.  The result depends on
/// the clock, so nothing is promised of it.
#[verifier::external_body]
fn timestamp_now() -> i64 {
    chrono::Local::now().timestamp()
}

/// The index of the first dot of a name, or its length when it has none.
pub open spec fn spec_first_dot(name: Seq<char>) -> int
    decreases name.len(),
{
    if name.len() == 0 {
        0
    } else if name[0] == '.' {
        0
    } else {
        1 + spec_first_dot(name.drop_first())
    }
}

/// Weaving information into a file name: an underscore and the text go in
/// front of the first dot, or at the end of a name without one.
pub open spec fn spec_append_info(name: Seq<char>, info: Seq<char>) -> Seq<char> {
    name.take(spec_first_dot(name)) + seq!['_'] + info + name.skip(spec_first_dot(name))
}

/// The first dot is where the scan that found no earlier dot stops.
proof fn lemma_first_dot_at(s: Seq<char>, i: int)
    requires
        0 <= i <= s.len(),
        forall|j: int| 0 <= j < i ==> s[j] != '.',
        i < s.len() ==> s[i] == '.',
    ensures
        spec_first_dot(s) == i,
    decreases s.len(),
{
    if s.len() > 0 && s[0] != '.' {
        lemma_first_dot_at(s.drop_first(), i - 1);
    }
}

/// The index of the first dot of a name, or its length when it has none.
fn first_dot(name: &str) -> (r: usize)
    ensures
        r == spec_first_dot(name@),
        r <= name@.len(),
{
    let n: usize = name.unicode_len();
    let mut i: usize = 0;
    while i < n
        invariant
            0 <= i <= n,
            n == name@.len(),
            forall|j: int| 0 <= j < i ==> name@[j] != '.',
        decreases n - i,
    {
        if name.get_char(i) == '.' {
            proof {
                lemma_first_dot_at(name@, i as int);
            }
            return i;
        }
        i += 1;
    }
    proof {
        lemma_first_dot_at(name@, n as int);
    }
    i
}

/// Weave a piece of text into a file name, in front of its first dot.
pub fn append_info(name: &str, info: &str) -> (r: String)
    ensures
        r@ == spec_append_info(name@, info@),
{
    let n: usize = name.unicode_len();
    let i: usize = first_dot(name);
    proof {
        reveal_strlit("_");
    }
    let prefix = name.substring_char(0, i);
    let suffix = name.substring_char(i, n);
    let mut r = String::from_str(prefix);
    r.append("_");
    r.append(info);
    r.append(suffix);
    proof {
        assert(r@ =~= spec_append_info(name@, info@));
    }
    r
}

impl FileInfo {
    /// The decision behind the original argument reading: the date flag
    /// wins over the timestamp flag, and neither means no information.
    pub fn from_args(date: bool, timestamp: bool) -> (r: Option<FileInfo>)
        ensures
            r == if date {
                Some(FileInfo::Date)
            } else if timestamp {
                Some(FileInfo::Timestamp)
            } else {
                None::<FileInfo>
            },
    {
        if date {
            Some(FileInfo::Date)
        } else if timestamp {
            Some(FileInfo::Timestamp)
        } else {
            None
        }
    }

    /// The text this information renders as right now: the formatted local
    /// time, or the decimal rendering of the current epoch timestamp.
    pub fn text(self) -> (r: String)
        ensures
            self == FileInfo::Timestamp ==> (exists|v: i64| r@ == spec_i64_text(v as int)),
    {
        match self {
            FileInfo::Date => date_text(),
            FileInfo::Timestamp => {
                let v = timestamp_now();
                let r = i64_text(v);
                proof {
                    assert(r@ == spec_i64_text(v as int));
                }
                r
            },
        }
    }

    /// Append the file information to the file name, in front of its first
    /// dot.  The woven-in text comes from the clock, so only its placement
    /// is promised — and, for a timestamp, its shape: the decimal
    /// rendering of some epoch second.
    pub fn append(self, file_name: &mut String)
        ensures
            exists|t: Seq<char>|
                final(file_name)@ == spec_append_info(old(file_name)@, t),
            self == FileInfo::Timestamp ==> (exists|v: i64|
                final(file_name)@ == spec_append_info(
                    old(file_name)@,
                    spec_i64_text(v as int),
                )),
    {
        let text = self.text();
        let appended = append_info(file_name.as_str(), text.as_str());
        *file_name = appended;
        proof {
            assert(file_name@ == spec_append_info(old(file_name)@, text@));
            if self == FileInfo::Timestamp {
                let v = choose|v: i64| text@ == spec_i64_text(v as int);
                assert(file_name@ == spec_append_info(
                    old(file_name)@,
                    spec_i64_text(v as int),
                ));
            }
        }
    }
}

/// Format of the output file.
#[derive(Clone, Copy, PartialEq, Eq, Structural, Debug)]
pub enum FileFormat {
    Gif,
    Png,
    Jpg,
    Bmp,
    Farbfeld,
}

/// The lowercase file extension of a format.
pub open spec fn spec_extension(f: FileFormat) -> Seq<char> {
    match f {
        FileFormat::Gif => "gif"@,
        FileFormat::Png => "png"@,
        FileFormat::Jpg => "jpg"@,
        FileFormat::Bmp => "bmp"@,
        FileFormat::Farbfeld => "farbfeld"@,
    }
}

impl FileFormat {
    /// The decision behind the original argument reading: a still format
    /// only under the capture subcommand — first of the bmp, jpg and
    /// farbfeld flags wins, png is the fallback — and an animation
    /// otherwise.
    pub fn from_args(capture: bool, bmp: bool, jpg: bool, ff: bool) -> (r: FileFormat)
        ensures
            r == if !capture {
                FileFormat::Gif
            } else if bmp {
                FileFormat::Bmp
            } else if jpg {
                FileFormat::Jpg
            } else if ff {
                FileFormat::Farbfeld
            } else {
                FileFormat::Png
            },
    {
        if !capture {
            FileFormat::Gif
        } else if bmp {
            FileFormat::Bmp
        } else if jpg {
            FileFormat::Jpg
        } else if ff {
            FileFormat::Farbfeld
        } else {
            FileFormat::Png
        }
    }

    /// The lowercase file extension of this format.
    pub fn extension(self) -> (r: String)
        ensures
            r@ == spec_extension(self),
    {
        match self {
            FileFormat::Gif => String::from_str("gif"),
            FileFormat::Png => String::from_str("png"),
            FileFormat::Jpg => String::from_str("jpg"),
            FileFormat::Bmp => String::from_str("bmp"),
            FileFormat::Farbfeld => String::from_str("farbfeld"),
        }
    }
}

/// The pixel layout a still-image encoder expects.
#[derive(Clone, Copy, PartialEq, Eq, Structural, Debug)]
pub enum ColorMode {
    Rgb8,
    Rgba8,
    Rgba16,
}

/// The pixel layout the encoder of a still format expects.
pub open spec fn spec_color_mode(f: FileFormat) -> ColorMode {
    match f {
        FileFormat::Jpg => ColorMode::Rgb8,
        FileFormat::Farbfeld => ColorMode::Rgba16,
        _ => ColorMode::Rgba8,
    }
}

impl FileFormat {
    /// The pixel layout the encoder of this format expects.  Stills only:
    /// an animation is encoded frame by frame on its own path, and gets
    /// the common layout.
    pub fn color_mode(self) -> (r: ColorMode)
        ensures
            r == spec_color_mode(self),
    {
        match self {
            FileFormat::Jpg => ColorMode::Rgb8,
            FileFormat::Farbfeld => ColorMode::Rgba16,
            _ => ColorMode::Rgba8,
        }
    }
}

/// The output file: its name, format, and the information woven into the
/// name.
#[derive(Debug)]
pub struct File {
    pub name: String,
    pub format: FileFormat,
    pub info: Option<FileInfo>,
}

impl File {
    /// Create a file description from its parts.
    pub fn new(name: String, format: FileFormat, info: Option<FileInfo>) -> (r: File)
        ensures
            r.name@ == name@,
            r.format == format,
            r.info == info,
    {
        File { name, format, info }
    }

    /// The default file description for a format: a short name carrying
    /// only the format's extension.
    pub fn from_format(file_format: FileFormat) -> (r: File)
        ensures
            r.name@ == "t."@ + spec_extension(file_format),
            r.format == file_format,
            r.info is None,
    {
        let mut name = String::from_str("t.");
        let ext = file_format.extension();
        name.append(ext.as_str());
        File::new(name, file_format, None)
    }
}

} // verus!
