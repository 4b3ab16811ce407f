//! The values that command-line arguments parse into.
use vstd::prelude::*;
use vstd::string::*;
use crate::text::{lower_of, lowercase, parse_u8, u8_of};

verus! {

/// A volume change: raise by, lower by, or set to a percentage.
#[derive(PartialEq, Eq, Structural, Clone, Copy, Debug)]
pub enum VolumeOperation {
    Increase(u8),
    Decrease(u8),
    SetTo(u8),
}

/// A shuffle mode to set.
#[derive(PartialEq, Eq, Structural, Clone, Copy, Debug)]
pub enum ShuffleOperation {
    On,
    Off,
}

/// A repeat mode to set.
#[derive(PartialEq, Eq, Structural, Clone, Copy, Debug)]
pub enum RepeatOperation {
    On,
    Off,
    Track,
}

/// The kind of content that a search or a play command looks for.
#[derive(PartialEq, Eq, Structural, Clone, Copy, Debug)]
pub enum SearchKind {
    Track,
    Playlist,
    Album,
    Artist,
    Show,
    Episode,
}

/// Which content-type flags were given on the command line.
#[derive(PartialEq, Eq, Structural, Clone, Copy, Debug)]
pub struct TypeFlags {
    pub track: bool,
    pub playlist: bool,
    pub album: bool,
    pub artist: bool,
    pub show: bool,
    pub episode: bool,
}

/// A result with its error text seen as characters.
pub open spec fn text_result<T>(r: Result<T, String>) -> Result<T, Seq<char>> {
    match r {
        Ok(v) => Ok(v),
        Err(e) => Err(e@),
    }
}

pub open spec fn not_a_number(s: Seq<char>) -> Seq<char> {
    "\""@ + s + "\" is not a valid number value"@
}

pub open spec fn out_of_range() -> Seq<char> {
    "Please provide a volume value between 0 and 100"@
}

pub open spec fn missing_increase() -> Seq<char> {
    "Please provide a value to increase the volume by"@
}

pub open spec fn missing_decrease() -> Seq<char> {
    "Please provide a value to decrease the volume by"@
}

/// A volume percentage written in decimal: a byte worth at most 100.
pub open spec fn volume_number(s: Seq<char>) -> Result<u8, Seq<char>> {
    match u8_of(s) {
        None => Err(not_a_number(s)),
        Some(n) => if n <= 100 {
            Ok(n)
        } else {
            Err(out_of_range())
        },
    }
}

/// The operation `op` applied to the number that `s` writes.
pub open spec fn volume_with(s: Seq<char>, op: VolumeOperation) -> Result<VolumeOperation, Seq<char>> {
    match volume_number(s) {
        Ok(n) => Ok(
            match op {
                VolumeOperation::Increase(_) => VolumeOperation::Increase(n),
                VolumeOperation::Decrease(_) => VolumeOperation::Decrease(n),
                VolumeOperation::SetTo(_) => VolumeOperation::SetTo(n),
            },
        ),
        Err(e) => Err(e),
    }
}

/// What a volume argument means: `+N` raises, `-N` lowers, `N` sets.
pub open spec fn volume_argument(arg: Seq<char>) -> Result<VolumeOperation, Seq<char>> {
    if arg.len() > 0 && arg[0] == '+' {
        if arg.len() < 2 {
            Err(missing_increase())
        } else {
            volume_with(arg.drop_first(), VolumeOperation::Increase(0))
        }
    } else if arg.len() > 0 && arg[0] == '-' {
        if arg.len() < 2 {
            Err(missing_decrease())
        } else {
            volume_with(arg.drop_first(), VolumeOperation::Decrease(0))
        }
    } else {
        volume_with(arg, VolumeOperation::SetTo(0))
    }
}

fn parse_num(s: &str) -> (r: Result<u8, String>)
    ensures
        text_result(r) == volume_number(s@),
{
    match parse_u8(s) {
        None => {
            let mut m = String::from_str("\"");
            m.append(s);
            m.append("\" is not a valid number value");
            Err(m)
        },
        Some(n) => {
            if n <= 100 {
                Ok(n)
            } else {
                Err(String::from_str("Please provide a volume value between 0 and 100"))
            }
        },
    }
}

/// Parse a volume argument: `+N` raises by N, `-N` lowers by N, `N` sets to N,
/// with N at most 100.
pub fn volume_parser(arg: &str) -> (r: Result<VolumeOperation, String>)
    ensures
        text_result(r) == volume_argument(arg@),
{
    let n = arg.unicode_len();
    if n > 0 && arg.get_char(0) == '+' {
        if n < 2 {
            return Err(String::from_str("Please provide a value to increase the volume by"));
        }
        let rest = arg.substring_char(1, n);
        assert(rest@ == arg@.drop_first());
        return match parse_num(rest) {
            Ok(v) => Ok(VolumeOperation::Increase(v)),
            Err(e) => Err(e),
        };
    }
    if n > 0 && arg.get_char(0) == '-' {
        if n < 2 {
            return Err(String::from_str("Please provide a value to decrease the volume by"));
        }
        let rest = arg.substring_char(1, n);
        assert(rest@ == arg@.drop_first());
        return match parse_num(rest) {
            Ok(v) => Ok(VolumeOperation::Decrease(v)),
            Err(e) => Err(e),
        };
    }
    match parse_num(arg) {
        Ok(v) => Ok(VolumeOperation::SetTo(v)),
        Err(e) => Err(e),
    }
}

/// Whether two texts hold the same characters.
pub fn same_text(a: &str, b: &str) -> (r: bool)
    ensures
        r == (a@ == b@),
{
    String::from_str(a) == String::from_str(b)
}

/// What an already lower-cased shuffle argument means.
pub open spec fn shuffle_word(lowered: Seq<char>) -> Result<ShuffleOperation, Seq<char>> {
    if lowered == "on"@ {
        Ok(ShuffleOperation::On)
    } else if lowered == "off"@ {
        Ok(ShuffleOperation::Off)
    } else {
        Err("Not a valid shuffle mode"@)
    }
}

/// What an already lower-cased repeat argument means.
pub open spec fn repeat_word(lowered: Seq<char>) -> Result<RepeatOperation, Seq<char>> {
    if lowered == "on"@ {
        Ok(RepeatOperation::On)
    } else if lowered == "off"@ {
        Ok(RepeatOperation::Off)
    } else if lowered == "track"@ {
        Ok(RepeatOperation::Track)
    } else {
        Err("Not a valid repeat mode"@)
    }
}

/// The shuffle mode that an already lower-cased argument names.
pub fn shuffle_mode_of(lowered: &str) -> (r: Result<ShuffleOperation, String>)
    ensures
        text_result(r) == shuffle_word(lowered@),
{
    if same_text(lowered, "on") {
        Ok(ShuffleOperation::On)
    } else if same_text(lowered, "off") {
        Ok(ShuffleOperation::Off)
    } else {
        Err(String::from_str("Not a valid shuffle mode"))
    }
}

/// The repeat mode that an already lower-cased argument names.
pub fn repeat_mode_of(lowered: &str) -> (r: Result<RepeatOperation, String>)
    ensures
        text_result(r) == repeat_word(lowered@),
{
    if same_text(lowered, "on") {
        Ok(RepeatOperation::On)
    } else if same_text(lowered, "off") {
        Ok(RepeatOperation::Off)
    } else if same_text(lowered, "track") {
        Ok(RepeatOperation::Track)
    } else {
        Err(String::from_str("Not a valid repeat mode"))
    }
}

/// Parse a shuffle argument, in any case: `on` or `off`.
pub fn shuffle_parser(arg: &str) -> (r: Result<ShuffleOperation, String>)
    ensures
        text_result(r) == shuffle_word(lower_of(arg@)),
{
    let lowered = lowercase(arg);
    shuffle_mode_of(lowered.as_str())
}

/// Parse a repeat argument, in any case: `on`, `off` or `track`.
pub fn repeat_parser(arg: &str) -> (r: Result<RepeatOperation, String>)
    ensures
        text_result(r) == repeat_word(lower_of(arg@)),
{
    let lowered = lowercase(arg);
    repeat_mode_of(lowered.as_str())
}

/// The content type that the flags select: the first one set, in the order
/// track, playlist, album, artist, show, episode.
pub open spec fn kind_of(f: TypeFlags) -> Option<SearchKind> {
    if f.track {
        Some(SearchKind::Track)
    } else if f.playlist {
        Some(SearchKind::Playlist)
    } else if f.album {
        Some(SearchKind::Album)
    } else if f.artist {
        Some(SearchKind::Artist)
    } else if f.show {
        Some(SearchKind::Show)
    } else if f.episode {
        Some(SearchKind::Episode)
    } else {
        None
    }
}

/// The content type that the given flags select, if any.
pub fn type_matches(flags: &TypeFlags) -> (r: Option<SearchKind>)
    ensures
        r == kind_of(*flags),
{
    if flags.track {
        Some(SearchKind::Track)
    } else if flags.playlist {
        Some(SearchKind::Playlist)
    } else if flags.album {
        Some(SearchKind::Album)
    } else if flags.artist {
        Some(SearchKind::Artist)
    } else if flags.show {
        Some(SearchKind::Show)
    } else if flags.episode {
        Some(SearchKind::Episode)
    } else {
        None
    }
}

} // verus!
