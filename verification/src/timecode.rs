//! Timecodes of SRT and WebVTT cues, such as `00:01:14.815` or `01:14.815`.

use crate::error::ParseError;
use crate::pattern::{captures, regex_captures};
use crate::text::{
    all_digits, chars_of, decimal, lemma_decimal_bound, matches_at, parse_decimal, pow10,
};
use vstd::prelude::*;

verus! {

/// The pattern of a timecode: hours of two to four digits and a colon, which
/// may both be left out, minutes and seconds of two digits each, the first
/// of them not above 5, a full stop or a comma, and three digits of
/// milliseconds. Groups 2 to 5 hold the four numbers.
pub const TIMECODE_PATTERN: &'static str =
    "^((\\d{2,4}):)?([0-5][0-9]):([0-5][0-9])[\\.,](\\d{3})$";

/// A timestamp of a cue: hours, minutes, seconds and milliseconds, with the
/// text it was read from.
#[non_exhaustive]
#[derive(Debug, PartialEq)]
pub struct TimeCode {
    /// the text the timecode was read from
    pub string: String,
    /// hours
    pub hh: u32,
    /// minutes
    pub mm: u32,
    /// seconds
    pub ss: u32,
    /// milliseconds
    pub ttt: u32,
}

/// A timecode as mathematics sees it.
pub struct TimeCodeView {
    /// the text the timecode was read from
    pub string: Seq<char>,
    /// hours, which may be more than a day has
    pub hh: nat,
    /// minutes
    pub mm: nat,
    /// seconds
    pub ss: nat,
    /// milliseconds
    pub ttt: nat,
}

impl TimeCodeView {
    /// Whole seconds from zero to this timecode: hours × 3600 + minutes × 60
    /// + seconds. The milliseconds do not count.
    pub open spec fn seconds(self) -> nat {
        self.hh * 3600 + self.mm * 60 + self.ss
    }
}

impl View for TimeCode {
    type V = TimeCodeView;

    open spec fn view(&self) -> TimeCodeView {
        TimeCodeView {
            string: self.string@,
            hh: self.hh as nat,
            mm: self.mm as nat,
            ss: self.ss as nat,
            ttt: self.ttt as nat,
        }
    }
}

/// The digits of the hours in a text of the shape of a timecode; none where
/// the text has no hours.
pub open spec fn hour_digits(s: Seq<char>) -> Seq<char> {
    if s.len() > 9 {
        s.subrange(0, s.len() - 10)
    } else {
        Seq::empty()
    }
}

/// The two digits of the minutes in a text of the shape of a timecode.
pub open spec fn minute_digits(s: Seq<char>) -> Seq<char> {
    s.subrange(s.len() - 9, s.len() - 7)
}

/// The two digits of the seconds in a text of the shape of a timecode.
pub open spec fn second_digits(s: Seq<char>) -> Seq<char> {
    s.subrange(s.len() - 6, s.len() - 4)
}

/// The three digits of the milliseconds in a text of the shape of a timecode.
pub open spec fn milli_digits(s: Seq<char>) -> Seq<char> {
    s.subrange(s.len() - 3, s.len() as int)
}

/// Whether `s` is a timecode: `MM:SS.mmm` or `HH:MM:SS.mmm`, the hours of two
/// to four digits, minutes and seconds below 60, and a comma allowed in place
/// of the full stop.
pub open spec fn is_timecode(s: Seq<char>) -> bool {
    &&& s.len() == 9 || 12 <= s.len() <= 14
    &&& s.len() > 9 ==> all_digits(hour_digits(s)) && s[s.len() - 10] == ':'
    &&& all_digits(minute_digits(s))
    &&& decimal(minute_digits(s)) < 60
    &&& s[s.len() - 7] == ':'
    &&& all_digits(second_digits(s))
    &&& decimal(second_digits(s)) < 60
    &&& s[s.len() - 4] == '.' || s[s.len() - 4] == ','
    &&& all_digits(milli_digits(s))
}

/// The timecode that the text `s` writes.
pub open spec fn timecode_value(s: Seq<char>) -> TimeCodeView {
    TimeCodeView {
        string: s,
        hh: decimal(hour_digits(s)),
        mm: decimal(minute_digits(s)),
        ss: decimal(second_digits(s)),
        ttt: decimal(milli_digits(s)),
    }
}

/// Whether the groups of a match hold the four fields of the text `s`: the
/// hours in group 2, which took no part where the text has none, then the
/// minutes, the seconds and the milliseconds.
pub open spec fn fields_captured(s: Seq<char>, groups: Seq<Option<Seq<char>>>) -> bool {
    &&& groups.len() >= 6
    &&& groups[2] == if s.len() > 9 {
        Some(hour_digits(s))
    } else {
        None
    }
    &&& groups[3] == Some(minute_digits(s))
    &&& groups[4] == Some(second_digits(s))
    &&& groups[5] == Some(milli_digits(s))
}

/// What a text and the groups of its match give: the timecode that the text
/// writes, where the text is a timecode and the groups hold its fields.
pub open spec fn timecode_from(s: Seq<char>, groups: Seq<Option<Seq<char>>>) -> Option<
    TimeCodeView,
> {
    if is_timecode(s) && fields_captured(s, groups) {
        Some(timecode_value(s))
    } else {
        None
    }
}

/// What parsing the text `s` gives: the search for the pattern, then
/// [`timecode_from`] on what it captured.
pub open spec fn parsed_timecode(s: Seq<char>) -> Option<TimeCodeView> {
    match regex_captures(TIMECODE_PATTERN@, s) {
        Some(groups) => timecode_from(s, groups),
        None => None,
    }
}

impl TimeCode {
    /// Whether this value is what its own text writes, the text being a
    /// timecode.
    pub open spec fn wf(&self) -> bool {
        &&& is_timecode(self.string@)
        &&& self@ == timecode_value(self.string@)
    }

    /// Whole seconds from zero to this timecode.
    pub open spec fn seconds(&self) -> nat {
        self@.seconds()
    }

    /// Converts the timecode to seconds; the milliseconds are cut off.
    pub fn to_seconds(&self) -> (secs: u32)
        requires
            self.seconds() <= u32::MAX,
        ensures
            secs == self.seconds(),
    {
        self.hh * 3600 + self.mm * 60 + self.ss
    }
}

/// The fields of a timecode are in range: hours below 10000, minutes and
/// seconds below 60, milliseconds below 1000.
pub proof fn lemma_timecode_ranges(s: Seq<char>)
    requires
        is_timecode(s),
    ensures
        timecode_value(s).hh <= 9999,
        timecode_value(s).mm <= 59,
        timecode_value(s).ss <= 59,
        timecode_value(s).ttt <= 999,
{
    reveal_with_fuel(pow10, 5);
    lemma_decimal_bound(hour_digits(s));
    lemma_decimal_bound(milli_digits(s));
}

/// Every timecode whose fields the search hands back is accepted, and its
/// seconds are those that its text writes: hours × 3600 + minutes × 60 +
/// seconds, the milliseconds cut off. They fit in 32 bits.
pub proof fn lemma_timecode_accepted(s: Seq<char>, groups: Seq<Option<Seq<char>>>)
    requires
        is_timecode(s),
        fields_captured(s, groups),
    ensures
        timecode_from(s, groups) == Some(timecode_value(s)),
        timecode_value(s).seconds() == decimal(hour_digits(s)) * 3600 + decimal(minute_digits(s))
            * 60 + decimal(second_digits(s)),
        timecode_value(s).seconds() <= 35_999_999,
{
    lemma_timecode_ranges(s);
}

/// What is no timecode is refused, whatever the search hands back.
pub proof fn lemma_timecode_refused(s: Seq<char>, groups: Seq<Option<Seq<char>>>)
    requires
        !is_timecode(s),
    ensures
        timecode_from(s, groups) is None,
        parsed_timecode(s) is None,
{
}

/// A text whose minutes or seconds are 60 or more is no timecode.
pub proof fn lemma_sixty_refused(s: Seq<char>)
    requires
        decimal(minute_digits(s)) >= 60 || decimal(second_digits(s)) >= 60,
    ensures
        !is_timecode(s),
        parsed_timecode(s) is None,
{
}

/// A text that lacks its milliseconds, or has another length than a
/// timecode has, or another character where a colon or the full stop
/// belongs, is no timecode.
pub proof fn lemma_malformed_refused(s: Seq<char>)
    requires
        ({
            ||| s.len() < 9 || s.len() == 10 || s.len() == 11 || s.len() > 14
            ||| s[s.len() - 7] != ':'
            ||| s[s.len() - 4] != '.' && s[s.len() - 4] != ','
            ||| s.len() > 9 && s[s.len() - 10] != ':'
        }),
    ensures
        !is_timecode(s),
        parsed_timecode(s) is None,
{
}

/// The seconds of a well-formed timecode are those that its text writes, and
/// they fit in 32 bits.
pub proof fn lemma_seconds(timecode: &TimeCode)
    requires
        timecode.wf(),
    ensures
        timecode.seconds() == decimal(hour_digits(timecode.string@)) * 3600 + decimal(
            minute_digits(timecode.string@),
        ) * 60 + decimal(second_digits(timecode.string@)),
        timecode.mm <= 59,
        timecode.ss <= 59,
        timecode.ttt <= 999,
        timecode.seconds() <= 35_999_999,
{
    lemma_timecode_ranges(timecode.string@);
}

/// Reads the field `v[at..at + width]`: `Some` where `group` holds exactly
/// these characters and they are digits.
fn field(v: &Vec<char>, at: usize, width: usize, group: &Option<String>) -> (number: Option<u32>)
    requires
        at + width <= v.len(),
        0 < width <= 4,
    ensures
        number is Some <==> group.deep_view() == Some(v@.subrange(at as int, at + width))
            && all_digits(v@.subrange(at as int, at + width)),
        number is Some ==> number.unwrap() == decimal(v@.subrange(at as int, at + width)),
{
    match group {
        None => None,
        Some(g) => {
            let piece = chars_of(g.as_str());
            if piece.len() == width && matches_at(v, at, &piece) {
                proof {
                    reveal_with_fuel(pow10, 5);
                    lemma_decimal_bound(piece@);
                    assert(piece@.subrange(0, width as int) == piece@);
                }
                parse_decimal(&piece, 0, width)
            } else {
                None
            }
        },
    }
}

/// Builds the timecode of `text` from the groups that a match of
/// [`TIMECODE_PATTERN`] captured in it. The groups are taken at their word
/// for nothing: the text is compared with them character by character.
pub fn timecode_from_groups(text: &str, groups: &Vec<Option<String>>) -> (r: Result<
    TimeCode,
    ParseError,
>)
    ensures
        match timecode_from(text@, groups.deep_view()) {
            Some(value) => r is Ok && r.unwrap()@ == value,
            None => r == Err::<TimeCode, ParseError>(ParseError::InvalidTimeCode),
        },
        r is Ok ==> r.unwrap().wf(),
{
    let v = chars_of(text);
    let n = v.len();
    if groups.len() < 6 || !(n == 9 || (12 <= n && n <= 14)) {
        return Err(ParseError::InvalidTimeCode);
    }
    let hours = if n == 9 {
        if groups[2].is_none() {
            Some(0)
        } else {
            None
        }
    } else if v[n - 10] == ':' {
        field(&v, 0, n - 10, &groups[2])
    } else {
        None
    };
    let minutes = field(&v, n - 9, 2, &groups[3]);
    let seconds = field(&v, n - 6, 2, &groups[4]);
    let millis = field(&v, n - 3, 3, &groups[5]);
    let stops = v[n - 7] == ':' && (v[n - 4] == '.' || v[n - 4] == ',');
    match (hours, minutes, seconds, millis) {
        (Some(hh), Some(mm), Some(ss), Some(ttt)) => {
            if stops && mm < 60 && ss < 60 {
                Ok(TimeCode { string: text.to_owned(), hh, mm, ss, ttt })
            } else {
                Err(ParseError::InvalidTimeCode)
            }
        },
        _ => Err(ParseError::InvalidTimeCode),
    }
}

/// Parses a timecode such as `00:01:14.815` or `01:14.815`.
pub fn parse_timecode(text: &str) -> (r: Result<TimeCode, ParseError>)
    ensures
        match parsed_timecode(text@) {
            Some(value) => r is Ok && r.unwrap()@ == value,
            None => r == Err::<TimeCode, ParseError>(ParseError::InvalidTimeCode),
        },
        r is Ok ==> r.unwrap().wf() && r.unwrap().string@ == text@,
        !is_timecode(text@) ==> r is Err,
{
    match captures(TIMECODE_PATTERN, text) {
        Some(groups) => timecode_from_groups(text, &groups),
        None => Err(ParseError::InvalidTimeCode),
    }
}

/// What can be turned into a [`TimeCode`].
pub trait TimeCodeTrait {
    /// Attempts the conversion.
    fn to_timecode(&self) -> Result<TimeCode, String>;
}

impl TimeCodeTrait for str {
    /// Parses the text as [`parse_timecode`] does; a text that is refused
    /// gives the words `invalid timecode`.
    fn to_timecode(&self) -> (r: Result<TimeCode, String>)
        ensures
            match parsed_timecode(self@) {
                Some(value) => r is Ok && r.unwrap()@ == value,
                None => r matches Err(words) && words@ == "invalid timecode"@,
            },
            r is Ok ==> r.unwrap().wf() && r.unwrap().string@ == self@,
            !is_timecode(self@) ==> r is Err,
    {
        match parse_timecode(self) {
            Ok(timecode) => Ok(timecode),
            Err(e) => Err(e.message()),
        }
    }
}

} // verus!
