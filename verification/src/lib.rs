//! Parser for SRT and WebVTT cues.
//!
//! A cue is one entry of a subtitle file: the time at which it appears, the
//! time at which it disappears, and its text.
//!
//! ```text
//! 14
//! 00:01:14.815 --> 00:01:18.114
//! - This line belongs to a subtitle cue.
//! - This line is also a member of the same cue.
//! ```

pub mod error;
pub mod lines;
pub mod pattern;
pub mod sanitize;
pub mod text;
pub mod timecode;

use crate::error::ParseError;
use crate::lines::{join_lines, joined, split, split_lines, trim, trimmed};
use crate::pattern::{captures, regex_captures};
use crate::sanitize::{sanitize_text, sanitized};
use crate::text::{chars_of, matches_at, occurs_at, string_of};
use crate::timecode::{
    is_timecode, parse_timecode, parsed_timecode, timecode_value, TimeCode, TimeCodeView,
};
use vstd::prelude::*;

verus! {

/// The pattern of a cue: a line before the timing line, which may be left
/// out; the timing line, made of two timecodes with ` --> ` between them and,
/// after a space, settings that are not read; and one or more lines of text.
/// Groups 3 and 4 hold the two timecodes, group 6 the lines of text.
pub const CUE_PATTERN: &'static str =
    "(.+\\n)?(([0-9:\\.,]{9,}) --> ([0-9:\\.,]{9,})( .*)?)((\\n.*)+)";

/// The pattern of what makes a line a timing line: two runs of nine or more
/// digits, colons, full stops and commas, with ` --> ` between them.
pub const TIMING_PATTERN: &'static str = "[0-9:\\.,]{9,} --> [0-9:\\.,]{9,}";

/// What stands between the two timecodes of a timing line.
pub const ARROW: &'static str = " --> ";

/// One cue of a subtitle file.
pub struct Cue {
    /// when the cue appears
    pub start: TimeCode,
    /// when the cue disappears
    pub end: TimeCode,
    /// the text to show
    pub text: String,
}

/// A cue as mathematics sees it.
pub struct CueView {
    /// when the cue appears
    pub start: TimeCodeView,
    /// when the cue disappears
    pub end: TimeCodeView,
    /// the text to show
    pub text: Seq<char>,
}

impl View for Cue {
    type V = CueView;

    open spec fn view(&self) -> CueView {
        CueView { start: self.start@, end: self.end@, text: self.text@ }
    }
}

impl Cue {
    /// Whether both timecodes are what their own texts write.
    pub open spec fn wf(&self) -> bool {
        self.start.wf() && self.end.wf()
    }
}

/// The text of a cue, as made from the lines `raw` that follow the timing
/// line: white space at both ends is dropped, then each line is sanitized by
/// itself, and the lines stay in their order.
pub open spec fn cleaned(raw: Seq<char>) -> Seq<char> {
    joined(split(trimmed(raw), '\n').map_values(|line: Seq<char>| sanitized(line)), '\n')
}

/// Whether `s` can follow the second timecode on its line: nothing, or a
/// space and whatever else the line holds.
pub open spec fn is_settings(s: Seq<char>) -> bool {
    s.len() == 0 || (s[0] == ' ' && !s.contains('\n'))
}

/// Whether `s` can follow the timing line: a line feed and whatever lines
/// come after it.
pub open spec fn is_body(s: Seq<char>) -> bool {
    s.len() > 0 && s[0] == '\n'
}

/// A timing line and what follows it, put together from its parts.
pub open spec fn timing_tail(
    start: Seq<char>,
    end: Seq<char>,
    settings: Seq<char>,
    body: Seq<char>,
) -> Seq<char> {
    start + ARROW@ + end + settings + body
}

/// A block taken apart: what stands before the timing, the two timecodes,
/// the settings behind them and the lines that follow.
pub struct Layout {
    /// what stands before the timing: nothing, a line that names the cue, or more
    pub head: Seq<char>,
    /// the first timecode
    pub start: Seq<char>,
    /// the second timecode
    pub end: Seq<char>,
    /// what follows the second timecode on its line
    pub settings: Seq<char>,
    /// the lines after the timing line, each with the line feed before it
    pub body: Seq<char>,
}

/// Whether the parts of `layout` are those of `block`, in order and with
/// nothing left over, the two timecodes being timecodes.
pub open spec fn lays_out(layout: Layout, block: Seq<char>) -> bool {
    &&& block == layout.head + timing_tail(
        layout.start,
        layout.end,
        layout.settings,
        layout.body,
    )
    &&& is_timecode(layout.start)
    &&& is_timecode(layout.end)
    &&& is_settings(layout.settings)
    &&& is_body(layout.body)
}

/// Whether `block` holds a timing: two timecodes with the arrow between
/// them, then settings up to the end of the line, then at least one more
/// line.
pub open spec fn holds_timing(block: Seq<char>) -> bool {
    exists|layout: Layout| lays_out(layout, block)
}

/// Whether `cue` is a cue that `block` writes: the block can be taken apart
/// so that the cue has the two timecodes and the cleaned lines.
pub open spec fn writes(block: Seq<char>, cue: CueView) -> bool {
    exists|layout: Layout|
        {
            &&& #[trigger] lays_out(layout, block)
            &&& cue.start == timecode_value(layout.start)
            &&& cue.end == timecode_value(layout.end)
            &&& cue.text == cleaned(layout.body)
        }
}

/// Whether `s` ends with `tail`.
pub open spec fn ends_with(s: Seq<char>, tail: Seq<char>) -> bool {
    occurs_at(s, s.len() - tail.len(), tail)
}

/// The settings that group 5 of a match holds: none where it took no part.
pub open spec fn settings_of(group: Option<Seq<char>>) -> Seq<char> {
    match group {
        Some(settings) => settings,
        None => Seq::empty(),
    }
}

/// Whether the groups of a match hold the parts of `block`: the timecodes in
/// groups 3 and 4, the settings in group 5, the lines that follow in group
/// 6, and the block ends with them.
pub open spec fn timing_captured(block: Seq<char>, groups: Seq<Option<Seq<char>>>) -> bool {
    &&& groups.len() > 6
    &&& groups[3] is Some
    &&& groups[4] is Some
    &&& groups[6] is Some
    &&& is_settings(settings_of(groups[5]))
    &&& is_body(groups[6].unwrap())
    &&& ends_with(
        block,
        timing_tail(
            groups[3].unwrap(),
            groups[4].unwrap(),
            settings_of(groups[5]),
            groups[6].unwrap(),
        ),
    )
}

/// The two timecodes that groups 3 and 4 of a match write, where both
/// groups took part and both parse.
pub open spec fn timecodes_from(groups: Seq<Option<Seq<char>>>) -> Option<
    (TimeCodeView, TimeCodeView),
> {
    if groups.len() > 4 && groups[3] is Some && groups[4] is Some && parsed_timecode(
        groups[3].unwrap(),
    ) is Some && parsed_timecode(groups[4].unwrap()) is Some {
        Some(
            (
                parsed_timecode(groups[3].unwrap()).unwrap(),
                parsed_timecode(groups[4].unwrap()).unwrap(),
            ),
        )
    } else {
        None
    }
}

/// What stands in `block` before the timing that the groups hold.
pub open spec fn head_of(block: Seq<char>, groups: Seq<Option<Seq<char>>>) -> Seq<char> {
    block.take(
        block.len() - timing_tail(
            groups[3].unwrap(),
            groups[4].unwrap(),
            settings_of(groups[5]),
            groups[6].unwrap(),
        ).len(),
    )
}

/// Whether the timing that the groups hold is the only one of `block`: the
/// search for [`TIMING_PATTERN`] finds nothing before it, and nothing in the
/// lines after it.
pub open spec fn timing_alone(block: Seq<char>, groups: Seq<Option<Seq<char>>>) -> bool {
    &&& regex_captures(TIMING_PATTERN@, head_of(block, groups)) is None
    &&& regex_captures(TIMING_PATTERN@, groups[6].unwrap()) is None
}

/// The cue that a block and the groups of its match give: the timecodes of
/// groups 3 and 4 and the cleaned text of group 6, where the groups hold
/// the parts of the block, the block has no other timing, and both
/// timecodes parse.
pub open spec fn cue_from(block: Seq<char>, groups: Seq<Option<Seq<char>>>) -> Option<CueView> {
    if timing_captured(block, groups) && timing_alone(block, groups) && timecodes_from(groups)
        is Some {
        Some(
            CueView {
                start: timecodes_from(groups).unwrap().0,
                end: timecodes_from(groups).unwrap().1,
                text: cleaned(groups[6].unwrap()),
            },
        )
    } else {
        None
    }
}

/// What parsing the block `s` gives: the search for the pattern, then
/// [`cue_from`] on what it captured.
pub open spec fn parsed_cue(s: Seq<char>) -> Option<CueView> {
    match regex_captures(CUE_PATTERN@, s) {
        Some(groups) => cue_from(s, groups),
        None => None,
    }
}

/// A block that gives a cue writes that cue.
pub proof fn lemma_cue_written(block: Seq<char>, groups: Seq<Option<Seq<char>>>)
    requires
        cue_from(block, groups) is Some,
    ensures
        writes(block, cue_from(block, groups).unwrap()),
        holds_timing(block),
{
    let start = groups[3].unwrap();
    let end = groups[4].unwrap();
    let settings = settings_of(groups[5]);
    let body = groups[6].unwrap();
    let tail = timing_tail(start, end, settings, body);
    let head = block.take(block.len() - tail.len());
    let layout = Layout { head, start, end, settings, body };
    assert(block == head + tail);
    assert(lays_out(layout, block));
}

/// A block that holds no timing is refused, whatever the search hands back.
pub proof fn lemma_no_timing_refused(block: Seq<char>, groups: Seq<Option<Seq<char>>>)
    requires
        !holds_timing(block),
    ensures
        cue_from(block, groups) is None,
        parsed_cue(block) is None,
{
    if cue_from(block, groups) is Some {
        lemma_cue_written(block, groups);
    }
    if parsed_cue(block) is Some {
        lemma_cue_written(block, regex_captures(CUE_PATTERN@, block).unwrap());
    }
}

/// Reads the two timecodes of a timing line from the groups of its match.
pub fn generate_timecodes(groups: &Vec<Option<String>>) -> (r: Option<(TimeCode, TimeCode)>)
    ensures
        match timecodes_from(groups.deep_view()) {
            Some(both) => r is Some && r.unwrap().0@ == both.0 && r.unwrap().1@ == both.1,
            None => r is None,
        },
        r is Some ==> r.unwrap().0.wf() && r.unwrap().1.wf(),
{
    if groups.len() <= 4 {
        return None;
    }
    match (&groups[3], &groups[4]) {
        (Some(first), Some(second)) => {
            match (parse_timecode(first.as_str()), parse_timecode(second.as_str())) {
                (Ok(start), Ok(end)) => Some((start, end)),
                _ => None,
            }
        },
        _ => None,
    }
}

/// Makes the text of a cue from the lines that follow the timing line.
pub fn clean_text(raw: &str) -> (text: String)
    ensures
        text@ == cleaned(raw@),
{
    let body = trim(raw);
    let lines = split_lines(body.as_str());
    let mut clean: Vec<String> = Vec::new();
    let n = lines.len();
    let mut i: usize = 0;
    let ghost wanted = split(trimmed(raw@), '\n').map_values(|line: Seq<char>| sanitized(line));
    while i < n
        invariant
            i <= n == lines.len(),
            lines.deep_view() == split(trimmed(raw@), '\n'),
            wanted == split(trimmed(raw@), '\n').map_values(|line: Seq<char>| sanitized(line)),
            clean.deep_view() == wanted.take(i as int),
        decreases n - i,
    {
        let line = sanitize_text(lines[i].as_str());
        clean.push(line);
        proof {
            assert(wanted.take(i + 1) == wanted.take(i as int).push(wanted[i as int]));
        }
        i += 1;
    }
    proof {
        assert(wanted.take(n as int) == wanted);
    }
    join_lines(&clean)
}

/// Tells whether `c` stands somewhere in `v`.
fn holds_char(v: &Vec<char>, c: char) -> (found: bool)
    ensures
        found == v@.contains(c),
{
    let mut i: usize = 0;
    while i < v.len()
        invariant
            i <= v.len(),
            forall|j: int| 0 <= j < i ==> v@[j] != c,
        decreases v.len() - i,
    {
        if v[i] == c {
            return true;
        }
        i += 1;
    }
    false
}

/// What stands in `block` before the timing line made of these parts and the
/// lines that follow it; `None` where the block does not end with them, or
/// the settings or the lines are not of their shape.
fn head_before(block: &str, start: &str, end: &str, settings: &str, body: &str) -> (head: Option<
    String,
>)
    ensures
        head is Some <==> is_settings(settings@) && is_body(body@) && ends_with(
            block@,
            timing_tail(start@, end@, settings@, body@),
        ),
        head is Some ==> head.unwrap()@ == block@.take(
            block@.len() - timing_tail(start@, end@, settings@, body@).len(),
        ),
{
    let s = chars_of(settings);
    let b = chars_of(body);
    if !(s.len() == 0 || (s[0] == ' ' && !holds_char(&s, '\n'))) {
        return None;
    }
    if !(b.len() > 0 && b[0] == '\n') {
        return None;
    }
    let mut tail = String::new();
    tail.append(start);
    tail.append(ARROW);
    tail.append(end);
    tail.append(settings);
    tail.append(body);
    let t = chars_of(tail.as_str());
    let v = chars_of(block);
    if t.len() <= v.len() && matches_at(&v, v.len() - t.len(), &t) {
        Some(string_of(&v, 0, v.len() - t.len()))
    } else {
        None
    }
}

/// Builds the cue of `block` from the groups that a match of
/// [`CUE_PATTERN`] captured in it. The groups are taken at their word for
/// nothing: the block is compared with them, and each timecode is parsed. A
/// block with a second timing, before the one that the groups hold or after
/// it, is refused.
pub fn cue_from_groups(block: &str, groups: &Vec<Option<String>>) -> (r: Result<Cue, ParseError>)
    ensures
        match cue_from(block@, groups.deep_view()) {
            Some(value) => r is Ok && r.unwrap()@ == value,
            None => r == Err::<Cue, ParseError>(ParseError::MalformedCue),
        },
        r is Ok ==> r.unwrap().wf() && writes(block@, r.unwrap()@),
{
    if groups.len() <= 6 {
        return Err(ParseError::MalformedCue);
    }
    match (&groups[3], &groups[4], &groups[6]) {
        (Some(start), Some(end), Some(body)) => {
            let settings = match &groups[5] {
                Some(settings) => settings.as_str(),
                None => "",
            };
            proof {
                reveal_strlit("");
            }
            let head = match head_before(
                block,
                start.as_str(),
                end.as_str(),
                settings,
                body.as_str(),
            ) {
                Some(head) => head,
                None => {
                    return Err(ParseError::MalformedCue);
                },
            };
            if captures(TIMING_PATTERN, head.as_str()).is_some() || captures(
                TIMING_PATTERN,
                body.as_str(),
            ).is_some() {
                return Err(ParseError::MalformedCue);
            }
            match generate_timecodes(groups) {
                Some((start, end)) => {
                    let text = clean_text(body.as_str());
                    proof {
                        lemma_cue_written(block@, groups.deep_view());
                    }
                    Ok(Cue { start, end, text })
                },
                None => Err(ParseError::MalformedCue),
            }
        },
        _ => Err(ParseError::MalformedCue),
    }
}

/// Parses one block of a subtitle file: a line that names the cue, which may
/// be left out, the timing line, and the lines of text.
pub fn parse_cue(block: &str) -> (r: Result<Cue, ParseError>)
    ensures
        match parsed_cue(block@) {
            Some(value) => r is Ok && r.unwrap()@ == value,
            None => r == Err::<Cue, ParseError>(ParseError::MalformedCue),
        },
        r is Ok ==> r.unwrap().wf() && writes(block@, r.unwrap()@),
        !holds_timing(block@) ==> r is Err,
        regex_captures(CUE_PATTERN@, block@) is None ==> r is Err,
{
    match captures(CUE_PATTERN, block) {
        Some(groups) => cue_from_groups(block, &groups),
        None => Err(ParseError::MalformedCue),
    }
}

/// What can be turned into a [`Cue`].
pub trait CueTrait {
    /// Attempts the conversion.
    fn to_cue(&self) -> Result<Cue, String>;
}

impl CueTrait for str {
    /// Parses the block as [`parse_cue`] does; a block that is refused gives
    /// the words `not a valid cue`.
    fn to_cue(&self) -> (r: Result<Cue, String>)
        ensures
            match parsed_cue(self@) {
                Some(value) => r is Ok && r.unwrap()@ == value,
                None => r matches Err(words) && words@ == "not a valid cue"@,
            },
            r is Ok ==> r.unwrap().wf() && writes(self@, r.unwrap()@),
            !holds_timing(self@) ==> r is Err,
            regex_captures(CUE_PATTERN@, self@) is None ==> r is Err,
    {
        match parse_cue(self) {
            Ok(cue) => Ok(cue),
            Err(e) => Err(e.message()),
        }
    }
}

} // verus!
