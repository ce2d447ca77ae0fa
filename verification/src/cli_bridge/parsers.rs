//! Parsers for the common ways in which tools print their progress.

use crate::captures::{regex_capture, regex_compiles, regex_group, regex_new};
use crate::cli_bridge::{ProgressInfo, ProgressParser, ProgressView};
use crate::text::{as_slice, decimal_u64, parse_decimal, text_of, text_of_str};
use vstd::prelude::*;

verus! {

/// The pattern of a percentage: one to three digits before a percent sign.
pub const PERCENTAGE_PATTERN: &'static str = "(\\d{1,3})%";

/// The pattern of a fraction: digits, a slash, digits, with or without
/// blanks around the slash.
pub const FRACTION_PATTERN: &'static str = "(\\d+)\\s*/\\s*(\\d+)";

/// The pattern of a progress bar: a bar between square brackets, then a
/// percentage.
pub const PROGRESS_BAR_PATTERN: &'static str = "\\[([=\\-#>]+)\\s*\\]\\s*(\\d{1,3})%";

/// The progress that a captured percentage reports: that many of 100, and at
/// most 100 of them. None where nothing was captured or the capture is no
/// number that fits in 64 bits.
pub open spec fn percentage_reading(capture: Option<Seq<char>>) -> Option<ProgressView> {
    match capture {
        Some(digits) => match decimal_u64(digits) {
            Some(value) => Some(
                ProgressView {
                    current: if value > 100 {
                        100
                    } else {
                        value
                    },
                    total: 100,
                    message: None,
                },
            ),
            None => None,
        },
        None => None,
    }
}

/// The progress that a captured fraction reports: the numerator of the
/// denominator. None where either was not captured or is no number that fits
/// in 64 bits.
pub open spec fn fraction_reading(
    numerator: Option<Seq<char>>,
    denominator: Option<Seq<char>>,
) -> Option<ProgressView> {
    match (numerator, denominator) {
        (Some(first), Some(second)) => match (decimal_u64(first), decimal_u64(second)) {
            (Some(current), Some(total)) => Some(ProgressView { current, total, message: None }),
            _ => None,
        },
        _ => None,
    }
}

/// The view of an optional progress.
pub open spec fn reading(r: Option<ProgressInfo>) -> Option<ProgressView> {
    match r {
        Some(info) => Some(info@),
        None => None,
    }
}

/// Reads the progress from a captured percentage.
pub fn read_percentage(capture: Option<&str>) -> (r: Option<ProgressInfo>)
    ensures
        reading(r) == percentage_reading(text_of_str(capture)),
{
    match capture {
        Some(digits) => match parse_decimal(digits) {
            Some(value) => Some(
                ProgressInfo::new(
                    if value > 100 {
                        100
                    } else {
                        value
                    },
                    100,
                ),
            ),
            None => None,
        },
        None => None,
    }
}

/// Reads the progress from a captured fraction.
pub fn read_fraction(numerator: Option<&str>, denominator: Option<&str>) -> (r: Option<
    ProgressInfo,
>)
    ensures
        reading(r) == fraction_reading(text_of_str(numerator), text_of_str(denominator)),
{
    let current = match numerator {
        Some(digits) => match parse_decimal(digits) {
            Some(value) => value,
            None => {
                return None;
            },
        },
        None => {
            return None;
        },
    };
    match denominator {
        Some(digits) => match parse_decimal(digits) {
            Some(total) => Some(ProgressInfo::new(current, total)),
            None => None,
        },
        None => None,
    }
}

/// The text of capture group `group` in the first match of `pattern` in
/// `line`; `None` also where the pattern does not compile.
fn capture(pattern: &str, line: &str, group: usize) -> (r: Option<String>)
    ensures
        text_of(r) == if regex_compiles(pattern@) {
            regex_group(pattern@, line@, group as nat)
        } else {
            None
        },
{
    match regex_new(pattern) {
        Some(re) => regex_capture(&re, line, group),
        None => None,
    }
}

/// Parser for percentage progress (e.g., "50%", "Progress: 75%").
#[derive(Debug, Clone, Copy)]
pub struct PercentageParser;

impl ProgressParser for PercentageParser {
    open spec fn reads(&self, line: Seq<char>) -> Option<ProgressView> {
        if regex_compiles(PERCENTAGE_PATTERN@) {
            percentage_reading(regex_group(PERCENTAGE_PATTERN@, line, 1))
        } else {
            None
        }
    }

    fn parse(&self, line: &str) -> (r: Option<ProgressInfo>) {
        let digits = capture(PERCENTAGE_PATTERN, line, 1);
        read_percentage(as_slice(&digits))
    }
}

/// Parser for fraction progress (e.g., "5/10", "[3/4]").
#[derive(Debug, Clone, Copy)]
pub struct FractionParser;

impl ProgressParser for FractionParser {
    open spec fn reads(&self, line: Seq<char>) -> Option<ProgressView> {
        if regex_compiles(FRACTION_PATTERN@) {
            fraction_reading(
                regex_group(FRACTION_PATTERN@, line, 1),
                regex_group(FRACTION_PATTERN@, line, 2),
            )
        } else {
            None
        }
    }

    fn parse(&self, line: &str) -> (r: Option<ProgressInfo>) {
        let numerator = capture(FRACTION_PATTERN, line, 1);
        let denominator = capture(FRACTION_PATTERN, line, 2);
        read_fraction(as_slice(&numerator), as_slice(&denominator))
    }
}

/// Parser for progress bar style (e.g., "[=====>    ] 50%").
#[derive(Debug, Clone, Copy)]
pub struct ProgressBarParser;

impl ProgressParser for ProgressBarParser {
    open spec fn reads(&self, line: Seq<char>) -> Option<ProgressView> {
        if regex_compiles(PROGRESS_BAR_PATTERN@) {
            percentage_reading(regex_group(PROGRESS_BAR_PATTERN@, line, 2))
        } else {
            None
        }
    }

    fn parse(&self, line: &str) -> (r: Option<ProgressInfo>) {
        let digits = capture(PROGRESS_BAR_PATTERN, line, 2);
        read_percentage(as_slice(&digits))
    }
}

/// One of the parsers of this module.
#[derive(Debug, Clone, Copy, PartialEq, Eq, Structural)]
pub enum ParserKind {
    /// The parser for percentages.
    Percentage,
    /// The parser for fractions.
    Fraction,
    /// The parser for progress bars.
    ProgressBar,
}

impl ProgressParser for ParserKind {
    open spec fn reads(&self, line: Seq<char>) -> Option<ProgressView> {
        match self {
            ParserKind::Percentage => PercentageParser.reads(line),
            ParserKind::Fraction => FractionParser.reads(line),
            ParserKind::ProgressBar => ProgressBarParser.reads(line),
        }
    }

    fn parse(&self, line: &str) -> (r: Option<ProgressInfo>) {
        match self {
            ParserKind::Percentage => PercentageParser.parse(line),
            ParserKind::Fraction => FractionParser.parse(line),
            ParserKind::ProgressBar => ProgressBarParser.parse(line),
        }
    }
}

/// The parsers that a composite can hold.
pub trait BuiltinParser: ProgressParser {
    /// Which of the parsers of this module this one is.
    fn kind(&self) -> (k: ParserKind)
        ensures
            forall|line: Seq<char>| #[trigger] k.reads(line) == self.reads(line),
    ;
}

impl BuiltinParser for PercentageParser {
    fn kind(&self) -> (k: ParserKind) {
        ParserKind::Percentage
    }
}

impl BuiltinParser for FractionParser {
    fn kind(&self) -> (k: ParserKind) {
        ParserKind::Fraction
    }
}

impl BuiltinParser for ProgressBarParser {
    fn kind(&self) -> (k: ParserKind) {
        ParserKind::ProgressBar
    }
}

impl BuiltinParser for ParserKind {
    fn kind(&self) -> (k: ParserKind) {
        *self
    }
}

/// The index of the first of `parsers` that reads progress from `line`, or
/// their number where none does.
pub open spec fn first_reader(parsers: Seq<ParserKind>, line: Seq<char>) -> int
    decreases parsers.len(),
{
    if parsers.len() == 0 {
        0
    } else if parsers[0].reads(line) is Some {
        0
    } else {
        1 + first_reader(parsers.drop_first(), line)
    }
}

/// The first reader is where a scan from the front finds it.
proof fn lemma_first_reader_is(parsers: Seq<ParserKind>, line: Seq<char>, k: int)
    requires
        0 <= k <= parsers.len(),
        forall|j: int| 0 <= j < k ==> (#[trigger] parsers[j]).reads(line) is None,
        k < parsers.len() ==> parsers[k].reads(line) is Some,
    ensures
        first_reader(parsers, line) == k,
    decreases parsers.len(),
{
    if parsers.len() > 0 && k > 0 {
        assert(parsers[0].reads(line) is None);
        let tail = parsers.drop_first();
        assert forall|j: int| 0 <= j < k - 1 implies (#[trigger] tail[j]).reads(line) is None by {
            assert(tail[j] == parsers[j + 1]);
        }
        lemma_first_reader_is(tail, line, k - 1);
    }
}

/// Composite parser that tries several parsers in order: the first that
/// reads progress from a line gives the result.
#[derive(Debug)]
pub struct CompositeParser {
    parsers: Vec<ParserKind>,
}

impl CompositeParser {
    /// The parsers of the composite, in the order in which they are asked.
    pub closed spec fn readers(&self) -> Seq<ParserKind> {
        self.parsers@
    }

    /// Create a new composite parser, without parsers.
    pub fn new() -> (c: Self)
        ensures
            c.readers() == Seq::<ParserKind>::empty(),
    {
        CompositeParser { parsers: Vec::new() }
    }

    /// Add a parser, to be asked after those that are there.
    pub fn add<P: BuiltinParser>(self, parser: P) -> (c: Self)
        ensures
            c.readers().len() == self.readers().len() + 1,
            c.readers().drop_last() == self.readers(),
            forall|line: Seq<char>| #[trigger] c.readers().last().reads(line) == parser.reads(line),
    {
        let mut parsers = self.parsers;
        parsers.push(parser.kind());
        let c = CompositeParser { parsers };
        assert(c.readers().drop_last() =~= self.readers());
        c
    }

    /// Create a composite parser with the three parsers of this module: the
    /// percentage, then the fraction, then the progress bar.
    pub fn default_all() -> (c: Self)
        ensures
            c.readers() == seq![
                ParserKind::Percentage,
                ParserKind::Fraction,
                ParserKind::ProgressBar,
            ],
    {
        let mut parsers: Vec<ParserKind> = Vec::new();
        parsers.push(ParserKind::Percentage);
        parsers.push(ParserKind::Fraction);
        parsers.push(ParserKind::ProgressBar);
        let c = CompositeParser { parsers };
        assert(c.readers() =~= seq![
            ParserKind::Percentage,
            ParserKind::Fraction,
            ParserKind::ProgressBar,
        ]);
        c
    }
}

impl Default for CompositeParser {
    fn default() -> (c: Self)
        ensures
            c.readers() == Seq::<ParserKind>::empty(),
    {
        CompositeParser::new()
    }
}

impl ProgressParser for CompositeParser {
    open spec fn reads(&self, line: Seq<char>) -> Option<ProgressView> {
        let k = first_reader(self.readers(), line);
        if k < self.readers().len() {
            self.readers()[k].reads(line)
        } else {
            None
        }
    }

    fn parse(&self, line: &str) -> (r: Option<ProgressInfo>) {
        let mut i: usize = 0;
        while i < self.parsers.len()
            invariant
                i <= self.parsers@.len(),
                forall|j: int| 0 <= j < i ==> (#[trigger] self.parsers@[j]).reads(line@) is None,
            decreases self.parsers@.len() - i,
        {
            match self.parsers[i].parse(line) {
                Some(info) => {
                    proof {
                        lemma_first_reader_is(self.parsers@, line@, i as int);
                    }
                    return Some(info);
                },
                None => {},
            }
            i += 1;
        }
        proof {
            lemma_first_reader_is(self.parsers@, line@, i as int);
        }
        None
    }
}

} // verus!
