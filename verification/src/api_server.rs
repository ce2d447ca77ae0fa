//! Routes of the API server: the methods of a request, and patterns over the
//! path of a request.
//!
//! A pattern is a path whose segments are literal (`tasks`), a parameter
//! (`{id}`), which stands for any one segment, or a wildcard (`{*rest}`),
//! which stands for all segments that remain.

use crate::error::IoErrorKind;
use crate::text::{chars_of, concat, pair_texts, scan_for, first_of, str_eq, texts};
use vstd::prelude::*;

verus! {

/// HTTP method.
#[derive(Debug, Clone, Copy, PartialEq, Eq, Hash, Structural)]
pub enum Method {
    GET,
    POST,
    PUT,
    DELETE,
    PATCH,
    OPTIONS,
    HEAD,
}

/// The upper case of a text. What `str::to_uppercase` returns.
pub uninterp spec fn uppercase(text: Seq<char>) -> Seq<char>;

/// Calls `str::to_uppercase`: the text with every character that has an
/// upper case replaced by it.
#[verifier::external_body]
fn to_uppercase(text: &str) -> (upper: String)
    ensures
        upper@ == uppercase(text@),
{
    text.to_uppercase()
}

impl Method {
    /// The name of the method.
    pub open spec fn name(self) -> Seq<char> {
        match self {
            Method::GET => "GET"@,
            Method::POST => "POST"@,
            Method::PUT => "PUT"@,
            Method::DELETE => "DELETE"@,
            Method::PATCH => "PATCH"@,
            Method::OPTIONS => "OPTIONS"@,
            Method::HEAD => "HEAD"@,
        }
    }

    /// The method with the given name, in upper case.
    pub open spec fn named(name: Seq<char>) -> Option<Method> {
        if name == "GET"@ {
            Some(Method::GET)
        } else if name == "POST"@ {
            Some(Method::POST)
        } else if name == "PUT"@ {
            Some(Method::PUT)
        } else if name == "DELETE"@ {
            Some(Method::DELETE)
        } else if name == "PATCH"@ {
            Some(Method::PATCH)
        } else if name == "OPTIONS"@ {
            Some(Method::OPTIONS)
        } else if name == "HEAD"@ {
            Some(Method::HEAD)
        } else {
            None
        }
    }

    /// Parse method from string: the method whose name is the upper case of
    /// the string.
    pub fn parse(s: &str) -> (r: Option<Self>)
        ensures
            r == Method::named(uppercase(s@)),
    {
        let upper = to_uppercase(s);
        let name = upper.as_str();
        if str_eq(name, "GET") {
            Some(Method::GET)
        } else if str_eq(name, "POST") {
            Some(Method::POST)
        } else if str_eq(name, "PUT") {
            Some(Method::PUT)
        } else if str_eq(name, "DELETE") {
            Some(Method::DELETE)
        } else if str_eq(name, "PATCH") {
            Some(Method::PATCH)
        } else if str_eq(name, "OPTIONS") {
            Some(Method::OPTIONS)
        } else if str_eq(name, "HEAD") {
            Some(Method::HEAD)
        } else {
            None
        }
    }

    /// Convert to string.
    pub fn as_str(&self) -> (s: &'static str)
        ensures
            s@ == self.name(),
    {
        match self {
            Method::GET => "GET",
            Method::POST => "POST",
            Method::PUT => "PUT",
            Method::DELETE => "DELETE",
            Method::PATCH => "PATCH",
            Method::OPTIONS => "OPTIONS",
            Method::HEAD => "HEAD",
        }
    }
}

/// Why a request could not be read.
#[derive(Debug)]
pub enum ParseError {
    /// The first line is not a method, a path and a version.
    InvalidRequestLine,
    /// The method is not known.
    InvalidMethod,
    /// The request could not be read to its end.
    IoError(IoErrorKind),
}

impl ParseError {
    /// The text that presents the error to a reader.
    pub open spec fn message_text(self) -> Seq<char> {
        match self {
            ParseError::InvalidRequestLine => "Invalid request line"@,
            ParseError::InvalidMethod => "Invalid HTTP method"@,
            ParseError::IoError(kind) => "IO error: "@ + kind.text(),
        }
    }

    /// The text that presents the error to a reader.
    pub fn message(&self) -> (s: String)
        ensures
            s@ == self.message_text(),
    {
        match self {
            ParseError::InvalidRequestLine => String::from_str("Invalid request line"),
            ParseError::InvalidMethod => String::from_str("Invalid HTTP method"),
            ParseError::IoError(kind) => concat("IO error: ", kind.describe()),
        }
    }
}

/// The segments of a path: the stretches between its slashes that are not
/// empty.
pub open spec fn path_segments(path: Seq<char>) -> Seq<Seq<char>>
    decreases path.len(),
{
    if path.len() == 0 {
        Seq::empty()
    } else {
        let k = first_of(path, '/');
        let rest = if 0 <= k < path.len() {
            path_segments(path.skip(k + 1))
        } else {
            Seq::empty()
        };
        if k > 0 {
            seq![path.take(k)] + rest
        } else {
            rest
        }
    }
}

/// The text of a list of segments, with a slash between two of them.
pub open spec fn join_segments(segments: Seq<Seq<char>>) -> Seq<char>
    decreases segments.len(),
{
    if segments.len() == 0 {
        Seq::empty()
    } else if segments.len() == 1 {
        segments[0]
    } else {
        join_segments(segments.drop_last()) + "/"@ + segments.last()
    }
}

/// The mathematical model of a segment of a pattern.
pub enum SegmentView {
    /// A literal segment.
    Static(Seq<char>),
    /// A parameter with a name.
    Param(Seq<char>),
    /// A wildcard with a name.
    Wildcard(Seq<char>),
}

/// Path segment for pattern matching.
#[derive(Debug)]
pub enum PathSegment {
    /// Static path segment.
    Static(String),
    /// Parameter path segment `{name}`.
    Param(String),
    /// Wildcard `{*rest}`.
    Wildcard(String),
}

impl View for PathSegment {
    type V = SegmentView;

    open spec fn view(&self) -> SegmentView {
        match self {
            PathSegment::Static(text) => SegmentView::Static(text@),
            PathSegment::Param(name) => SegmentView::Param(name@),
            PathSegment::Wildcard(name) => SegmentView::Wildcard(name@),
        }
    }
}

/// The segment of a pattern that a segment of its text stands for: a
/// wildcard where it is `{*` name `}`, a parameter where it is `{` name `}`,
/// and a literal otherwise.
pub open spec fn segment_of(text: Seq<char>) -> SegmentView {
    if text.len() >= 2 && text[0] == '{' && text[1] == '*' && text.last() == '}' {
        SegmentView::Wildcard(text.subrange(2, text.len() - 1))
    } else if text.len() >= 1 && text[0] == '{' && text.last() == '}' {
        SegmentView::Param(text.subrange(1, text.len() - 1))
    } else {
        SegmentView::Static(text)
    }
}

/// The parameters with which a path of the given segments matches a
/// pattern, in the order of the pattern; `None` where it does not match. A
/// wildcard takes all segments that remain, and what follows it in the
/// pattern does not count.
pub open spec fn match_segments(pattern: Seq<SegmentView>, path: Seq<Seq<char>>) -> Option<
    Seq<(Seq<char>, Seq<char>)>,
>
    decreases pattern.len(),
{
    if pattern.len() == 0 {
        if path.len() == 0 {
            Some(Seq::empty())
        } else {
            None
        }
    } else {
        match pattern[0] {
            SegmentView::Static(text) => if path.len() > 0 && path[0] == text {
                match_segments(pattern.drop_first(), path.drop_first())
            } else {
                None
            },
            SegmentView::Param(name) => if path.len() > 0 {
                match match_segments(pattern.drop_first(), path.drop_first()) {
                    Some(rest) => Some(seq![(name, path[0])] + rest),
                    None => None,
                }
            } else {
                None
            },
            SegmentView::Wildcard(name) => Some(seq![(name, join_segments(path))]),
        }
    }
}

/// The views of a list of segments.
pub open spec fn segment_views(segments: Seq<PathSegment>) -> Seq<SegmentView> {
    segments.map_values(|segment: PathSegment| segment@)
}

/// The segments of a path.
pub fn split_path(path: &str) -> (segments: Vec<String>)
    ensures
        texts(segments@) == path_segments(path@),
{
    let chars = chars_of(path);
    let mut segments: Vec<String> = Vec::new();
    let mut i: usize = 0;
    proof {
        assert(path@.skip(0) =~= path@);
        assert(texts(segments@) =~= Seq::empty());
    }
    loop
        invariant
            chars@ == path@,
            i <= path@.len(),
            path_segments(path@) == texts(segments@) + path_segments(path@.skip(i as int)),
        decreases path@.len() - i,
    {
        if i >= chars.len() {
            proof {
                assert(path@.skip(i as int).len() == 0);
                assert(texts(segments@) + Seq::<Seq<char>>::empty() =~= texts(segments@));
            }
            return segments;
        }
        let k = scan_for(&chars, i, '/');
        let ghost here = path@.skip(i as int);
        let ghost before = texts(segments@);
        proof {
            assert(here.take(k - i) =~= path@.subrange(i as int, k as int));
            if k < chars.len() {
                assert(here.skip(k - i + 1) =~= path@.skip(k + 1));
            }
        }
        if k > i {
            segments.push(String::from_str(path.substring_char(i, k)));
            proof {
                assert(texts(segments@) =~= before.push(path@.subrange(i as int, k as int)));
            }
        }
        if k >= chars.len() {
            proof {
                if k > i {
                    assert(before + (seq![here.take(k - i)] + Seq::<Seq<char>>::empty())
                        =~= texts(segments@));
                } else {
                    assert(before + Seq::<Seq<char>>::empty() =~= texts(segments@));
                }
            }
            return segments;
        }
        proof {
            if k > i {
                assert(before + (seq![here.take(k - i)] + path_segments(path@.skip(k + 1)))
                    =~= texts(segments@) + path_segments(path@.skip(k + 1)));
            }
        }
        i = k + 1;
    }
}

/// The segment of a pattern that `text` stands for.
fn read_segment(text: &str) -> (segment: PathSegment)
    ensures
        segment@ == segment_of(text@),
{
    let chars = chars_of(text);
    let n = chars.len();
    if n >= 2 && chars[0] == '{' && chars[1] == '*' && chars[n - 1] == '}' {
        PathSegment::Wildcard(String::from_str(text.substring_char(2, n - 1)))
    } else if n >= 1 && chars[0] == '{' && chars[n - 1] == '}' {
        PathSegment::Param(String::from_str(text.substring_char(1, n - 1)))
    } else {
        PathSegment::Static(String::from_str(text))
    }
}

/// The text of the segments from index `from` on, with a slash between two
/// of them.
fn join_from(segments: &Vec<String>, from: usize) -> (text: String)
    requires
        from <= segments@.len(),
    ensures
        text@ == join_segments(texts(segments@).skip(from as int)),
{
    let mut text = String::new();
    let mut i: usize = from;
    let ghost all = texts(segments@);
    assert(all.subrange(from as int, from as int) =~= Seq::empty());
    while i < segments.len()
        invariant
            from <= i <= segments@.len(),
            all == texts(segments@),
            text@ == join_segments(all.subrange(from as int, i as int)),
        decreases segments@.len() - i,
    {
        let ghost longer = all.subrange(from as int, i + 1);
        proof {
            assert(longer.drop_last() =~= all.subrange(from as int, i as int));
            assert(longer.last() == segments@[i as int]@);
        }
        if i > from {
            text.append("/");
        }
        text.append(segments[i].as_str());
        proof {
            if i == from {
                assert(text@ =~= segments@[i as int]@);
            }
        }
        i += 1;
    }
    assert(all.subrange(from as int, i as int) =~= all.skip(from as int));
    text
}

/// Path pattern for route matching.
#[derive(Debug)]
pub struct PathPattern {
    segments: Vec<PathSegment>,
    text: String,
}

impl PathPattern {
    /// The segments of the pattern.
    pub closed spec fn parts(&self) -> Seq<SegmentView> {
        segment_views(self.segments@)
    }

    /// The text that the pattern was read from.
    pub closed spec fn source(&self) -> Seq<char> {
        self.text@
    }

    /// Parse a path pattern.
    pub fn parse(pattern: &str) -> (p: Self)
        ensures
            p.source() == pattern@,
            p.parts() == path_segments(pattern@).map_values(|text: Seq<char>| segment_of(text)),
    {
        let names = split_path(pattern);
        let mut segments: Vec<PathSegment> = Vec::new();
        let mut i: usize = 0;
        let ghost reading = |text: Seq<char>| segment_of(text);
        while i < names.len()
            invariant
                i <= names@.len(),
                texts(names@) == path_segments(pattern@),
                reading == |text: Seq<char>| segment_of(text),
                segment_views(segments@) == texts(names@).take(i as int).map_values(reading),
            decreases names@.len() - i,
        {
            let ghost before = segments@;
            segments.push(read_segment(names[i].as_str()));
            proof {
                let shorter = texts(names@).take(i as int);
                let longer = texts(names@).take(i + 1);
                assert(segment_views(segments@) =~= segment_views(before).push(
                    segment_of(names@[i as int]@),
                ));
                assert(longer =~= shorter.push(names@[i as int]@));
                assert(reading(names@[i as int]@) == segment_of(names@[i as int]@));
                assert(longer.map_values(reading) =~= shorter.map_values(reading).push(
                    reading(names@[i as int]@),
                ));
            }
            i += 1;
        }
        assert(texts(names@).take(i as int) =~= texts(names@));
        PathPattern { segments, text: String::from_str(pattern) }
    }

    /// Match a path against this pattern: the parameters of the match, in
    /// the order of the pattern.
    pub fn matches(&self, path: &str) -> (r: Option<Vec<(String, String)>>)
        ensures
            match r {
                Some(params) => match_segments(self.parts(), path_segments(path@)) == Some(
                    pair_texts(params@),
                ),
                None => match_segments(self.parts(), path_segments(path@)) is None,
            },
    {
        let found = split_path(path);
        let mut params: Vec<(String, String)> = Vec::new();
        let ghost pattern = self.parts();
        let ghost given = path_segments(path@);
        let mut i: usize = 0;
        proof {
            assert(pattern.skip(0) =~= pattern);
            assert(given.skip(0) =~= given);
            assert(pair_texts(params@) =~= Seq::empty());
        }
        while i < self.segments.len()
            invariant
                i <= self.segments@.len(),
                pattern == self.parts(),
                given == path_segments(path@),
                given == texts(found@),
                match_segments(pattern, given) == match match_segments(
                    pattern.skip(i as int),
                    given.skip(i as int),
                ) {
                    Some(rest) => Some(pair_texts(params@) + rest),
                    None => None,
                },
                i <= given.len() || match_segments(pattern.skip(i as int), given.skip(i as int))
                    is None,
                i <= found@.len(),
            decreases self.segments@.len() - i,
        {
            let ghost ahead = pattern.skip(i as int);
            let ghost left = given.skip(i as int);
            let ghost before = pair_texts(params@);
            proof {
                assert(ahead[0] == self.segments@[i as int]@);
                assert(ahead.drop_first() =~= pattern.skip(i + 1));
                if i < found@.len() {
                    assert(left[0] == found@[i as int]@);
                    assert(left.drop_first() =~= given.skip(i + 1));
                }
            }
            match &self.segments[i] {
                PathSegment::Static(text) => {
                    if i >= found.len() || !str_eq(found[i].as_str(), text.as_str()) {
                        return None;
                    }
                },
                PathSegment::Param(name) => {
                    if i >= found.len() {
                        return None;
                    }
                    params.push((name.clone(), found[i].clone()));
                    proof {
                        assert(pair_texts(params@) =~= before.push((name@, found@[i as int]@)));
                        assert forall|rest: Seq<(Seq<char>, Seq<char>)>|
                            before + (seq![(name@, found@[i as int]@)] + rest)
                                == pair_texts(params@) + rest by {
                            assert(before + (seq![(name@, found@[i as int]@)] + rest)
                                =~= pair_texts(params@) + rest);
                        }
                    }
                },
                PathSegment::Wildcard(name) => {
                    let rest = join_from(&found, i);
                    params.push((name.clone(), rest));
                    proof {
                        assert(pair_texts(params@) =~= before + seq![
                            (name@, join_segments(left)),
                        ]);
                    }
                    return Some(params);
                },
            }
            i += 1;
        }
        proof {
            assert(pattern.skip(i as int).len() == 0);
            if i == found@.len() {
                assert(given.skip(i as int).len() == 0);
                assert(pair_texts(params@) + Seq::<(Seq<char>, Seq<char>)>::empty()
                    =~= pair_texts(params@));
            } else {
                assert(given.skip(i as int).len() > 0);
            }
        }
        if i == found.len() {
            Some(params)
        } else {
            None
        }
    }
}

} // verus!
