//! The kind of a feedback question and its text form: `"text"`, or
//! `"intrange[x..y]"` for an answer between the bounds `x` and `y`.

use vstd::prelude::*;
use crate::decimal::{
    decimal, lemma_decimal, lemma_parse_decimal, parse_usize, spec_int_error_message,
    spec_parse_usize, usize_to_decimal, IntErrorKind,
};
use crate::text::str_equal;

verus! {

/// `regex::Regex`, a compiled regular expression of the regex crate, declared
/// so that a library type can hold one; Verus sees nothing inside it.
#[verifier::external_type_specification]
#[verifier::external_body]
pub struct ExRegex(regex::Regex);

/// Whether `regex::Regex::new` accepts `pattern`.
pub uninterp spec fn regex_compiles(pattern: Seq<char>) -> bool;

/// What `regex::Regex::captures` finds in `haystack` for the regex compiled from
/// `pattern`: `None` when nothing matches, else the text of each capture group,
/// group 0 (the whole match) first, `None` for a group that took no part in the match.
pub uninterp spec fn regex_captures(pattern: Seq<char>, haystack: Seq<char>) -> Option<
    Seq<Option<Seq<char>>>,
>;

/// A compiled regular expression, together with the pattern it was compiled from.
pub struct CompiledRegex {
    regex: regex::Regex,
    pattern: Ghost<Seq<char>>,
}

/// The text of each capture group, as plain character sequences.
pub open spec fn captures_view(r: Option<Vec<Option<String>>>) -> Option<Seq<Option<Seq<char>>>> {
    match r {
        None => None,
        Some(groups) => Some(
            groups@.map_values(
                |g: Option<String>|
                    match g {
                        None => None,
                        Some(s) => Some(s@),
                    },
            ),
        ),
    }
}

impl CompiledRegex {
    pub closed spec fn pattern(&self) -> Seq<char> {
        self.pattern@
    }

    /// Compiles `pattern` with `regex::Regex::new`.
    ///
    /// Claimed of regex: the result is `Some` exactly when the crate accepts the
    /// pattern (`regex_compiles`), and it keeps the pattern it was built from.
    #[verifier::external_body]
    pub(crate) fn new(pattern: &str) -> (r: Option<CompiledRegex>)
        ensures
            r is Some <==> regex_compiles(pattern@),
            r matches Some(c) ==> c.pattern() == pattern@,
    {
        match regex::Regex::new(pattern) {
            Ok(regex) => Some(CompiledRegex { regex, pattern: Ghost(pattern@) }),
            Err(_) => None,
        }
    }

    /// The capture groups of the leftmost match in `haystack`, with `regex::Regex::captures`.
    ///
    /// Claimed of regex: the groups, each turned into its matched text, are
    /// `regex_captures` of the pattern and the haystack.
    #[verifier::external_body]
    pub(crate) fn captures(&self, haystack: &str) -> (r: Option<Vec<Option<String>>>)
        ensures
            captures_view(r) == regex_captures(self.pattern(), haystack@),
    {
        self.regex.captures(haystack).map(
            |caps| caps.iter().map(|m| m.map(|m| m.as_str().to_string())).collect(),
        )
    }
}

/// The pattern of an integer range, which must make up the whole text:
/// `intrange[`, digits, `..`, digits, `]`.
pub const INTRANGE_PATTERN: &'static str = "^intrange\\[(\\d+)\\.\\.(\\d+)\\]$";

/// The kind of answer a feedback question takes.
#[derive(Debug, PartialEq, Eq, Structural)]
pub enum SubmissionFeedbackKind {
    Text,
    IntRange { lower: usize, upper: usize },
}

/// Which bound of an integer range a parse error is about.
#[derive(Debug, Clone, Copy, PartialEq, Eq, Structural)]
pub enum BoundSide {
    Lower,
    Upper,
}

/// Why a text is not the text form of a feedback kind.
#[derive(Debug, PartialEq, Eq)]
pub enum FeedbackKindError {
    /// A bound of the range is not a `usize`: its text and why.
    InvalidBound { side: BoundSide, text: String, kind: IntErrorKind },
    /// The range matched, but a bound's group is absent from the match.
    MissingBound,
    /// The text is neither `text` nor holds an integer range.
    Unexpected,
}

/// `FeedbackKindError` with its texts as character sequences.
pub enum FeedbackKindErrorView {
    InvalidBound { side: BoundSide, text: Seq<char>, kind: IntErrorKind },
    MissingBound,
    Unexpected,
}

impl View for FeedbackKindError {
    type V = FeedbackKindErrorView;

    open spec fn view(&self) -> FeedbackKindErrorView {
        match self {
            FeedbackKindError::InvalidBound { side, text, kind } => FeedbackKindErrorView::InvalidBound {
                side: *side,
                text: text@,
                kind: *kind,
            },
            FeedbackKindError::MissingBound => FeedbackKindErrorView::MissingBound,
            FeedbackKindError::Unexpected => FeedbackKindErrorView::Unexpected,
        }
    }
}

pub open spec fn result_view(r: Result<SubmissionFeedbackKind, FeedbackKindError>) -> Result<
    SubmissionFeedbackKind,
    FeedbackKindErrorView,
> {
    match r {
        Ok(k) => Ok(k),
        Err(e) => Err(e@),
    }
}

/// The text form of a feedback kind.
pub open spec fn spec_kind_string(k: SubmissionFeedbackKind) -> Seq<char> {
    match k {
        SubmissionFeedbackKind::Text => "text"@,
        SubmissionFeedbackKind::IntRange { lower, upper } => "intrange["@ + decimal(lower as nat)
            + ".."@ + decimal(upper as nat) + "]"@,
    }
}

/// The range with the bounds written in `lower` and `upper`, or the first bound
/// that is not a `usize`.
pub open spec fn spec_kind_from_bounds(lower: Seq<char>, upper: Seq<char>) -> Result<
    SubmissionFeedbackKind,
    FeedbackKindErrorView,
> {
    match spec_parse_usize(lower) {
        Err(kind) => Err(FeedbackKindErrorView::InvalidBound { side: BoundSide::Lower, text: lower, kind }),
        Ok(l) => match spec_parse_usize(upper) {
            Err(kind) => Err(
                FeedbackKindErrorView::InvalidBound { side: BoundSide::Upper, text: upper, kind },
            ),
            Ok(u) => Ok(SubmissionFeedbackKind::IntRange { lower: l, upper: u }),
        },
    }
}

/// The kind read from `value`, given the capture groups that the range pattern
/// found in it: a range only where the match is the whole of `value`.
pub open spec fn spec_kind_from_captures(value: Seq<char>, caps: Option<Seq<Option<Seq<char>>>>) -> Result<
    SubmissionFeedbackKind,
    FeedbackKindErrorView,
> {
    match caps {
        None => Err(FeedbackKindErrorView::Unexpected),
        Some(groups) => if !(groups.len() >= 1 && groups[0] == Some(value)) {
            Err(FeedbackKindErrorView::Unexpected)
        } else if groups.len() >= 3 && groups[1] is Some && groups[2] is Some {
            spec_kind_from_bounds(groups[1]->0, groups[2]->0)
        } else {
            Err(FeedbackKindErrorView::MissingBound)
        },
    }
}

/// The kind read from `value`, given the capture groups that the range pattern finds in it.
pub open spec fn spec_visit_str(value: Seq<char>, caps: Option<Seq<Option<Seq<char>>>>) -> Result<
    SubmissionFeedbackKind,
    FeedbackKindErrorView,
> {
    if value == "text"@ {
        Ok(SubmissionFeedbackKind::Text)
    } else {
        spec_kind_from_captures(value, caps)
    }
}

/// The start of the message about a bound that is not a `usize`.
pub open spec fn spec_bound_prefix(side: BoundSide) -> Seq<char> {
    match side {
        BoundSide::Lower => "error parsing intrange lower bound "@,
        BoundSide::Upper => "error parsing intrange upper bound "@,
    }
}

/// The message of a parse error, as the deserializer reports it.
pub open spec fn spec_error_message(e: FeedbackKindErrorView) -> Seq<char> {
    match e {
        FeedbackKindErrorView::InvalidBound { side, text, kind } => spec_bound_prefix(side) + text
            + ": "@ + spec_int_error_message(kind),
        FeedbackKindErrorView::MissingBound => "intrange bound missing from the match"@,
        FeedbackKindErrorView::Unexpected => "expected \"text\" or \"intrange[x..y]\""@,
    }
}

impl FeedbackKindError {
    /// The message of this error.
    pub fn message(&self) -> (r: String)
        ensures
            r@ == spec_error_message(self@),
    {
        match self {
            FeedbackKindError::InvalidBound { side, text, kind } => {
                let mut s = match side {
                    BoundSide::Lower => String::from_str("error parsing intrange lower bound "),
                    BoundSide::Upper => String::from_str("error parsing intrange upper bound "),
                };
                s.append(text.as_str());
                s.append(": ");
                let m = kind.message();
                s.append(m.as_str());
                s
            },
            FeedbackKindError::MissingBound => String::from_str("intrange bound missing from the match"),
            FeedbackKindError::Unexpected => String::from_str("expected \"text\" or \"intrange[x..y]\""),
        }
    }
}

impl SubmissionFeedbackKind {
    /// The text form of this kind: `text`, or `intrange[lower..upper]`.
    pub fn to_kind_string(&self) -> (r: String)
        ensures
            r@ == spec_kind_string(*self),
    {
        match self {
            SubmissionFeedbackKind::Text => String::from_str("text"),
            SubmissionFeedbackKind::IntRange { lower, upper } => {
                let mut s = String::from_str("intrange[");
                let l = usize_to_decimal(*lower);
                s.append(l.as_str());
                s.append("..");
                let u = usize_to_decimal(*upper);
                s.append(u.as_str());
                s.append("]");
                s
            },
        }
    }

    /// The range whose bounds are written in `lower` and `upper`.
    pub fn from_bounds(lower: &str, upper: &str) -> (r: Result<SubmissionFeedbackKind, FeedbackKindError>)
        ensures
            result_view(r) == spec_kind_from_bounds(lower@, upper@),
    {
        let l = match parse_usize(lower) {
            Ok(l) => l,
            Err(kind) => {
                return Err(
                    FeedbackKindError::InvalidBound { side: BoundSide::Lower, text: String::from_str(lower), kind },
                );
            },
        };
        let u = match parse_usize(upper) {
            Ok(u) => u,
            Err(kind) => {
                return Err(
                    FeedbackKindError::InvalidBound { side: BoundSide::Upper, text: String::from_str(upper), kind },
                );
            },
        };
        Ok(SubmissionFeedbackKind::IntRange { lower: l, upper: u })
    }

    /// The kind read from `value`, given the capture groups that the range
    /// pattern found in it; a range only where the match is the whole of `value`.
    pub fn from_captures(value: &str, caps: &Option<Vec<Option<String>>>) -> (r: Result<
        SubmissionFeedbackKind,
        FeedbackKindError,
    >)
        ensures
            result_view(r) == spec_kind_from_captures(value@, captures_view(*caps)),
    {
        match caps {
            None => Err(FeedbackKindError::Unexpected),
            Some(groups) => {
                let whole = if groups.len() >= 1 {
                    match &groups[0] {
                        Some(m) => str_equal(m.as_str(), value),
                        None => false,
                    }
                } else {
                    false
                };
                if !whole {
                    return Err(FeedbackKindError::Unexpected);
                }
                if groups.len() >= 3 {
                    match (&groups[1], &groups[2]) {
                        (Some(lower), Some(upper)) => Self::from_bounds(lower.as_str(), upper.as_str()),
                        _ => Err(FeedbackKindError::MissingBound),
                    }
                } else {
                    Err(FeedbackKindError::MissingBound)
                }
            },
        }
    }
}

/// Distinct feedback kinds have distinct text forms.
pub proof fn lemma_kind_string_injective(a: SubmissionFeedbackKind, b: SubmissionFeedbackKind)
    requires
        spec_kind_string(a) == spec_kind_string(b),
    ensures
        a == b,
{
    reveal_strlit("text");
    reveal_strlit("intrange[");
    reveal_strlit("..");
    reveal_strlit("]");
    let s = spec_kind_string(a);
    match (a, b) {
        (SubmissionFeedbackKind::Text, SubmissionFeedbackKind::Text) => {},
        (SubmissionFeedbackKind::Text, SubmissionFeedbackKind::IntRange { .. }) => {
            assert(s[0] == 't');
            assert(spec_kind_string(b)[0] == 'i');
        },
        (SubmissionFeedbackKind::IntRange { .. }, SubmissionFeedbackKind::Text) => {
            assert(s[0] == 'i');
            assert(spec_kind_string(b)[0] == 't');
        },
        (
            SubmissionFeedbackKind::IntRange { lower: a1, upper: a2 },
            SubmissionFeedbackKind::IntRange { lower: b1, upper: b2 },
        ) => {
            let x = decimal(a1 as nat);
            let xl: int = x.len() as int;
            let y = decimal(b1 as nat);
            let yl: int = y.len() as int;
            let xu = decimal(a2 as nat);
            let yu = decimal(b2 as nat);
            lemma_decimal(a1 as nat);
            lemma_decimal(b1 as nat);
            let sa = "intrange["@ + x + ".."@ + xu + "]"@;
            let sb = "intrange["@ + y + ".."@ + yu + "]"@;
            assert(sa == s);
            assert(sb == s);
            if x.len() < y.len() {
                assert(sa[9 + xl] == '.');
                assert(sb[9 + xl] == y[x.len() as int]);
                assert(crate::decimal::is_digit(y[x.len() as int]));
            } else if y.len() < x.len() {
                assert(sb[9 + yl] == '.');
                assert(sa[9 + yl] == x[y.len() as int]);
                assert(crate::decimal::is_digit(x[y.len() as int]));
            }
            assert(x.len() == y.len());
            assert(x =~= s.subrange(9, 9 + xl));
            assert(y =~= s.subrange(9, 9 + yl));
            crate::decimal::lemma_decimal_injective(a1 as nat, b1 as nat);
            assert(xu =~= s.subrange(11 + xl, s.len() - 1));
            assert(yu =~= s.subrange(11 + yl, s.len() - 1));
            crate::decimal::lemma_decimal_injective(a2 as nat, b2 as nat);
        },
    }
}

/// Reading the text form of a kind gives the kind back, where the range
/// pattern finds in the text of a range its two bounds.
pub proof fn lemma_kind_string_roundtrip(
    k: SubmissionFeedbackKind,
    caps: Option<Seq<Option<Seq<char>>>>,
)
    requires
        k matches SubmissionFeedbackKind::IntRange { lower, upper } ==> caps == Some(
            seq![Some(spec_kind_string(k)), Some(decimal(lower as nat)), Some(decimal(upper as nat))],
        ),
    ensures
        spec_visit_str(spec_kind_string(k), caps) == Ok::<SubmissionFeedbackKind, FeedbackKindErrorView>(k),
{
    reveal_strlit("text");
    reveal_strlit("intrange[");
    if let SubmissionFeedbackKind::IntRange { lower, upper } = k {
        assert(spec_kind_string(k)[0] == 'i');
        assert(spec_kind_string(k) != "text"@);
        lemma_parse_decimal(lower);
        lemma_parse_decimal(upper);
    }
}

/// A text reads as a feedback kind only where it is `text`, which alone reads
/// as `Text`, or where the range pattern matches the whole text; the bounds of
/// a range are then what the pattern's two groups denote.
pub proof fn lemma_read_only_whole_forms(value: Seq<char>, caps: Option<Seq<Option<Seq<char>>>>)
    ensures
        spec_visit_str(value, caps) is Ok ==> value == "text"@ || (caps matches Some(g) && g.len()
            >= 3 && g[0] == Some(value)),
        (spec_visit_str(value, caps) == Ok::<SubmissionFeedbackKind, FeedbackKindErrorView>(
            SubmissionFeedbackKind::Text,
        )) <==> value == "text"@,
        spec_visit_str(value, caps) matches Ok(SubmissionFeedbackKind::IntRange { lower, upper })
            ==> caps matches Some(g) && g[1] matches Some(l) && g[2] matches Some(u)
            && spec_parse_usize(l) == Ok::<usize, IntErrorKind>(lower) && spec_parse_usize(u) == Ok::<
            usize,
            IntErrorKind,
        >(upper),
{
}

/// Reads the text form of a feedback kind, as the deserializer does.
pub struct SubmissionFeedbackKindVisitor {
    range: CompiledRegex,
}

impl SubmissionFeedbackKindVisitor {
    #[verifier::type_invariant]
    closed spec fn uses_range_pattern(self) -> bool {
        self.range.pattern() == INTRANGE_PATTERN@
    }

    /// A visitor, or `None` when the range pattern does not compile.
    pub fn new() -> (r: Option<SubmissionFeedbackKindVisitor>)
        ensures
            r is Some <==> regex_compiles(INTRANGE_PATTERN@),
    {
        match CompiledRegex::new(INTRANGE_PATTERN) {
            Some(range) => Some(SubmissionFeedbackKindVisitor { range }),
            None => None,
        }
    }

    /// What the visitor expects, for messages about other input.
    pub fn expecting(&self) -> (r: &'static str)
        ensures
            r@ == "\"text\" or \"intrange[x..y]\""@,
    {
        "\"text\" or \"intrange[x..y]\""
    }

    /// Reads `value`: `text` is `Text`; otherwise `value` must be an integer
    /// range as a whole, whose bounds the range pattern captures.
    pub fn visit_str(&self, value: &str) -> (r: Result<SubmissionFeedbackKind, FeedbackKindError>)
        ensures
            result_view(r) == spec_visit_str(value@, regex_captures(INTRANGE_PATTERN@, value@)),
    {
        proof {
            use_type_invariant(self);
        }
        if str_equal(value, "text") {
            Ok(SubmissionFeedbackKind::Text)
        } else {
            let caps = self.range.captures(value);
            SubmissionFeedbackKind::from_captures(value, &caps)
        }
    }
}

} // verus!
