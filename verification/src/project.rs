//! Project-name extraction: the catalog pattern is matched against the
//! window title through the regex engine, and the capture is refined into a
//! display name or a sentinel.

use vstd::prelude::*;
use vstd::string::*;

use crate::text::{trim_spec, trim_str};

verus! {

/// What matching a pattern against a title yields, at the specification
/// level.
pub enum CaptureSpec {
    /// The pattern does not compile.
    BadPattern,
    /// The pattern compiled but matched nothing.
    NoMatch,
    /// The first match: the whole matched text, and capture group 1 where it
    /// participated in the match.
    Found { full: Seq<char>, group1: Option<Seq<char>> },
}

/// What the regex engine yields for a pattern and a title; a function of the
/// two strings alone.
pub uninterp spec fn capture_of(pattern: Seq<char>, title: Seq<char>) -> CaptureSpec;

/// Outcome of matching a catalog pattern against a window title.
pub enum TitleMatch {
    /// The pattern does not compile.
    BadPattern,
    /// The pattern compiled but matched nothing.
    NoMatch,
    /// The first match: the whole matched text, and capture group 1 where it
    /// participated in the match.
    Found { full: String, group1: Option<String> },
}

/// The specification-level value of a match outcome.
pub open spec fn title_match_view(m: TitleMatch) -> CaptureSpec {
    match m {
        TitleMatch::BadPattern => CaptureSpec::BadPattern,
        TitleMatch::NoMatch => CaptureSpec::NoMatch,
        TitleMatch::Found { full, group1 } => CaptureSpec::Found {
            full: full@,
            group1: match group1 {
                Some(g) => Some(g@),
                None => None,
            },
        },
    }
}

/// Relies on `regex::Regex::new` and `regex::Regex::captures`: whether the
/// pattern compiles, and what its leftmost match against the title captures,
/// are functions of the two strings alone.
#[verifier::external_body]
fn match_title(pattern: &str, title: &str) -> (r: TitleMatch)
    ensures
        title_match_view(r) == capture_of(pattern@, title@),
{
    match regex::Regex::new(pattern) {
        Err(_) => TitleMatch::BadPattern,
        Ok(re) => match re.captures(title) {
            None => TitleMatch::NoMatch,
            Some(caps) => TitleMatch::Found {
                full: caps.get(0).map_or(String::new(), |m| m.as_str().to_string()),
                group1: caps.get(1).map(|m| m.as_str().to_string()),
            },
        },
    }
}

/// `s` with every trailing unsaved-indicator character '*' removed.
pub open spec fn strip_stars(s: Seq<char>) -> Seq<char>
    decreases s.len(),
{
    if s.len() > 0 && s.last() == '*' {
        strip_stars(s.drop_last())
    } else {
        s
    }
}

proof fn lemma_strip_stars_subrange(s: Seq<char>, j: int)
    requires
        0 <= j <= s.len(),
        forall|k: int| j <= k < s.len() ==> s[k] == '*',
        j > 0 ==> s[j - 1] != '*',
    ensures
        strip_stars(s) == s.subrange(0, j),
    decreases s.len() - j,
{
    if j == s.len() {
        assert(s.subrange(0, s.len() as int) =~= s);
    } else {
        lemma_strip_stars_subrange(s.drop_last(), j);
        assert(s.drop_last().subrange(0, j) =~= s.subrange(0, j));
    }
}

/// `s` without its trailing '*' characters.
fn strip_trailing_stars<'a>(s: &'a str) -> (r: &'a str)
    ensures
        r@ == strip_stars(s@),
{
    let n = s.unicode_len();
    let mut j: usize = n;
    while j > 0 && s.get_char(j - 1) == '*'
        invariant
            0 <= j <= n,
            n == s@.len(),
            forall|k: int| j <= k < n ==> s@[k] == '*',
        decreases j,
    {
        j = j - 1;
    }
    proof {
        lemma_strip_stars_subrange(s@, j as int);
    }
    s.substring_char(0, j)
}

/// A raw capture refined for display: trimmed, trailing unsaved indicators
/// stripped, trimmed again; an empty result falls back to "Untitled".
pub open spec fn refine_spec(raw: Seq<char>) -> Seq<char> {
    let t = trim_spec(strip_stars(trim_spec(raw)));
    if t.len() == 0 {
        "Untitled"@
    } else {
        t
    }
}

fn refine_project_name(raw: &str) -> (r: String)
    ensures
        r@ == refine_spec(raw@),
{
    let t1 = trim_str(raw);
    let stripped = strip_trailing_stars(t1);
    let t2 = trim_str(stripped);
    if t2.unicode_len() == 0 {
        String::from_str("Untitled")
    } else {
        String::from_str(t2)
    }
}

/// The project name extracted from a window title: "None" for an empty
/// title, an invalid pattern, or no match; otherwise capture group 1 (the
/// whole match where group 1 is absent), refined for display.
pub open spec fn extract_spec(title: Seq<char>, pattern: Seq<char>) -> Seq<char> {
    if title.len() == 0 {
        "None"@
    } else {
        match capture_of(pattern, title) {
            CaptureSpec::BadPattern => "None"@,
            CaptureSpec::NoMatch => "None"@,
            CaptureSpec::Found { full, group1 } => match group1 {
                Some(g) => refine_spec(g),
                None => refine_spec(full),
            },
        }
    }
}

/// Extract the project name from a window title using the catalog pattern.
pub fn extract_project_name(title: &str, pattern: &str) -> (r: String)
    ensures
        r@ == extract_spec(title@, pattern@),
        title@.len() == 0 ==> r@ == "None"@,
{
    if title.unicode_len() == 0 {
        return String::from_str("None");
    }
    match match_title(pattern, title) {
        TitleMatch::BadPattern => String::from_str("None"),
        TitleMatch::NoMatch => String::from_str("None"),
        TitleMatch::Found { full, group1 } => match group1 {
            Some(g) => refine_project_name(g.as_str()),
            None => refine_project_name(full.as_str()),
        },
    }
}

/// An empty window title always extracts to the sentinel "None", whatever
/// the pattern says.
pub proof fn lemma_extract_empty_title(pattern: Seq<char>)
    ensures
        extract_spec(Seq::<char>::empty(), pattern) == "None"@,
{
}

} // verus!
