//! Naming helpers for design documents, and the command-line error type.
use vstd::prelude::*;
use crate::filters::{char_to_uppercase, uppercase_of_char};
use crate::strutil::{owned, push_char};

verus! {

/// Whether a character is numeric in the Unicode sense.
pub uninterp spec fn is_numeric_char(c: char) -> bool;

/// Relies on `char::is_numeric`: whether `c` is a numeric character.
#[verifier::external_body]
fn char_is_numeric(c: char) -> (r: bool)
    ensures
        r == is_numeric_char(c),
{
    c.is_numeric()
}

/// A character allowed in a feature name.
pub open spec fn is_name_char(c: char) -> bool {
    ('a' <= c && c <= 'z') || c == '-' || is_numeric_char(c)
}

/// A feature name is non-empty kebab-case: lowercase letters, digits and
/// hyphens.
pub fn validate_feature_name(name: &str) -> (r: bool)
    ensures
        r == (name@.len() > 0 && forall|i: int| 0 <= i < name@.len() ==> is_name_char(name@[i])),
{
    let n = name.unicode_len();
    if n == 0 {
        return false;
    }
    let mut i: usize = 0;
    while i < n
        invariant
            n == name@.len(),
            0 <= i <= n,
            forall|k: int| 0 <= k < i ==> is_name_char(name@[k]),
        decreases n - i,
    {
        let c = name.get_char(i);
        if !(('a' <= c && c <= 'z') || c == '-' || char_is_numeric(c)) {
            return false;
        }
        i += 1;
    }
    true
}

/// The title form of a kebab-case name so far, and whether the next
/// character opens a word.
pub open spec fn title_state(s: Seq<char>) -> (Seq<char>, bool)
    decreases s.len(),
{
    if s.len() == 0 {
        (Seq::empty(), true)
    } else {
        let (r, start) = title_state(s.drop_last());
        let c = s.last();
        if c == '-' {
            (r.push(' '), true)
        } else if start {
            (r + uppercase_of_char(c), false)
        } else {
            (r.push(c), false)
        }
    }
}

/// Hyphens become spaces and each word's first character is uppercased.
pub open spec fn title_of(s: Seq<char>) -> Seq<char> {
    title_state(s).0
}

/// Turns `kebab-case` into `Title Case`.
pub fn to_title_case(s: &str) -> (r: String)
    ensures
        r@ == title_of(s@),
{
    let n = s.unicode_len();
    let mut out = String::new();
    let mut start = true;
    let mut i: usize = 0;
    while i < n
        invariant
            n == s@.len(),
            0 <= i <= n,
            title_state(s@.take(i as int)) == (out@, start),
        decreases n - i,
    {
        let c = s.get_char(i);
        proof {
            assert(s@.take(i + 1).drop_last() =~= s@.take(i as int));
        }
        if c == '-' {
            push_char(&mut out, ' ');
            start = true;
        } else if start {
            let up = char_to_uppercase(c);
            out.append(up.as_str());
            start = false;
        } else {
            push_char(&mut out, c);
        }
        i += 1;
    }
    assert(s@.take(n as int) =~= s@);
    out
}

/// The errors of the command-line tool.
#[derive(Debug, Clone, PartialEq, Eq)]
pub enum CliError {
    InvalidFeatureName(String),
    FileNotFound(String),
    IoError(String),
    TemplateError(String),
}

pub open spec fn cli_error_text(e: CliError) -> Seq<char> {
    match e {
        CliError::InvalidFeatureName(n) => "Invalid feature name: "@ + n@
            + ". Use kebab-case (lowercase, numbers, hyphens only)"@,
        CliError::FileNotFound(p) => "File not found: "@ + p@,
        CliError::IoError(m) => "IO error: "@ + m@,
        CliError::TemplateError(m) => "Template error: "@ + m@,
    }
}

impl CliError {
    /// The message shown to the user.
    pub fn message(&self) -> (r: String)
        ensures
            r@ == cli_error_text(*self),
    {
        match self {
            CliError::InvalidFeatureName(n) => {
                let mut r = owned("Invalid feature name: ");
                r.append(n.as_str());
                r.append(". Use kebab-case (lowercase, numbers, hyphens only)");
                r
            },
            CliError::FileNotFound(p) => {
                let mut r = owned("File not found: ");
                r.append(p.as_str());
                r
            },
            CliError::IoError(m) => {
                let mut r = owned("IO error: ");
                r.append(m.as_str());
                r
            },
            CliError::TemplateError(m) => {
                let mut r = owned("Template error: ");
                r.append(m.as_str());
                r
            },
        }
    }
}

/// What a design document says of itself.
#[derive(Debug, Clone)]
pub struct MarkdownMetadata {
    pub title: String,
    pub created: String,
    pub status: String,
    pub description: String,
    pub screen_count: usize,
}

} // verus!
