//! The text filters available to templates: case conversion and a naive
//! English singular. Each is total, the empty string included.
use vstd::prelude::*;
use crate::strutil::{owned, push_char, ends_with};

verus! {

/// Whether a character has the Unicode `Uppercase` property.
pub uninterp spec fn is_uppercase_char(c: char) -> bool;

/// The Unicode lowercase mapping of a character.
pub uninterp spec fn lowercase_of_char(c: char) -> Seq<char>;

/// The Unicode uppercase mapping of a character.
pub uninterp spec fn uppercase_of_char(c: char) -> Seq<char>;

/// The Unicode uppercase form of a string.
pub uninterp spec fn uppercase_of(s: Seq<char>) -> Seq<char>;

/// The Unicode lowercase form of a string.
pub uninterp spec fn lowercase_of(s: Seq<char>) -> Seq<char>;

/// Relies on `char::is_uppercase`: whether `c` is an uppercase letter.
#[verifier::external_body]
fn char_is_uppercase(c: char) -> (r: bool)
    ensures
        r == is_uppercase_char(c),
{
    c.is_uppercase()
}

/// Relies on `char::to_lowercase`: the lowercase mapping of `c`, which is
/// one or more characters.
#[verifier::external_body]
fn char_to_lowercase(c: char) -> (r: String)
    ensures
        r@ == lowercase_of_char(c),
        r@.len() >= 1,
{
    c.to_lowercase().collect()
}

/// Relies on `char::to_uppercase`: the uppercase mapping of `c`, which is
/// one or more characters.
#[verifier::external_body]
pub(crate) fn char_to_uppercase(c: char) -> (r: String)
    ensures
        r@ == uppercase_of_char(c),
        r@.len() >= 1,
{
    c.to_uppercase().collect()
}

/// Relies on `str::to_uppercase`: the uppercase form of `s`.
#[verifier::external_body]
fn str_to_uppercase(s: &str) -> (r: String)
    ensures
        r@ == uppercase_of(s@),
{
    s.to_uppercase()
}

/// Relies on `str::to_lowercase`: the lowercase form of `s`.
#[verifier::external_body]
pub(crate) fn str_to_lowercase(s: &str) -> (r: String)
    ensures
        r@ == lowercase_of(s@),
{
    s.to_lowercase()
}

/// What `snake_case` makes of the character `c`; `first` tells whether it
/// opens the input.
pub open spec fn snake_piece(c: char, first: bool) -> Seq<char> {
    let low = lowercase_of_char(c)[0];
    if is_uppercase_char(c) && !first {
        seq!['_', low]
    } else {
        seq![low]
    }
}

/// An underscore before each uppercase letter but a leading one, and every
/// letter lowercased.
pub open spec fn snake_of(s: Seq<char>) -> Seq<char>
    decreases s.len(),
{
    if s.len() == 0 {
        Seq::empty()
    } else {
        snake_of(s.drop_last()) + snake_piece(s.last(), s.len() == 1)
    }
}

/// The output so far of `camel_case`, and whether the next character is
/// to be uppercased.
pub open spec fn camel_state(s: Seq<char>) -> (Seq<char>, bool)
    decreases s.len(),
{
    if s.len() == 0 {
        (Seq::empty(), false)
    } else {
        let (r, up) = camel_state(s.drop_last());
        let c = s.last();
        if c == '_' {
            (r, true)
        } else if up {
            (r.push(uppercase_of_char(c)[0]), false)
        } else {
            (r.push(c), false)
        }
    }
}

/// Underscores dropped, and the character after each underscore uppercased.
pub open spec fn camel_of(s: Seq<char>) -> Seq<char> {
    camel_state(s).0
}

/// The first character replaced by its uppercase mapping.
pub open spec fn capitalized(s: Seq<char>) -> Seq<char> {
    if s.len() == 0 {
        s
    } else {
        uppercase_of_char(s[0]) + s.drop_first()
    }
}

pub open spec fn pascal_of(s: Seq<char>) -> Seq<char> {
    capitalized(camel_of(s))
}

/// Each underscore replaced by a hyphen.
pub open spec fn dashed(s: Seq<char>) -> Seq<char> {
    s.map_values(|c: char| if c == '_' { '-' } else { c })
}

pub open spec fn kebab_of(s: Seq<char>) -> Seq<char> {
    dashed(snake_of(s))
}

pub open spec fn has_suffix(s: Seq<char>, p: Seq<char>) -> bool {
    p.len() <= s.len() && s.subrange(s.len() - p.len(), s.len() as int) == p
}

/// Naive English singular: `ies` becomes `y`; `ses`, `zes`, `xes` lose
/// their last two characters; another trailing `s` is dropped.
pub open spec fn singular_of(s: Seq<char>) -> Seq<char> {
    if has_suffix(s, "ies"@) {
        s.take(s.len() - 3) + "y"@
    } else if has_suffix(s, "ses"@) || has_suffix(s, "zes"@) || has_suffix(s, "xes"@) {
        s.take(s.len() - 2)
    } else if s.len() > 0 && s.last() == 's' {
        s.take(s.len() - 1)
    } else {
        s
    }
}

/// `PascalCase` or `camelCase` to `snake_case`.
pub fn snake_case(s: &str) -> (r: String)
    ensures
        r@ == snake_of(s@),
{
    let n = s.unicode_len();
    let mut out = String::new();
    let mut i: usize = 0;
    while i < n
        invariant
            n == s@.len(),
            0 <= i <= n,
            out@ == snake_of(s@.take(i as int)),
        decreases n - i,
    {
        let c = s.get_char(i);
        let low = char_to_lowercase(c);
        let lc = low.as_str().get_char(0);
        if char_is_uppercase(c) && i > 0 {
            push_char(&mut out, '_');
        }
        push_char(&mut out, lc);
        proof {
            assert(s@.take(i + 1).drop_last() =~= s@.take(i as int));
            assert(out@ =~= snake_of(s@.take(i + 1)));
        }
        i += 1;
    }
    assert(s@.take(n as int) =~= s@);
    out
}

/// `snake_case` to `camelCase`.
pub fn camel_case(s: &str) -> (r: String)
    ensures
        r@ == camel_of(s@),
{
    let n = s.unicode_len();
    let mut out = String::new();
    let mut up = false;
    let mut i: usize = 0;
    while i < n
        invariant
            n == s@.len(),
            0 <= i <= n,
            camel_state(s@.take(i as int)) == (out@, up),
        decreases n - i,
    {
        let c = s.get_char(i);
        proof {
            assert(s@.take(i + 1).drop_last() =~= s@.take(i as int));
        }
        if c == '_' {
            up = true;
        } else if up {
            let upper = char_to_uppercase(c);
            push_char(&mut out, upper.as_str().get_char(0));
            up = false;
        } else {
            push_char(&mut out, c);
        }
        i += 1;
    }
    assert(s@.take(n as int) =~= s@);
    out
}

/// `s` with its first character replaced by that character's uppercase
/// mapping.
pub fn capitalize(s: &str) -> (r: String)
    ensures
        r@ == capitalized(s@),
{
    let n = s.unicode_len();
    if n == 0 {
        return String::new();
    }
    let mut out = char_to_uppercase(s.get_char(0));
    let ghost head = out@;
    let mut i: usize = 1;
    while i < n
        invariant
            n == s@.len(),
            1 <= i <= n,
            head == uppercase_of_char(s@[0]),
            out@ == head + s@.subrange(1, i as int),
        decreases n - i,
    {
        push_char(&mut out, s.get_char(i));
        i += 1;
        assert(out@ =~= head + s@.subrange(1, i as int));
    }
    assert(s@.subrange(1, n as int) =~= s@.drop_first());
    out
}

/// `snake_case` to `PascalCase`.
pub fn pascal_case(s: &str) -> (r: String)
    ensures
        r@ == pascal_of(s@),
{
    let camel = camel_case(s);
    capitalize(camel.as_str())
}

/// `s` with each underscore replaced by a hyphen.
pub fn dash_separated(s: &str) -> (r: String)
    ensures
        r@ == dashed(s@),
{
    let n = s.unicode_len();
    let mut out = String::new();
    let mut i: usize = 0;
    while i < n
        invariant
            n == s@.len(),
            0 <= i <= n,
            out@ == dashed(s@.take(i as int)),
        decreases n - i,
    {
        let c = s.get_char(i);
        push_char(&mut out, if c == '_' { '-' } else { c });
        i += 1;
        assert(out@ =~= dashed(s@.take(i as int)));
    }
    assert(s@.take(n as int) =~= s@);
    out
}

/// `PascalCase` or `camelCase` to `kebab-case`.
pub fn kebab_case(s: &str) -> (r: String)
    ensures
        r@ == kebab_of(s@),
{
    let snake = snake_case(s);
    dash_separated(snake.as_str())
}

/// The first `k` characters of `s`.
fn prefix(s: &str, k: usize) -> (r: String)
    requires
        k <= s@.len(),
    ensures
        r@ == s@.take(k as int),
{
    let mut out = String::new();
    let mut i: usize = 0;
    while i < k
        invariant
            k <= s@.len(),
            0 <= i <= k,
            out@ == s@.take(i as int),
        decreases k - i,
    {
        push_char(&mut out, s.get_char(i));
        i += 1;
        assert(out@ =~= s@.take(i as int));
    }
    out
}

/// Naive English singular of a plural noun.
pub fn singular(s: &str) -> (r: String)
    ensures
        r@ == singular_of(s@),
{
    proof {
        reveal_strlit("ies");
        reveal_strlit("ses");
        reveal_strlit("zes");
        reveal_strlit("xes");
        reveal_strlit("s");
        reveal_strlit("y");
    }
    let n = s.unicode_len();
    if ends_with(s, "ies") {
        let mut r = prefix(s, n - 3);
        r.append("y");
        r
    } else if ends_with(s, "ses") || ends_with(s, "zes") || ends_with(s, "xes") {
        prefix(s, n - 2)
    } else if ends_with(s, "s") {
        proof {
            assert(s@.subrange(s@.len() - 1, s@.len() as int)[0] == s@.last());
        }
        prefix(s, n - 1)
    } else {
        proof {
            if s@.len() > 0 && s@.last() == 's' {
                assert(s@.subrange(s@.len() - 1, s@.len() as int) =~= "s"@);
            }
        }
        owned(s)
    }
}

/// The uppercase form of `s`.
pub fn upper(s: &str) -> (r: String)
    ensures
        r@ == uppercase_of(s@),
{
    str_to_uppercase(s)
}

/// The lowercase form of `s`.
pub fn lower(s: &str) -> (r: String)
    ensures
        r@ == lowercase_of(s@),
{
    str_to_lowercase(s)
}

} // verus!
