//! Which application routes are list pages that the top navigation must
//! link to.
use vstd::prelude::*;
use crate::strutil::{contains_char, starts_with, ends_with, views};
use crate::contexts::opt_view;
use crate::markdown::{lines_of, mentions, contains_text, split_lines};
use crate::schema::lemma_filter_take_step;

verus! {

pub open spec fn prefixed(s: Seq<char>, p: Seq<char>) -> bool {
    p.len() <= s.len() && s.subrange(0, p.len() as int) == p
}

pub open spec fn suffixed(s: Seq<char>, p: Seq<char>) -> bool {
    p.len() <= s.len() && s.subrange(s.len() - p.len(), s.len() as int) == p
}

/// A list page: no parameter, no create/edit/new action, and not an
/// authentication, admin or utility route.
pub open spec fn is_list_route_spec(path: Seq<char>) -> bool {
    !path.contains(':') && !suffixed(path, "/create"@) && !suffixed(path, "/edit"@) && !suffixed(
        path,
        "/new"@,
    ) && !prefixed(path, "/login"@) && !prefixed(path, "/signup"@) && !prefixed(
        path,
        "/forgot-password"@,
    ) && !prefixed(path, "/reset-password"@) && !prefixed(path, "/admin"@) && !prefixed(
        path,
        "/type-test"@,
    ) && !prefixed(path, "/debug"@)
}

/// Whether a route is a list page that belongs in the top navigation.
pub fn is_list_route(path: &str) -> (r: bool)
    ensures
        r == is_list_route_spec(path@),
{
    if contains_char(path, ':') {
        return false;
    }
    if ends_with(path, "/create") || ends_with(path, "/edit") || ends_with(path, "/new") {
        return false;
    }
    if starts_with(path, "/login") || starts_with(path, "/signup") || starts_with(
        path,
        "/forgot-password",
    ) || starts_with(path, "/reset-password") {
        return false;
    }
    if starts_with(path, "/admin") {
        return false;
    }
    if starts_with(path, "/type-test") || starts_with(path, "/debug") {
        return false;
    }
    true
}


/// Capture group 1 of the leftmost match of `pattern` in `text`; none when
/// the pattern is invalid, nothing matches, or the group takes no part.
pub uninterp spec fn first_group(pattern: Seq<char>, text: Seq<char>) -> Option<Seq<char>>;

/// Capture group 1 of each successive non-overlapping match of `pattern`
/// in `text`; empty when the pattern is invalid.
pub uninterp spec fn every_group(pattern: Seq<char>, text: Seq<char>) -> Seq<Option<Seq<char>>>;

/// Relies on `regex::Regex::new`, `Regex::captures` and `Captures::get`:
/// group 1 of the leftmost match.
#[verifier::external_body]
fn capture_first(pattern: &str, text: &str) -> (r: Option<String>)
    ensures
        opt_view(r) == first_group(pattern@, text@),
{
    let re = regex::Regex::new(pattern).ok()?;
    let caps = re.captures(text)?;
    caps.get(1).map(|m| m.as_str().to_string())
}

/// Relies on `regex::Regex::new`, `Regex::captures_iter` and
/// `Captures::get`: group 1 of every match, in order.
#[verifier::external_body]
fn capture_every(pattern: &str, text: &str) -> (r: Vec<Option<String>>)
    ensures
        r@.map_values(|o: Option<String>| opt_view(o)) == every_group(pattern@, text@),
{
    match regex::Regex::new(pattern) {
        Ok(re) => re.captures_iter(text).map(|c| c.get(1).map(|m| m.as_str().to_string())).collect(),
        Err(_) => Vec::new(),
    }
}

/// A route declaration: `<Route path="/...">`.
pub open spec fn route_pattern() -> Seq<char> {
    "<Route\\s+path=\"(/[^\"]+)\""@
}

/// A navigation link: `<Link to="/...">`.
pub open spec fn link_pattern() -> Seq<char> {
    "<Link\\s+to=\"(/[^\"]+)\""@
}

/// Whether a line asks the check to skip the route on the next line.
pub open spec fn is_ignore_line(l: Seq<char>) -> bool {
    mentions(l, "akatsuki-ignore navigation"@) || mentions(l, "akatsuki-ignore-next-line navigation"@)
}

/// The routes declared on `ls`, and whether the line after them is skipped.
/// A line with an ignore comment declares nothing and skips the next line.
pub open spec fn route_scan(ls: Seq<Seq<char>>) -> (Seq<Seq<char>>, bool)
    decreases ls.len(),
{
    if ls.len() == 0 {
        (Seq::empty(), false)
    } else {
        let (rs, skip) = route_scan(ls.drop_last());
        let l = ls.last();
        if is_ignore_line(l) {
            (rs, true)
        } else if skip {
            (rs, false)
        } else {
            match first_group(route_pattern(), l) {
                Some(p) => (rs.push(p), false),
                None => (rs, false),
            }
        }
    }
}

pub open spec fn routes_of(content: Seq<char>) -> Seq<Seq<char>> {
    route_scan(lines_of(content)).0
}

/// The route paths declared in an application's router source.
pub fn extract_routes(content: &str) -> (r: Vec<String>)
    ensures
        views(r@) == routes_of(content@),
{
    let lines = split_lines(content);
    let ghost ls = views(lines@);
    let mut routes: Vec<String> = Vec::new();
    let mut skip_next = false;
    let mut i: usize = 0;
    while i < lines.len()
        invariant
            ls == views(lines@),
            ls == lines_of(content@),
            0 <= i <= lines@.len(),
            route_scan(ls.take(i as int)) == (views(routes@), skip_next),
        decreases lines@.len() - i,
    {
        let line = lines[i].as_str();
        proof {
            assert(ls.take(i + 1).drop_last() =~= ls.take(i as int));
            assert(ls[i as int] == line@);
        }
        if contains_text(line, "akatsuki-ignore navigation") || contains_text(
            line,
            "akatsuki-ignore-next-line navigation",
        ) {
            skip_next = true;
        } else if skip_next {
            skip_next = false;
        } else {
            match capture_first("<Route\\s+path=\"(/[^\"]+)\"", line) {
                Some(p) => {
                    let ghost prev = views(routes@);
                    routes.push(p);
                    assert(views(routes@) =~= prev.push(p@));
                },
                None => {},
            }
        }
        i += 1;
    }
    assert(ls.take(ls.len() as int) =~= ls);
    routes
}

/// The link targets found in a navigation source, in order.
pub open spec fn links_of(content: Seq<char>) -> Seq<Seq<char>> {
    every_group(link_pattern(), content).filter(|o: Option<Seq<char>>| o is Some).map_values(
        |o: Option<Seq<char>>| o->0,
    )
}

/// The link targets of a navigation component.
pub fn extract_nav_links(content: &str) -> (r: Vec<String>)
    ensures
        views(r@) == links_of(content@),
{
    let found = capture_every("<Link\\s+to=\"(/[^\"]+)\"", content);
    let ghost all = found@.map_values(|o: Option<String>| opt_view(o));
    let ghost some = |o: Option<Seq<char>>| o is Some;
    let ghost inner = |o: Option<Seq<char>>| o->0;
    let mut links: Vec<String> = Vec::new();
    let mut i: usize = 0;
    while i < found.len()
        invariant
            0 <= i <= found@.len(),
            all == found@.map_values(|o: Option<String>| opt_view(o)),
            some == (|o: Option<Seq<char>>| o is Some),
            inner == (|o: Option<Seq<char>>| o->0),
            views(links@) == all.take(i as int).filter(some).map_values(inner),
        decreases found@.len() - i,
    {
        proof {
            lemma_filter_take_step(all, some, i as int);
        }
        match &found[i] {
            Some(l) => {
                let ghost prev = views(links@);
                links.push(l.clone());
                assert(views(links@) =~= prev.push(l@));
                assert(all.take(i + 1).filter(some).map_values(inner) =~= all.take(i as int).filter(
                    some,
                ).map_values(inner).push(inner(all[i as int])));
            },
            None => {},
        }
        i += 1;
    }
    assert(all.take(all.len() as int) =~= all);
    links
}

/// The list-page routes that no navigation link points to, in route order.
pub open spec fn missing_links(routes: Seq<Seq<char>>, links: Seq<Seq<char>>) -> Seq<Seq<char>> {
    routes.filter(|r: Seq<char>| is_list_route_spec(r) && !links.contains(r))
}

fn holds(v: &Vec<String>, s: &str) -> (r: bool)
    ensures
        r == views(v@).contains(s@),
{
    let mut i: usize = 0;
    while i < v.len()
        invariant
            0 <= i <= v@.len(),
            forall|k: int| 0 <= k < i ==> v@[k]@ != s@,
        decreases v@.len() - i,
    {
        if crate::strutil::str_eq(v[i].as_str(), s) {
            assert(views(v@)[i as int] == s@);
            return true;
        }
        i += 1;
    }
    false
}

/// The list pages of the application that the top navigation does not
/// link to.
pub fn missing_nav_links(routes: &Vec<String>, links: &Vec<String>) -> (r: Vec<String>)
    ensures
        views(r@) == missing_links(views(routes@), views(links@)),
{
    let ghost rs = views(routes@);
    let ghost ln = views(links@);
    let ghost keep = |r: Seq<char>| is_list_route_spec(r) && !ln.contains(r);
    let mut missing: Vec<String> = Vec::new();
    let mut i: usize = 0;
    while i < routes.len()
        invariant
            0 <= i <= routes@.len(),
            rs == views(routes@),
            ln == views(links@),
            keep == (|r: Seq<char>| is_list_route_spec(r) && !ln.contains(r)),
            views(missing@) == rs.take(i as int).filter(keep),
        decreases routes@.len() - i,
    {
        proof {
            lemma_filter_take_step(rs, keep, i as int);
        }
        let r = routes[i].as_str();
        if is_list_route(r) && !holds(links, r) {
            let ghost prev = views(missing@);
            missing.push(routes[i].clone());
            assert(views(missing@) =~= prev.push(rs[i as int]));
        }
        i += 1;
    }
    assert(rs.take(rs.len() as int) =~= rs);
    missing
}

} // verus!
