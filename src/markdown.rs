//! Section handling in markdown documents: splicing a generated section
//! between markers, spotting empty sections, and sorting component files.
use vstd::prelude::*;
use crate::strutil::{owned, push_char, push_decimal, decimal, views};
use crate::filters::{lowercase_of, str_to_lowercase};
use crate::schema::{lemma_filter_take_step, lemma_filter_all};

verus! {

/// Whether `p` occurs in `s` starting at `i`.
pub open spec fn occurs_at(s: Seq<char>, p: Seq<char>, i: int) -> bool {
    0 <= i && i + p.len() <= s.len() && s.subrange(i, i + p.len()) == p
}

/// The first place where `p` occurs in `s`, if any.
#[verifier::opaque]
pub open spec fn first_occurrence(s: Seq<char>, p: Seq<char>) -> Option<int> {
    if exists|i: int| occurs_at(s, p, i) {
        Some(choose|i: int| occurs_at(s, p, i) && forall|j: int| 0 <= j < i ==> !occurs_at(s, p, j))
    } else {
        None
    }
}

fn occurs_here(s: &str, p: &str, i: usize) -> (r: bool)
    requires
        i <= s@.len(),
    ensures
        r == occurs_at(s@, p@, i as int),
{
    let n = s.unicode_len();
    let m = p.unicode_len();
    if m > n - i {
        return false;
    }
    let mut k: usize = 0;
    while k < m
        invariant
            n == s@.len(),
            m == p@.len(),
            i + m <= n,
            0 <= k <= m,
            forall|j: int| 0 <= j < k ==> s@[i + j] == p@[j],
        decreases m - k,
    {
        if s.get_char(i + k) != p.get_char(k) {
            assert(s@.subrange(i as int, i + m)[k as int] != p@[k as int]);
            return false;
        }
        k += 1;
    }
    assert(s@.subrange(i as int, i + m) =~= p@);
    true
}

/// The character index of the first occurrence of `p` in `s`.
pub fn find(s: &str, p: &str) -> (r: Option<usize>)
    ensures
        match r {
            Some(i) => first_occurrence(s@, p@) == Some(i as int) && occurs_at(s@, p@, i as int),
            None => first_occurrence(s@, p@) is None,
        },
{
    let n = s.unicode_len();
    let mut i: usize = 0;
    while i < n
        invariant
            n == s@.len(),
            0 <= i <= n,
            forall|j: int| 0 <= j < i ==> !occurs_at(s@, p@, j),
        decreases n - i,
    {
        if occurs_here(s, p, i) {
            proof {
                lemma_first_is(s@, p@, i as int);
            }
            return Some(i);
        }
        i += 1;
    }
    if occurs_here(s, p, n) {
        proof {
            lemma_first_is(s@, p@, n as int);
        }
        return Some(n);
    }
    proof {
        reveal(first_occurrence);
        assert forall|j: int| !occurs_at(s@, p@, j) by {
            if 0 <= j && j + p@.len() <= s@.len() && j != n {
                assert(j < n);
            }
        }
    }
    None
}

proof fn lemma_first_is(s: Seq<char>, p: Seq<char>, i: int)
    requires
        occurs_at(s, p, i),
        forall|j: int| 0 <= j < i ==> !occurs_at(s, p, j),
    ensures
        first_occurrence(s, p) == Some(i),
{
    reveal(first_occurrence);
    let w = choose|w: int| occurs_at(s, p, w) && forall|j: int| 0 <= j < w ==> !occurs_at(s, p, j);
    if w < i {
        assert(!occurs_at(s, p, w));
    } else if w > i {
        assert(!occurs_at(s, p, i));
    }
}

/// The characters of `s` from `from` to `to`.
fn slice(s: &str, from: usize, to: usize) -> (r: String)
    requires
        from <= to <= s@.len(),
    ensures
        r@ == s@.subrange(from as int, to as int),
{
    let mut r = String::new();
    let mut i: usize = from;
    while i < to
        invariant
            from <= i <= to <= s@.len(),
            r@ == s@.subrange(from as int, i as int),
        decreases to - i,
    {
        push_char(&mut r, s.get_char(i));
        i += 1;
        assert(r@ =~= s@.subrange(from as int, i as int));
    }
    r
}

/// `content` with the text from the color-theme heading up to the layout
/// heading replaced by `section` and a newline; unchanged when either
/// heading is missing.
pub open spec fn color_theme_replaced(content: Seq<char>, section: Seq<char>) -> Seq<char> {
    match first_occurrence(content, "### Color Theme"@) {
        Some(start) => match first_occurrence(content, "### Layout Pattern"@) {
            Some(end) => content.subrange(0, start) + section + "\n"@ + content.subrange(
                end,
                content.len() as int,
            ),
            None => content,
        },
        None => content,
    }
}

/// Replaces the color-theme section of a design document.
pub fn replace_color_theme_section(content: &str, theme_section: &str) -> (r: String)
    ensures
        r@ == color_theme_replaced(content@, theme_section@),
{
    let start = find(content, "### Color Theme");
    let end = find(content, "### Layout Pattern");
    match (start, end) {
        (Some(s), Some(e)) => {
            let n = content.unicode_len();
            let mut r = slice(content, 0, s);
            r.append(theme_section);
            r.append("\n");
            let tail = slice(content, e, n);
            r.append(tail.as_str());
            r
        },
        _ => owned(content),
    }
}


/// Why a marked section could not be replaced.
#[derive(Debug, Clone, Copy, PartialEq, Eq, Structural)]
pub enum SectionError {
    /// The start marker does not occur.
    MissingStart,
    /// The end marker does not occur.
    MissingEnd,
    /// The end marker comes first.
    Misordered,
}

/// `content` with what lies between the component markers replaced by a
/// newline and `section`; the markers stay.
pub open spec fn section_replaced(content: Seq<char>, section: Seq<char>) -> Result<Seq<char>, SectionError> {
    let start_marker = "<!-- SYNC:COMPONENTS:START -->"@;
    let end_marker = "<!-- SYNC:COMPONENTS:END -->"@;
    match first_occurrence(content, start_marker) {
        None => Err(SectionError::MissingStart),
        Some(start) => match first_occurrence(content, end_marker) {
            None => Err(SectionError::MissingEnd),
            Some(end) => if start >= end {
                Err(SectionError::Misordered)
            } else {
                Ok(content.subrange(0, start + start_marker.len()) + "\n"@ + section + content.subrange(
                    end,
                    content.len() as int,
                ))
            },
        },
    }
}

/// Replaces the generated component list between its markers.
pub fn replace_section(content: &str, new_section: &str) -> (r: Result<String, SectionError>)
    ensures
        match r {
            Ok(t) => section_replaced(content@, new_section@) == Ok::<Seq<char>, SectionError>(t@),
            Err(e) => section_replaced(content@, new_section@) == Err::<Seq<char>, SectionError>(e),
        },
{
    let start_marker = "<!-- SYNC:COMPONENTS:START -->";
    let end_marker = "<!-- SYNC:COMPONENTS:END -->";
    let start = match find(content, start_marker) {
        Some(p) => p,
        None => return Err(SectionError::MissingStart),
    };
    let end = match find(content, end_marker) {
        Some(p) => p,
        None => return Err(SectionError::MissingEnd),
    };
    if start >= end {
        return Err(SectionError::Misordered);
    }
    let n = content.unicode_len();
    let cut = start + start_marker.unicode_len();
    let mut r = slice(content, 0, cut);
    r.append("\n");
    r.append(new_section);
    let tail = slice(content, end, n);
    r.append(tail.as_str());
    Ok(r)
}

/// Whether `p` occurs anywhere in `s`.
pub open spec fn mentions(s: Seq<char>, p: Seq<char>) -> bool {
    exists|i: int| occurs_at(s, p, i)
}

pub(crate) fn contains_text(s: &str, p: &str) -> (r: bool)
    ensures
        r == mentions(s@, p@),
{
    let found = find(s, p);
    proof {
        reveal(first_occurrence);
    }
    found.is_some()
}

/// The component category that a file's directory names.
pub open spec fn category_of(path: Seq<char>) -> Seq<char> {
    if mentions(path, "/layout/"@) {
        "Layout"@
    } else if mentions(path, "/templates/"@) {
        "Templates"@
    } else if mentions(path, "/common/"@) {
        "Common"@
    } else if mentions(path, "/features/"@) {
        "Features"@
    } else if mentions(path, "/auth/"@) {
        "Authentication"@
    } else if mentions(path, "/admin/"@) {
        "Admin"@
    } else {
        "Other"@
    }
}

/// The category of a component file, from the first directory name that
/// matches.
pub fn categorize_file(path: &str) -> (r: String)
    ensures
        r@ == category_of(path@),
{
    if contains_text(path, "/layout/") {
        owned("Layout")
    } else if contains_text(path, "/templates/") {
        owned("Templates")
    } else if contains_text(path, "/common/") {
        owned("Common")
    } else if contains_text(path, "/features/") {
        owned("Features")
    } else if contains_text(path, "/auth/") {
        owned("Authentication")
    } else if contains_text(path, "/admin/") {
        owned("Admin")
    } else {
        owned("Other")
    }
}


/// The Unicode `White_Space` property.
pub open spec fn is_white_space(c: char) -> bool {
    ('\u{9}' <= c && c <= '\u{d}') || c == ' ' || c == '\u{85}' || c == '\u{a0}' || c == '\u{1680}'
        || ('\u{2000}' <= c && c <= '\u{200a}') || c == '\u{2028}' || c == '\u{2029}' || c
        == '\u{202f}' || c == '\u{205f}' || c == '\u{3000}'
}

fn white_space(c: char) -> (r: bool)
    ensures
        r == is_white_space(c),
{
    ('\u{9}' <= c && c <= '\u{d}') || c == ' ' || c == '\u{85}' || c == '\u{a0}' || c == '\u{1680}'
        || ('\u{2000}' <= c && c <= '\u{200a}') || c == '\u{2028}' || c == '\u{2029}' || c
        == '\u{202f}' || c == '\u{205f}' || c == '\u{3000}'
}

/// The lines of `s`: the pieces between newline characters.
pub open spec fn lines_of(s: Seq<char>) -> Seq<Seq<char>>
    decreases s.len(),
{
    if s.len() == 0 {
        seq![Seq::empty()]
    } else {
        let p = lines_of(s.drop_last());
        if s.last() == '\n' {
            p.push(Seq::empty())
        } else {
            p.update(p.len() - 1, p.last().push(s.last()))
        }
    }
}

/// A line whose first characters after leading white space are `##`.
pub open spec fn is_heading(l: Seq<char>) -> bool {
    exists|k: int| heading_at(l, k)
}

/// `##` at `k`, with only white space before it.
pub open spec fn heading_at(l: Seq<char>, k: int) -> bool {
    0 <= k && k + 1 < l.len() && (forall|j: int| 0 <= j < k ==> is_white_space(l[j])) && l[k] == '#'
        && l[k + 1] == '#'
}

/// A line of white space only.
pub open spec fn is_blank(l: Seq<char>) -> bool {
    forall|j: int| 0 <= j < l.len() ==> is_white_space(l[j])
}

/// Two headings with nothing but blank lines between them.
pub open spec fn has_empty_section(s: Seq<char>) -> bool {
    let ls = lines_of(s);
    exists|a: int, b: int|
        0 <= a < b < ls.len() && is_heading(ls[a]) && is_heading(ls[b]) && forall|k: int|
            a < k < b ==> is_blank(ls[k])
}

fn line_kind(l: &str) -> (r: (bool, bool))
    ensures
        r.0 == is_heading(l@),
        r.1 == is_blank(l@),
{
    let n = l.unicode_len();
    let mut k: usize = 0;
    while k < n && white_space(l.get_char(k))
        invariant
            n == l@.len(),
            0 <= k <= n,
            forall|j: int| 0 <= j < k ==> is_white_space(l@[j]),
        decreases n - k,
    {
        k += 1;
    }
    let blank = k == n;
    let heading = k < n && n - k > 1 && l.get_char(k) == '#' && l.get_char(k + 1) == '#';
    proof {
        if heading {
            assert(heading_at(l@, k as int));
        } else {
            assert forall|m: int| !heading_at(l@, m) by {
                if heading_at(l@, m) {
                    if m < k {
                        assert(is_white_space(l@[m]));
                    } else if m > k {
                        assert(is_white_space(l@[k as int]));
                    }
                }
            }
        }
    }
    (heading, blank)
}

/// Splits `s` into its lines.
pub(crate) fn split_lines(s: &str) -> (r: Vec<String>)
    ensures
        views(r@) == lines_of(s@),
{
    let n = s.unicode_len();
    let mut done: Vec<String> = Vec::new();
    let mut cur = String::new();
    let mut i: usize = 0;
    while i < n
        invariant
            n == s@.len(),
            0 <= i <= n,
            lines_of(s@.take(i as int)) == views(done@).push(cur@),
        decreases n - i,
    {
        let c = s.get_char(i);
        proof {
            assert(s@.take(i + 1).drop_last() =~= s@.take(i as int));
        }
        if c == '\n' {
            let ghost before = views(done@);
            let line = cur;
            done.push(line);
            cur = String::new();
            assert(views(done@) =~= before.push(line@));
            assert(lines_of(s@.take(i + 1)) =~= views(done@).push(cur@));
        } else {
            push_char(&mut cur, c);
            assert(lines_of(s@.take(i + 1)) =~= views(done@).push(cur@));
        }
        i += 1;
    }
    assert(s@.take(n as int) =~= s@);
    let ghost before = views(done@);
    done.push(cur);
    assert(views(done@) =~= before.push(cur@));
    done
}

/// Whether a document has a section heading followed, after blank lines
/// only, by another heading: a section with no content.
pub fn has_empty_sections(content: &str) -> (r: bool)
    ensures
        r == has_empty_section(content@),
{
    let lines = split_lines(content);
    let ghost ls = views(lines@);
    let mut prev_header = false;
    let mut last: usize = 0;
    let mut i: usize = 0;
    while i < lines.len()
        invariant
            ls == views(lines@),
            ls == lines_of(content@),
            0 <= i <= lines@.len(),
            prev_header ==> last < i && is_heading(ls[last as int]) && forall|k: int|
                last < k < i ==> is_blank(ls[k]),
            !prev_header ==> forall|h: int|
                0 <= h < i && is_heading(ls[h]) ==> exists|k: int| h < k < i && !is_blank(ls[k]),
            forall|a: int, b: int|
                0 <= a < b < i && is_heading(ls[a]) && is_heading(ls[b]) ==> exists|k: int|
                    a < k < b && !is_blank(ls[k]),
        decreases lines@.len() - i,
    {
        let (heading, blank) = line_kind(lines[i].as_str());
        assert(ls[i as int] == lines@[i as int]@);
        if heading {
            if prev_header {
                return true;
            }
            assert forall|a: int, b: int|
                0 <= a < b < i + 1 && is_heading(ls[a]) && is_heading(ls[b]) implies exists|k: int|
                    a < k < b && !is_blank(ls[k]) by {
                if b == i {
                    let k = choose|k: int| a < k < i && !is_blank(ls[k]);
                    assert(a < k < b && !is_blank(ls[k]));
                }
            }
            prev_header = true;
            last = i;
        } else if !blank {
            prev_header = false;
        }
        i += 1;
    }
    false
}


/// Counts of documented project files, and the share documented, in percent.
#[derive(Debug, Clone, Copy, PartialEq, Eq, Structural)]
pub struct SyncStats {
    pub components_count: usize,
    pub models_count: usize,
    pub models_coverage: usize,
    pub repos_count: usize,
    pub repos_coverage: usize,
    pub services_count: usize,
    pub services_coverage: usize,
    pub hooks_count: usize,
    pub hooks_coverage: usize,
    pub pages_count: usize,
    pub pages_coverage: usize,
}

/// The fixed list of known components.
pub open spec fn known_components() -> Seq<char> {
    "- 認証: `AuthGuard`, `LoginForm`, `SignupForm`\n"@
        + "- レイアウト: `Layout`, `PrivateLayout`, `NarrowLayout`, `FullWidthLayout`, `TopNavigation`\n"@
        + "  - `Layout` - デフォルトレイアウト（メニュー・背景・パディング自動提供）\n"@
        + "  - `PrivateLayout` - 認証必須ページ用（AuthGuard + Layout）\n"@
        + "- ストレージ: `FileUpload`\n"@
        + "- Hooks: `useAIGen`, `useImageGeneration`, `usePublicProfile` (React Query)\n"@
}

/// `- <label>: <count>クラス（<coverage>%ドキュメント化）`.
pub open spec fn layer_line(label: Seq<char>, count: usize, coverage: usize) -> Seq<char> {
    "- "@ + label + ": "@ + decimal(count as nat) + "クラス（"@ + decimal(coverage as nat)
        + "%ドキュメント化）\n"@
}

/// The component list that the documentation sync writes between its
/// markers.
pub open spec fn component_section_of(st: SyncStats) -> Seq<char> {
    known_components() + "- UI: shadcn/ui "@ + decimal(st.components_count as nat)
        + "コンポーネント（`components/ui/`）\n"@ + layer_line("Models"@, st.models_count, st.models_coverage)
        + layer_line("Repositories"@, st.repos_count, st.repos_coverage) + layer_line(
        "Services"@,
        st.services_count,
        st.services_coverage,
    )
}

fn push_layer_line(out: &mut String, label: &str, count: usize, coverage: usize)
    ensures
        final(out)@ == old(out)@ + layer_line(label@, count, coverage),
{
    out.append("- ");
    out.append(label);
    out.append(": ");
    push_decimal(out, count);
    out.append("クラス（");
    push_decimal(out, coverage);
    out.append("%ドキュメント化）\n");
    assert(final(out)@ =~= old(out)@ + layer_line(label@, count, coverage));
}

/// The component list for the documentation sync.
pub fn generate_component_section(stats: &SyncStats) -> (r: String)
    ensures
        r@ == component_section_of(*stats),
{
    let mut md = owned("- 認証: `AuthGuard`, `LoginForm`, `SignupForm`\n");
    md.append("- レイアウト: `Layout`, `PrivateLayout`, `NarrowLayout`, `FullWidthLayout`, `TopNavigation`\n");
    md.append("  - `Layout` - デフォルトレイアウト（メニュー・背景・パディング自動提供）\n");
    md.append("  - `PrivateLayout` - 認証必須ページ用（AuthGuard + Layout）\n");
    md.append("- ストレージ: `FileUpload`\n");
    md.append("- Hooks: `useAIGen`, `useImageGeneration`, `usePublicProfile` (React Query)\n");
    assert(md@ =~= known_components());
    md.append("- UI: shadcn/ui ");
    push_decimal(&mut md, stats.components_count);
    md.append("コンポーネント（`components/ui/`）\n");
    push_layer_line(&mut md, "Models", stats.models_count, stats.models_coverage);
    push_layer_line(&mut md, "Repositories", stats.repos_count, stats.repos_coverage);
    push_layer_line(&mut md, "Services", stats.services_count, stats.services_coverage);
    assert(md@ =~= component_section_of(*stats));
    md
}


/// A documented source file: where it is, its summary, its category.
#[derive(Debug, Clone)]
pub struct ComponentDoc {
    pub file_path: String,
    pub summary: String,
    pub category: String,
}

pub struct ComponentDocView {
    pub file_path: Seq<char>,
    pub summary: Seq<char>,
    pub category: Seq<char>,
}

impl View for ComponentDoc {
    type V = ComponentDocView;

    open spec fn view(&self) -> ComponentDocView {
        ComponentDocView {
            file_path: self.file_path@,
            summary: self.summary@,
            category: self.category@,
        }
    }
}

pub open spec fn doc_views(s: Seq<ComponentDoc>) -> Seq<ComponentDocView> {
    s.map_values(|d: ComponentDoc| d@)
}

/// Whether the keyword, in lowercase, occurs in the lowercased path,
/// summary or category.
pub open spec fn doc_matches(d: ComponentDocView, keyword: Seq<char>) -> bool {
    let k = lowercase_of(keyword);
    mentions(lowercase_of(d.file_path), k) || mentions(lowercase_of(d.summary), k) || mentions(
        lowercase_of(d.category),
        k,
    )
}

/// The documents a search keeps: all without a keyword, else those that
/// mention it, in order.
pub open spec fn filtered_docs(docs: Seq<ComponentDocView>, search: Option<Seq<char>>) -> Seq<ComponentDocView> {
    match search {
        None => docs,
        Some(k) => docs.filter(|d: ComponentDocView| doc_matches(d, k)),
    }
}

fn copy_doc(d: &ComponentDoc) -> (r: ComponentDoc)
    ensures
        r@ == d@,
{
    ComponentDoc { file_path: d.file_path.clone(), summary: d.summary.clone(), category: d.category.clone() }
}

/// The documents that mention `search`, ignoring case; all of them when
/// there is no search.
pub fn filter_docs(docs: &Vec<ComponentDoc>, search: Option<&str>) -> (r: Vec<ComponentDoc>)
    ensures
        doc_views(r@) == filtered_docs(
            doc_views(docs@),
            match search {
                Some(k) => Some(k@),
                None => None,
            },
        ),
{
    let ghost all = doc_views(docs@);
    let keyword = match search {
        Some(k) => Some(str_to_lowercase(k)),
        None => None,
    };
    let ghost keep = match search {
        Some(k) => |d: ComponentDocView| doc_matches(d, k@),
        None => |d: ComponentDocView| true,
    };
    let mut r: Vec<ComponentDoc> = Vec::new();
    let mut i: usize = 0;
    while i < docs.len()
        invariant
            0 <= i <= docs@.len(),
            all == doc_views(docs@),
            keep == (match search {
                Some(k) => |d: ComponentDocView| doc_matches(d, k@),
                None => |d: ComponentDocView| true,
            }),
            match search {
                Some(k) => keyword is Some && keyword->0@ == lowercase_of(k@),
                None => keyword is None,
            },
            doc_views(r@) == all.take(i as int).filter(keep),
        decreases docs@.len() - i,
    {
        proof {
            lemma_filter_take_step(all, keep, i as int);
        }
        let d = &docs[i];
        let kept = match &keyword {
            None => true,
            Some(k) => {
                let path = str_to_lowercase(d.file_path.as_str());
                let summary = str_to_lowercase(d.summary.as_str());
                let category = str_to_lowercase(d.category.as_str());
                contains_text(path.as_str(), k.as_str()) || contains_text(summary.as_str(), k.as_str())
                    || contains_text(category.as_str(), k.as_str())
            },
        };
        if kept {
            let ghost prev = doc_views(r@);
            let c = copy_doc(d);
            r.push(c);
            assert(doc_views(r@) =~= prev.push(c@));
        }
        i += 1;
    }
    assert(all.take(all.len() as int) =~= all);
    proof {
        if search is None {
            lemma_filter_all(all, keep);
        }
    }
    r
}

} // verus!
