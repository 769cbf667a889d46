//! Design themes and the color-theme section that a design document
//! receives from one. A theme's scales map names to values; each is held
//! as a list of pairs with distinct names.
use vstd::prelude::*;
use crate::strutil::{owned, str_eq, views};
use crate::advice::bullets;

verus! {

/// A design theme.
#[derive(Debug, Clone)]
pub struct Theme {
    pub name: String,
    pub id: String,
    pub description: String,
    pub mood: String,
    pub use_cases: Vec<String>,
    pub colors: ThemeColors,
    pub typography: Typography,
    pub spacing: Vec<(String, String)>,
    pub border_radius: Vec<(String, String)>,
    pub components: Components,
    pub examples: Examples,
}

/// Color scales, each from a shade (`500`) to a color value.
#[derive(Debug, Clone)]
pub struct ThemeColors {
    pub primary: Vec<(String, String)>,
    pub secondary: Vec<(String, String)>,
    pub accent: Vec<(String, String)>,
    pub neutral: Vec<(String, String)>,
    pub success: Vec<(String, String)>,
    pub warning: Vec<(String, String)>,
    pub error: Vec<(String, String)>,
}

#[derive(Debug, Clone)]
pub struct Typography {
    pub font_family: Vec<(String, String)>,
    pub font_size: Vec<(String, String)>,
    pub line_height: Vec<(String, String)>,
}

/// Class lists of component variants.
#[derive(Debug, Clone)]
pub struct Components {
    pub button: Vec<(String, String)>,
    pub card: Vec<(String, String)>,
    pub input: Vec<(String, String)>,
    pub badge: Vec<(String, String)>,
}

#[derive(Debug, Clone)]
pub struct Examples {
    pub layout: String,
    pub button_group: String,
}

/// The value stored under `key`, if any.
pub open spec fn lookup(pairs: Seq<(String, String)>, key: Seq<char>) -> Option<Seq<char>>
    decreases pairs.len(),
{
    if pairs.len() == 0 {
        None
    } else if pairs[0].0@ == key {
        Some(pairs[0].1@)
    } else {
        lookup(pairs.drop_first(), key)
    }
}

/// The value under `key`, or `N/A`.
pub open spec fn or_na(pairs: Seq<(String, String)>, key: Seq<char>) -> Seq<char> {
    match lookup(pairs, key) {
        Some(v) => v,
        None => "N/A"@,
    }
}

fn get<'a>(pairs: &'a Vec<(String, String)>, key: &str) -> (r: Option<&'a String>)
    ensures
        match r {
            Some(v) => lookup(pairs@, key@) == Some(v@),
            None => lookup(pairs@, key@) is None,
        },
{
    let mut i: usize = 0;
    assert(pairs@.subrange(0, pairs@.len() as int) =~= pairs@);
    while i < pairs.len()
        invariant
            0 <= i <= pairs@.len(),
            lookup(pairs@.subrange(i as int, pairs@.len() as int), key@) == lookup(pairs@, key@),
        decreases pairs@.len() - i,
    {
        let ghost rest = pairs@.subrange(i as int, pairs@.len() as int);
        assert(rest[0] == pairs@[i as int]);
        if str_eq(pairs[i].0.as_str(), key) {
            return Some(&pairs[i].1);
        }
        assert(rest.drop_first() =~= pairs@.subrange(i + 1, pairs@.len() as int));
        i += 1;
    }
    None
}

fn get_or_na(pairs: &Vec<(String, String)>, key: &str) -> (r: String)
    ensures
        r@ == or_na(pairs@, key@),
{
    match get(pairs, key) {
        Some(v) => v.clone(),
        None => owned("N/A"),
    }
}

/// One line `- <label>: `<value>` (<key>)` and its ending.
pub open spec fn color_line(label: Seq<char>, pairs: Seq<(String, String)>, key: Seq<char>, end: Seq<char>) -> Seq<char> {
    "- "@ + label + ": `"@ + or_na(pairs, key) + "` ("@ + key + ")"@ + end
}

fn push_color_line(out: &mut String, label: &str, pairs: &Vec<(String, String)>, key: &str, end: &str)
    ensures
        final(out)@ == old(out)@ + color_line(label@, pairs@, key@, end@),
{
    let v = get_or_na(pairs, key);
    out.append("- ");
    out.append(label);
    out.append(": `");
    out.append(v.as_str());
    out.append("` (");
    out.append(key);
    out.append(")");
    out.append(end);
    assert(final(out)@ =~= old(out)@ + color_line(label@, pairs@, key@, end@));
}

pub open spec fn palette_of(c: ThemeColors) -> Seq<char> {
    "#### Primary Colors\n"@ + color_line("Main"@, c.primary@, "500"@, "\n"@) + color_line(
        "Hover"@,
        c.primary@,
        "600"@,
        "\n"@,
    ) + color_line("Active"@, c.primary@, "700"@, "\n\n"@) + "#### Neutral Colors\n"@ + color_line(
        "Background"@,
        c.neutral@,
        "50"@,
        "\n"@,
    ) + color_line("Text"@, c.neutral@, "900"@, "\n\n"@) + "#### Semantic Colors\n"@ + color_line(
        "Success"@,
        c.success@,
        "500"@,
        "\n"@,
    ) + color_line("Warning"@, c.warning@, "500"@, "\n"@) + color_line(
        "Error"@,
        c.error@,
        "500"@,
        "\n\n"@,
    )
}

fn push_palette(out: &mut String, c: &ThemeColors)
    ensures
        final(out)@ == old(out)@ + palette_of(*c),
{
    out.append("#### Primary Colors\n");
    push_color_line(out, "Main", &c.primary, "500", "\n");
    push_color_line(out, "Hover", &c.primary, "600", "\n");
    push_color_line(out, "Active", &c.primary, "700", "\n\n");
    out.append("#### Neutral Colors\n");
    push_color_line(out, "Background", &c.neutral, "50", "\n");
    push_color_line(out, "Text", &c.neutral, "900", "\n\n");
    out.append("#### Semantic Colors\n");
    push_color_line(out, "Success", &c.success, "500", "\n");
    push_color_line(out, "Warning", &c.warning, "500", "\n");
    push_color_line(out, "Error", &c.error, "500", "\n\n");
    assert(final(out)@ =~= old(out)@ + palette_of(*c));
}

/// A component sample, when the variant exists.
pub open spec fn sample_of(title: Seq<char>, pairs: Seq<(String, String)>, key: Seq<char>) -> Seq<char> {
    match lookup(pairs, key) {
        Some(v) => title + "```css\n"@ + v + "\n```\n\n"@,
        None => Seq::empty(),
    }
}

fn push_sample(out: &mut String, title: &str, pairs: &Vec<(String, String)>, key: &str)
    ensures
        final(out)@ == old(out)@ + sample_of(title@, pairs@, key@),
{
    match get(pairs, key) {
        Some(v) => {
            out.append(title);
            out.append("```css\n");
            out.append(v.as_str());
            out.append("\n```\n\n");
        },
        None => {},
    }
    assert(final(out)@ =~= old(out)@ + sample_of(title@, pairs@, key@));
}

/// The color-theme section of a design document for `t`.
pub open spec fn theme_section_of(t: Theme) -> Seq<char> {
    "### Color Theme\n\n"@ + "**Selected Theme:** `"@ + t.id@ + "` - "@ + t.name@ + "\n\n"@
        + "**Mood:** "@ + t.mood@ + "\n\n"@ + palette_of(t.colors) + "#### Typography\n"@
        + "- Font: `"@
        + or_na(t.typography.font_family@, "sans"@) + "`\n\n"@ + "#### Component Styles\n\n"@
        + sample_of("**Button (Primary):**\n"@, t.components.button@, "primary"@) + sample_of(
        "**Card:**\n"@,
        t.components.card@,
        "default"@,
    ) + "💡 **Full theme details**: `akatsuki design theme "@ + t.id@ + "`\n"@
}

/// The color-theme section for `theme`, ready to insert into a design
/// document.
pub fn generate_theme_section_for_insertion(theme: &Theme) -> (r: String)
    ensures
        r@ == theme_section_of(*theme),
{
    let mut section = owned("### Color Theme\n\n");
    section.append("**Selected Theme:** `");
    section.append(theme.id.as_str());
    section.append("` - ");
    section.append(theme.name.as_str());
    section.append("\n\n");
    section.append("**Mood:** ");
    section.append(theme.mood.as_str());
    section.append("\n\n");
    let ghost head = section@;
    push_palette(&mut section, &theme.colors);
    let ghost colors = section@;
    section.append("#### Typography\n");
    section.append("- Font: `");
    let font = get_or_na(&theme.typography.font_family, "sans");
    section.append(font.as_str());
    section.append("`\n\n");
    section.append("#### Component Styles\n\n");
    let ghost styles = section@;
    push_sample(&mut section, "**Button (Primary):**\n", &theme.components.button, "primary");
    push_sample(&mut section, "**Card:**\n", &theme.components.card, "default");
    let ghost samples = section@;
    section.append("💡 **Full theme details**: `akatsuki design theme ");
    section.append(theme.id.as_str());
    section.append("`\n");
    proof {
        let t = *theme;
        assert(head =~= "### Color Theme\n\n"@ + "**Selected Theme:** `"@ + t.id@ + "` - "@ + t.name@
            + "\n\n"@ + "**Mood:** "@ + t.mood@ + "\n\n"@);
        assert(styles =~= colors + "#### Typography\n"@ + "- Font: `"@ + or_na(
            t.typography.font_family@,
            "sans"@,
        ) + "`\n\n"@ + "#### Component Styles\n\n"@);
        assert(section@ =~= samples + "💡 **Full theme details**: `akatsuki design theme "@ + t.id@
            + "`\n"@);
        assert(section@ =~= theme_section_of(t));
    }
    section
}


pub open spec fn is_ascii_digit(c: char) -> bool {
    '0' <= c && c <= '9'
}

/// The value of a string of decimal digits.
pub open spec fn digits_value(d: Seq<char>) -> int
    decreases d.len(),
{
    if d.len() == 0 {
        0
    } else {
        10 * digits_value(d.drop_last()) + ((d.last() as u32) as int - ('0' as u32) as int)
    }
}

/// A 32-bit integer written as an optional sign followed by decimal digits;
/// none for anything else or a value out of range.
pub open spec fn i32_value(s: Seq<char>) -> Option<i32> {
    let neg = s.len() > 0 && s[0] == '-';
    let body = if s.len() > 0 && (s[0] == '-' || s[0] == '+') {
        s.drop_first()
    } else {
        s
    };
    let v = if neg {
        -digits_value(body)
    } else {
        digits_value(body)
    };
    if body.len() > 0 && (forall|i: int| 0 <= i < body.len() ==> is_ascii_digit(body[i]))
        && i32::MIN <= v <= i32::MAX {
        Some(v as i32)
    } else {
        None
    }
}

/// Relies on `i32::from_str`: an optional `+` or `-` followed by ASCII
/// digits, within the range of `i32`.
#[verifier::external_body]
fn parse_i32(s: &str) -> (r: Option<i32>)
    ensures
        r == i32_value(s@),
{
    s.parse::<i32>().ok()
}

/// The numeric shade of a scale key; zero when it is not a number.
pub open spec fn shade(k: Seq<char>) -> i32 {
    match i32_value(k) {
        Some(v) => v,
        None => 0,
    }
}

/// Each pair's shade and position.
pub open spec fn keyed(pairs: Seq<(String, String)>) -> Seq<(i32, usize)> {
    Seq::new(pairs.len(), |i: int| (shade(pairs[i].0@), i as usize))
}

/// `x` placed after every item whose key is not greater than its own.
pub open spec fn insert_by_key(s: Seq<(i32, usize)>, x: (i32, usize)) -> Seq<(i32, usize)>
    decreases s.len(),
{
    if s.len() == 0 {
        seq![x]
    } else if x.0 < s[0].0 {
        seq![x] + s
    } else {
        seq![s[0]] + insert_by_key(s.drop_first(), x)
    }
}

/// A stable sort by key.
pub open spec fn sort_by_key(s: Seq<(i32, usize)>) -> Seq<(i32, usize)>
    decreases s.len(),
{
    if s.len() == 0 {
        s
    } else {
        insert_by_key(sort_by_key(s.drop_last()), s.last())
    }
}

/// The pairs of a scale by increasing shade, equal shades in list order.
pub open spec fn by_shade(pairs: Seq<(String, String)>) -> Seq<(String, String)> {
    sort_by_key(keyed(pairs)).map_values(|e: (i32, usize)| pairs[e.1 as int])
}

/// One `- **key**: `value`` line per pair.
pub open spec fn scale_lines(pairs: Seq<(String, String)>) -> Seq<char>
    decreases pairs.len(),
{
    if pairs.len() == 0 {
        Seq::empty()
    } else {
        scale_lines(pairs.drop_last()) + "- **"@ + pairs.last().0@ + "**: `"@ + pairs.last().1@
            + "`\n"@
    }
}

#[verifier::opaque]
pub open spec fn color_scale_of(pairs: Seq<(String, String)>) -> Seq<char> {
    scale_lines(by_shade(pairs)) + "\n"@
}

proof fn lemma_insert_at(s: Seq<(i32, usize)>, x: (i32, usize), j: int)
    requires
        0 <= j <= s.len(),
        forall|k: int| 0 <= k < j ==> s[k].0 <= x.0,
        j < s.len() ==> x.0 < s[j].0,
    ensures
        insert_by_key(s, x) == s.take(j) + seq![x] + s.skip(j),
    decreases s.len(),
{
    if s.len() == 0 {
        assert(s.take(j) + seq![x] + s.skip(j) =~= seq![x]);
    } else if j == 0 {
        assert(s.take(j) + seq![x] + s.skip(j) =~= seq![x] + s);
    } else {
        lemma_insert_at(s.drop_first(), x, j - 1);
        assert(s.take(j) + seq![x] + s.skip(j) =~= seq![s[0]] + (s.drop_first().take(j - 1) + seq![x]
            + s.drop_first().skip(j - 1)));
    }
}

/// Positions of the pairs, by increasing shade.
fn shade_order(pairs: &Vec<(String, String)>) -> (r: Vec<(i32, usize)>)
    ensures
        r@ == sort_by_key(keyed(pairs@)),
{
    let ghost all = keyed(pairs@);
    let mut order: Vec<(i32, usize)> = Vec::new();
    let mut i: usize = 0;
    while i < pairs.len()
        invariant
            0 <= i <= pairs@.len(),
            all == keyed(pairs@),
            order@ == sort_by_key(all.take(i as int)),
            order@.len() == i,
        decreases pairs@.len() - i,
    {
        let key = match parse_i32(pairs[i].0.as_str()) {
            Some(v) => v,
            None => 0,
        };
        let ghost prev = order@;
        let mut j: usize = 0;
        while j < order.len() && order[j].0 <= key
            invariant
                0 <= j <= order@.len(),
                order@ == prev,
                forall|k: int| 0 <= k < j ==> order@[k].0 <= key,
            decreases order@.len() - j,
        {
            j += 1;
        }
        proof {
            lemma_insert_at(prev, (key, i), j as int);
            assert(all.take(i + 1).drop_last() =~= all.take(i as int));
            assert(all[i as int] == (key, i));
        }
        order.insert(j, (key, i));
        assert(order@ =~= prev.take(j as int) + seq![(key, i)] + prev.skip(j as int));
        i += 1;
    }
    assert(all.take(pairs@.len() as int) =~= all);
    order
}

proof fn lemma_sort_len(s: Seq<(i32, usize)>)
    ensures
        sort_by_key(s).len() == s.len(),
    decreases s.len(),
{
    if s.len() > 0 {
        lemma_sort_len(s.drop_last());
        lemma_insert_len(sort_by_key(s.drop_last()), s.last());
    }
}

proof fn lemma_insert_len(s: Seq<(i32, usize)>, x: (i32, usize))
    ensures
        insert_by_key(s, x).len() == s.len() + 1,
    decreases s.len(),
{
    if s.len() > 0 {
        lemma_insert_len(s.drop_first(), x);
    }
}

proof fn lemma_sort_members(s: Seq<(i32, usize)>, k: int)
    requires
        0 <= k < sort_by_key(s).len(),
    ensures
        s.contains(sort_by_key(s)[k]),
    decreases s.len(),
{
    if s.len() > 0 {
        let t = sort_by_key(s.drop_last());
        lemma_sort_len(s.drop_last());
        lemma_insert_members(t, s.last(), k);
        if sort_by_key(s)[k] != s.last() {
            let m = choose|m: int| 0 <= m < t.len() && t[m] == sort_by_key(s)[k];
            lemma_sort_members(s.drop_last(), m);
            let w = choose|w: int| 0 <= w < s.drop_last().len() && s.drop_last()[w] == t[m];
            assert(s[w] == sort_by_key(s)[k]);
        } else {
            assert(s[s.len() - 1] == s.last());
        }
    }
}

proof fn lemma_insert_members(s: Seq<(i32, usize)>, x: (i32, usize), k: int)
    requires
        0 <= k < insert_by_key(s, x).len(),
    ensures
        insert_by_key(s, x)[k] == x || s.contains(insert_by_key(s, x)[k]),
    decreases s.len(),
{
    lemma_insert_len(s, x);
    if s.len() > 0 && x.0 >= s[0].0 && k > 0 {
        lemma_insert_members(s.drop_first(), x, k - 1);
        if insert_by_key(s, x)[k] != x {
            let m = choose|m: int|
                0 <= m < s.drop_first().len() && s.drop_first()[m] == insert_by_key(s, x)[k];
            assert(s[m + 1] == insert_by_key(s, x)[k]);
        }
    } else if s.len() > 0 && x.0 < s[0].0 && k > 0 {
        assert(s[k - 1] == insert_by_key(s, x)[k]);
    } else if s.len() > 0 && k == 0 && x.0 >= s[0].0 {
        assert(s[0] == insert_by_key(s, x)[k]);
    }
}

fn push_scale_line(out: &mut String, key: &str, value: &str)
    ensures
        final(out)@ == old(out)@ + "- **"@ + key@ + "**: `"@ + value@ + "`\n"@,
{
    out.append("- **");
    out.append(key);
    out.append("**: `");
    out.append(value);
    out.append("`\n");
}

/// Appends a color scale, by increasing shade, and a blank line.
fn format_color_scale(md: &mut String, colors: &Vec<(String, String)>)
    ensures
        final(md)@ == old(md)@ + color_scale_of(colors@),
{
    let order = shade_order(colors);
    let ghost sorted = by_shade(colors@);
    proof {
        lemma_sort_len(keyed(colors@));
    }
    let ghost start = md@;
    let mut i: usize = 0;
    while i < order.len()
        invariant
            0 <= i <= order@.len(),
            order@ == sort_by_key(keyed(colors@)),
            order@.len() == colors@.len(),
            sorted == by_shade(colors@),
            md@ == start + scale_lines(sorted.take(i as int)),
        decreases order@.len() - i,
    {
        let idx = order[i].1;
        proof {
            lemma_sort_members(keyed(colors@), i as int);
            let m = choose|m: int| 0 <= m < keyed(colors@).len() && keyed(colors@)[m] == order@[i as int];
            assert(idx as int == m);
        }
        let pair = &colors[idx];
        push_scale_line(md, pair.0.as_str(), pair.1.as_str());
        proof {
            assert(sorted[i as int] == colors@[idx as int]);
            assert(sorted.take(i + 1).drop_last() =~= sorted.take(i as int));
        }
        i += 1;
    }
    assert(sorted.take(order@.len() as int) =~= sorted);
    md.append("\n");
    proof {
        reveal(color_scale_of);
    }
}


/// `**variant**:` and its classes in a css block, per pair.
pub open spec fn variant_blocks(pairs: Seq<(String, String)>) -> Seq<char>
    decreases pairs.len(),
{
    if pairs.len() == 0 {
        Seq::empty()
    } else {
        variant_blocks(pairs.drop_last()) + "**"@ + pairs.last().0@ + "**:\n"@ + "```css\n"@
            + pairs.last().1@ + "\n```\n\n"@
    }
}

/// A semantic color's 500 and 600 shades.
pub open spec fn semantic_line(label: Seq<char>, pairs: Seq<(String, String)>, end: Seq<char>) -> Seq<char> {
    "- **"@ + label + "**: `"@ + or_na(pairs, "500"@) + "` (500), `"@ + or_na(pairs, "600"@)
        + "` (600)\n"@ + end
}

/// Title, identifier, description, mood and use cases.
pub open spec fn overview_of(t: Theme) -> Seq<char> {
    "# "@ + t.name@ + " Theme\n\n"@ + "**ID**: `"@ + t.id@ + "`\n\n"@ + t.description@ + "\n\n"@
        + "**ムード**: "@ + t.mood@ + "\n\n"@ + "**適用例**:\n"@ + bullets(views(t.use_cases@)) + "\n"@
}

/// The color scales, the accent only when it has shades.
pub open spec fn scales_markdown_of(c: ThemeColors) -> Seq<char> {
    "### Primary\n"@ + color_scale_of(c.primary@) + "### Secondary\n"@ + color_scale_of(c.secondary@)
        + (if c.accent@.len() == 0 {
        Seq::empty()
    } else {
        "### Accent\n"@ + color_scale_of(c.accent@)
    }) + "### Neutral\n"@ + color_scale_of(c.neutral@)
}

/// The semantic colors' main and hover shades.
pub open spec fn semantics_markdown_of(c: ThemeColors) -> Seq<char> {
    "### Semantic Colors\n"@ + semantic_line("Success"@, c.success@, Seq::empty()) + semantic_line(
        "Warning"@,
        c.warning@,
        Seq::empty(),
    ) + semantic_line("Error"@, c.error@, "\n"@)
}

pub open spec fn palette_markdown_of(c: ThemeColors) -> Seq<char> {
    "## カラーパレット\n\n"@ + scales_markdown_of(c) + semantics_markdown_of(c)
}

pub open spec fn typography_markdown_of(t: Typography) -> Seq<char> {
    "## タイポグラフィ\n\n"@ + "**Font Family**:\n"@ + "- Sans: `"@ + or_na(t.font_family@, "sans"@)
        + "`\n"@ + "- Mono: `"@ + or_na(t.font_family@, "mono"@) + "`\n\n"@
}

pub open spec fn components_markdown_of(c: Components) -> Seq<char> {
    "## コンポーネント\n\n"@ + "### Button\n"@ + variant_blocks(c.button@) + "### Card\n"@
        + variant_blocks(c.card@) + "### Input\n"@ + variant_blocks(c.input@) + "### Badge\n"@
        + variant_blocks(c.badge@)
}

pub open spec fn usage_markdown_of(e: Examples) -> Seq<char> {
    "## 使用例\n\n"@ + "### Layout\n"@ + e.layout@ + "\n\n"@ + "### Button Group\n"@ + e.button_group@
        + "\n\n"@ + "## このテーマを使う\n\n"@
        + "```bash\n# 新しい設計でこのテーマを参照\nakatsuki design new my-feature\n# 上記Markdownをコピーして設計書の「カラーパレット」セクションに貼り付け\n```\n"@
}

/// The full description of a theme.
pub open spec fn theme_markdown_of(t: Theme) -> Seq<char> {
    overview_of(t) + palette_markdown_of(t.colors) + typography_markdown_of(t.typography)
        + components_markdown_of(t.components) + usage_markdown_of(t.examples)
}

fn push_variant_blocks(out: &mut String, pairs: &Vec<(String, String)>)
    ensures
        final(out)@ == old(out)@ + variant_blocks(pairs@),
{
    let ghost start = out@;
    let mut i: usize = 0;
    while i < pairs.len()
        invariant
            0 <= i <= pairs@.len(),
            out@ == start + variant_blocks(pairs@.take(i as int)),
        decreases pairs@.len() - i,
    {
        out.append("**");
        out.append(pairs[i].0.as_str());
        out.append("**:\n");
        out.append("```css\n");
        out.append(pairs[i].1.as_str());
        out.append("\n```\n\n");
        proof {
            assert(pairs@.take(i + 1).drop_last() =~= pairs@.take(i as int));
            assert(out@ =~= start + variant_blocks(pairs@.take(i + 1)));
        }
        i += 1;
    }
    assert(pairs@.take(pairs@.len() as int) =~= pairs@);
}

fn push_semantic_line(out: &mut String, label: &str, pairs: &Vec<(String, String)>, end: &str)
    ensures
        final(out)@ == old(out)@ + semantic_line(label@, pairs@, end@),
{
    let main = get_or_na(pairs, "500");
    let hover = get_or_na(pairs, "600");
    out.append("- **");
    out.append(label);
    out.append("**: `");
    out.append(main.as_str());
    out.append("` (500), `");
    out.append(hover.as_str());
    out.append("` (600)\n");
    out.append(end);
    assert(final(out)@ =~= old(out)@ + semantic_line(label@, pairs@, end@));
}

fn push_overview(md: &mut String, t: &Theme)
    ensures
        final(md)@ == old(md)@ + overview_of(*t),
{
    let ghost start = md@;
    md.append("# ");
    md.append(t.name.as_str());
    md.append(" Theme\n\n");
    md.append("**ID**: `");
    md.append(t.id.as_str());
    md.append("`\n\n");
    md.append(t.description.as_str());
    md.append("\n\n");
    md.append("**ムード**: ");
    md.append(t.mood.as_str());
    md.append("\n\n");
    md.append("**適用例**:\n");
    let ghost before = md@;
    let mut i: usize = 0;
    while i < t.use_cases.len()
        invariant
            0 <= i <= t.use_cases@.len(),
            md@ == before + bullets(views(t.use_cases@).take(i as int)),
        decreases t.use_cases@.len() - i,
    {
        md.append("- ");
        md.append(t.use_cases[i].as_str());
        md.append("\n");
        proof {
            let v = views(t.use_cases@);
            assert(v.take(i + 1).drop_last() =~= v.take(i as int));
            assert(md@ =~= before + bullets(v.take(i + 1)));
        }
        i += 1;
    }
    assert(views(t.use_cases@).take(t.use_cases@.len() as int) =~= views(t.use_cases@));
    md.append("\n");
    assert(md@ =~= start + overview_of(*t));
}

fn push_scales(md: &mut String, c: &ThemeColors)
    ensures
        final(md)@ == old(md)@ + scales_markdown_of(*c),
{
    let ghost start = md@;
    md.append("### Primary\n");
    format_color_scale(md, &c.primary);
    md.append("### Secondary\n");
    format_color_scale(md, &c.secondary);
    let ghost mid = md@;
    assert(mid =~= start + "### Primary\n"@ + color_scale_of(c.primary@) + "### Secondary\n"@
        + color_scale_of(c.secondary@));
    if c.accent.len() > 0 {
        md.append("### Accent\n");
        format_color_scale(md, &c.accent);
    }
    let ghost accent = md@;
    assert(accent =~= mid + (if c.accent@.len() == 0 {
        Seq::empty()
    } else {
        "### Accent\n"@ + color_scale_of(c.accent@)
    }));
    md.append("### Neutral\n");
    format_color_scale(md, &c.neutral);
    assert(md@ =~= start + scales_markdown_of(*c));
}

fn push_palette_markdown(md: &mut String, c: &ThemeColors)
    ensures
        final(md)@ == old(md)@ + palette_markdown_of(*c),
{
    let ghost start = md@;
    md.append("## カラーパレット\n\n");
    push_scales(md, c);
    let ghost scales = md@;
    md.append("### Semantic Colors\n");
    push_semantic_line(md, "Success", &c.success, "");
    push_semantic_line(md, "Warning", &c.warning, "");
    push_semantic_line(md, "Error", &c.error, "\n");
    proof {
        reveal_strlit("");
        assert(""@ =~= Seq::<char>::empty());
        assert(md@ =~= scales + semantics_markdown_of(*c));
        assert(md@ =~= start + palette_markdown_of(*c));
    }
}

fn push_rest(md: &mut String, t: &Theme)
    ensures
        final(md)@ == old(md)@ + typography_markdown_of(t.typography) + components_markdown_of(
            t.components,
        ) + usage_markdown_of(t.examples),
{
    let ghost start = md@;
    md.append("## タイポグラフィ\n\n");
    md.append("**Font Family**:\n");
    md.append("- Sans: `");
    let sans = get_or_na(&t.typography.font_family, "sans");
    md.append(sans.as_str());
    md.append("`\n");
    md.append("- Mono: `");
    let mono = get_or_na(&t.typography.font_family, "mono");
    md.append(mono.as_str());
    md.append("`\n\n");
    let ghost typo = md@;
    assert(typo =~= start + typography_markdown_of(t.typography));
    md.append("## コンポーネント\n\n");
    md.append("### Button\n");
    push_variant_blocks(md, &t.components.button);
    md.append("### Card\n");
    push_variant_blocks(md, &t.components.card);
    md.append("### Input\n");
    push_variant_blocks(md, &t.components.input);
    md.append("### Badge\n");
    push_variant_blocks(md, &t.components.badge);
    let ghost comps = md@;
    assert(comps =~= typo + components_markdown_of(t.components));
    md.append("## 使用例\n\n");
    md.append("### Layout\n");
    md.append(t.examples.layout.as_str());
    md.append("\n\n");
    md.append("### Button Group\n");
    md.append(t.examples.button_group.as_str());
    md.append("\n\n");
    md.append("## このテーマを使う\n\n");
    md.append(
        "```bash\n# 新しい設計でこのテーマを参照\nakatsuki design new my-feature\n# 上記Markdownをコピーして設計書の「カラーパレット」セクションに貼り付け\n```\n",
    );
    assert(md@ =~= comps + usage_markdown_of(t.examples));
}

impl Theme {
    /// The full description of the theme, in markdown: overview, color
    /// scales by increasing shade, typography, component classes and usage.
    pub fn to_markdown(&self) -> (r: String)
        ensures
            r@ == theme_markdown_of(*self),
    {
        let mut md = String::new();
        push_overview(&mut md, self);
        push_palette_markdown(&mut md, &self.colors);
        push_rest(&mut md, self);
        assert(md@ =~= theme_markdown_of(*self));
        md
    }
}

} // verus!
