use akatsuki::theme::{generate_theme_section_for_insertion, Components, Examples, Theme, ThemeColors, Typography};

fn pairs(items: &[(&str, &str)]) -> Vec<(String, String)> {
    items.iter().map(|(k, v)| (k.to_string(), v.to_string())).collect()
}

fn theme() -> Theme {
    Theme {
        name: "Corporate Blue".to_string(),
        id: "corporate-blue".to_string(),
        description: "Calm".to_string(),
        mood: "trustworthy".to_string(),
        use_cases: vec!["dashboards".to_string()],
        colors: ThemeColors {
            primary: pairs(&[("500", "#3b82f6"), ("600", "#2563eb")]),
            secondary: vec![],
            accent: vec![],
            neutral: pairs(&[("50", "#f9fafb"), ("900", "#111827")]),
            success: pairs(&[("500", "#22c55e")]),
            warning: vec![],
            error: pairs(&[("500", "#ef4444")]),
        },
        typography: Typography { font_family: pairs(&[("sans", "Inter")]), font_size: vec![], line_height: vec![] },
        spacing: vec![],
        border_radius: vec![],
        components: Components {
            button: pairs(&[("primary", "bg-blue-500")]),
            card: vec![],
            input: vec![],
            badge: vec![],
        },
        examples: Examples { layout: String::new(), button_group: String::new() },
    }
}

#[test]
fn theme_section_uses_values_and_placeholders() {
    let section = generate_theme_section_for_insertion(&theme());
    let expected = "### Color Theme\n\n\
**Selected Theme:** `corporate-blue` - Corporate Blue\n\n\
**Mood:** trustworthy\n\n\
#### Primary Colors\n\
- Main: `#3b82f6` (500)\n\
- Hover: `#2563eb` (600)\n\
- Active: `N/A` (700)\n\n\
#### Neutral Colors\n\
- Background: `#f9fafb` (50)\n\
- Text: `#111827` (900)\n\n\
#### Semantic Colors\n\
- Success: `#22c55e` (500)\n\
- Warning: `N/A` (500)\n\
- Error: `#ef4444` (500)\n\n\
#### Typography\n\
- Font: `Inter`\n\n\
#### Component Styles\n\n\
**Button (Primary):**\n\
```css\nbg-blue-500\n```\n\n\
💡 **Full theme details**: `akatsuki design theme corporate-blue`\n";
    assert_eq!(section, expected);
}

#[test]
fn theme_markdown_orders_shades_numerically() {
    let mut t = theme();
    t.colors.primary = pairs(&[("600", "#2563eb"), ("50", "#eff6ff"), ("base", "#000"), ("500", "#3b82f6")]);
    let md = t.to_markdown();
    assert!(md.starts_with("# Corporate Blue Theme\n\n**ID**: `corporate-blue`\n\nCalm\n\n**ムード**: trustworthy\n\n**適用例**:\n- dashboards\n\n## カラーパレット\n\n"));
    assert!(md.contains(
        "### Primary\n- **base**: `#000`\n- **50**: `#eff6ff`\n- **500**: `#3b82f6`\n- **600**: `#2563eb`\n\n### Secondary\n\n### Neutral\n"
    ));
    assert!(!md.contains("### Accent"));
    assert!(md.contains("- **Warning**: `N/A` (500), `N/A` (600)\n- **Error**: `#ef4444` (500), `N/A` (600)\n\n## タイポグラフィ\n\n"));
    assert!(md.contains("- Sans: `Inter`\n- Mono: `N/A`\n\n"));
    assert!(md.contains("### Button\n**primary**:\n```css\nbg-blue-500\n```\n\n### Card\n### Input\n### Badge\n## 使用例\n\n"));
    assert!(md.ends_with("```bash\n# 新しい設計でこのテーマを参照\nakatsuki design new my-feature\n# 上記Markdownをコピーして設計書の「カラーパレット」セクションに貼り付け\n```\n"));
}
