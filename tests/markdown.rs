use akatsuki::markdown::{
    categorize_file, find, generate_component_section, has_empty_sections, replace_color_theme_section,
    replace_section, filter_docs, ComponentDoc, SectionError, SyncStats,
};

#[test]
fn find_reports_first_character_index() {
    assert_eq!(find("abcabc", "bc"), Some(1));
    assert_eq!(find("abc", ""), Some(0));
    assert_eq!(find("abc", "abcd"), None);
    assert_eq!(find("ümlaut ü", "ü"), Some(0));
    assert_eq!(find("aü b", " b"), Some(2));
}

#[test]
fn color_theme_section_is_spliced() {
    let doc = "# Doc\n### Color Theme\nold\n### Layout Pattern\nrest";
    assert_eq!(
        replace_color_theme_section(doc, "### Color Theme\nnew"),
        "# Doc\n### Color Theme\nnew\n### Layout Pattern\nrest"
    );
    assert_eq!(replace_color_theme_section("no markers", "x"), "no markers");
}

#[test]
fn component_section_between_markers() {
    let doc = "a<!-- SYNC:COMPONENTS:START -->old<!-- SYNC:COMPONENTS:END -->b";
    assert_eq!(
        replace_section(doc, "new\n").unwrap(),
        "a<!-- SYNC:COMPONENTS:START -->\nnew\n<!-- SYNC:COMPONENTS:END -->b"
    );
    assert_eq!(replace_section("x", "y"), Err(SectionError::MissingStart));
    assert_eq!(replace_section("<!-- SYNC:COMPONENTS:START -->", "y"), Err(SectionError::MissingEnd));
    assert_eq!(
        replace_section("<!-- SYNC:COMPONENTS:END --><!-- SYNC:COMPONENTS:START -->", "y"),
        Err(SectionError::Misordered)
    );
}

#[test]
fn component_categories() {
    assert_eq!(categorize_file("src/components/layout/Nav.tsx"), "Layout");
    assert_eq!(categorize_file("src/components/admin/auth/X.tsx"), "Authentication");
    assert_eq!(categorize_file("src/components/features/x/Y.tsx"), "Features");
    assert_eq!(categorize_file("src/components/Button.tsx"), "Other");
}

#[test]
fn empty_sections_are_found() {
    assert!(has_empty_sections("## A\n\n  \n## B\ntext"));
    assert!(has_empty_sections("## A\r\n## B"));
    assert!(!has_empty_sections("## A\nbody\n## B\nbody"));
    assert!(!has_empty_sections("# Title\n## Only"));
    assert!(!has_empty_sections(""));
    assert!(has_empty_sections("\t## A\n\u{3000}\n   ### B"));
}

#[test]
fn component_section_reports_counts() {
    let stats = SyncStats {
        components_count: 42,
        models_count: 5,
        models_coverage: 80,
        repos_count: 3,
        repos_coverage: 100,
        services_count: 0,
        services_coverage: 0,
        hooks_count: 7,
        hooks_coverage: 50,
        pages_count: 9,
        pages_coverage: 10,
    };
    let section = generate_component_section(&stats);
    assert!(section.starts_with("- 認証: `AuthGuard`, `LoginForm`, `SignupForm`\n"));
    assert!(section.ends_with(
        "- UI: shadcn/ui 42コンポーネント（`components/ui/`）\n- Models: 5クラス（80%ドキュメント化）\n- Repositories: 3クラス（100%ドキュメント化）\n- Services: 0クラス（0%ドキュメント化）\n"
    ));
}

#[test]
fn docs_are_filtered_by_keyword_ignoring_case() {
    let doc = |p: &str, s: &str, c: &str| ComponentDoc {
        file_path: p.to_string(),
        summary: s.to_string(),
        category: c.to_string(),
    };
    let docs = vec![
        doc("src/components/layout/Nav.tsx", "Top navigation", "Layout"),
        doc("src/components/auth/Login.tsx", "Login form", "Authentication"),
        doc("src/components/Card.tsx", "A card", "Other"),
    ];
    assert_eq!(filter_docs(&docs, None).len(), 3);
    let found = filter_docs(&docs, Some("LAYOUT"));
    assert_eq!(found.len(), 1);
    assert_eq!(found[0].summary, "Top navigation");
    let found = filter_docs(&docs, Some("form"));
    assert_eq!(found[0].category, "Authentication");
    assert!(filter_docs(&docs, Some("missing")).is_empty());
}
