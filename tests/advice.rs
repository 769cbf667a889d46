use akatsuki::advice::{build_ai_prompt, AIContext, Advice, Detection, DetectionCategory, DetectorKind, RuleEngine};
use akatsuki::commands::{ApiCommand, BuildCommand};
use akatsuki::util::{to_title_case, validate_feature_name, CliError};

#[test]
fn advice_orders_by_priority_and_lists_steps() {
    let engine = RuleEngine::new();
    assert_eq!(engine.detectors().len(), 6);
    assert_eq!(engine.detectors()[0], DetectorKind::Git);
    let advice = engine.analyze(vec![
        Detection::new(DetectionCategory::UncommittedChanges, "3 files changed".to_string(), 5),
        Detection::new(DetectionCategory::FailingTests, "2 tests fail".to_string(), 1),
        Detection::new(DetectionCategory::PendingMigration, "1 migration".to_string(), 5),
    ]);
    assert_eq!(advice.situation, vec!["2 tests fail", "3 files changed", "1 migration"]);
    assert_eq!(advice.steps[0], "Fix failing tests first (highest priority)");
    assert_eq!(advice.steps[2], "Review migration files: ls -la supabase/migrations/");
    assert_eq!(advice.steps.last().unwrap(), "Commit changes: git add . && git commit -m \"...\"");
    assert_eq!(advice.steps.len(), 2 + 3 + 2);
    assert!(advice.hints.is_none());
}

#[test]
fn clean_project_gets_workflows() {
    let advice = RuleEngine::new().analyze(vec![Detection::new(
        DetectionCategory::Clean,
        "clean".to_string(),
        9,
    )]);
    assert_eq!(advice.situation, vec!["Working directory clean", "No pending migrations", "All checks passing"]);
    assert!(advice.steps.is_empty());
    assert_eq!(advice.hints.unwrap()[0], "Common workflows:");
}

#[test]
fn feature_names() {
    assert!(validate_feature_name("user-dashboard-2"));
    assert!(!validate_feature_name(""));
    assert!(!validate_feature_name("User"));
    assert!(!validate_feature_name("a_b"));
    assert_eq!(to_title_case("user-dashboard"), "User Dashboard");
    assert_eq!(to_title_case(""), "");
}

#[test]
fn error_messages() {
    assert_eq!(CliError::FileNotFound("a.md".to_string()).message(), "File not found: a.md");
    assert_eq!(
        CliError::InvalidFeatureName("X".to_string()).message(),
        "Invalid feature name: X. Use kebab-case (lowercase, numbers, hyphens only)"
    );
}

#[test]
fn command_handles() {
    assert_eq!(ApiCommand::new(), ApiCommand);
    assert_eq!(BuildCommand::new(), BuildCommand);
}

#[test]
fn prompt_lists_situation_context_steps_and_question() {
    let advice = Advice {
        situation: vec!["1 migration".to_string()],
        steps: vec!["Apply migrations".to_string(), "Verify".to_string()],
        hints: None,
    };
    let context = AIContext {
        git_history: "abc fix\n".to_string(),
        modified_files: vec!["src/a.rs".to_string()],
        docs_coverage: String::new(),
        file_structure: "src/".to_string(),
    };
    let prompt = build_ai_prompt(&advice, &context, None);
    let expected = "# VibeCoding Project Analysis\n\n## 📍 Current Situation\n\n- 1 migration\n\n\
## 📜 Recent Git Activity\n\n```\nabc fix\n```\n\n\
## 📝 Modified Files (uncommitted)\n\n- src/a.rs\n\n\
## 🗂️  Project Structure\n\n```\nsrc/\n```\n\n\
## 💡 Static Rule Recommendations\n\n1. Apply migrations\n2. Verify\n\n\
## ❓ Question\n\nBased on the current project state, what should I work on next? Please provide specific, actionable steps.\n";
    assert_eq!(prompt, expected);
    let empty = Advice { situation: vec![], steps: vec![], hints: None };
    let prompt = build_ai_prompt(&empty, &AIContext::default(), Some("Why?"));
    assert!(prompt.contains("- No issues detected (clean state)\n"));
    assert!(prompt.ends_with("## ❓ Question\n\nWhy?\n"));
    assert!(!prompt.contains("Static Rule"));
}
