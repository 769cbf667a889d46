//! Rule-based advice: the detections made on a project, ordered by
//! priority, become a situation report, recommended steps and hints.
use vstd::prelude::*;
use crate::strutil::{owned, views, push_decimal, decimal};

verus! {

/// What a detector found.
#[derive(Debug, Clone, Copy, PartialEq, Eq, Structural)]
pub enum DetectionCategory {
    PendingMigration,
    UncommittedChanges,
    LintError,
    TypeCheckError,
    FormatError,
    FailingTests,
    MissingTests,
    LowCoverage,
    CodeComplexity,
    DuplicateCode,
    RefactoringNeeded,
    DesignDocument,
    IncompleteDesignDoc,
    MissingDesignDoc,
    CheckRequired,
    Clean,
}

/// One finding on the project; a lower `priority` comes first.
#[derive(Debug, Clone)]
pub struct Detection {
    pub category: DetectionCategory,
    pub message: String,
    pub priority: u8,
}

impl Detection {
    pub fn new(category: DetectionCategory, message: String, priority: u8) -> (r: Self)
        ensures
            r.category == category,
            r.message@ == message@,
            r.priority == priority,
    {
        Detection { category, message, priority }
    }
}

/// The detectors that examine a project, each for its own area.
#[derive(Debug, Clone, Copy, PartialEq, Eq, Structural)]
pub enum DetectorKind {
    Git,
    Migration,
    CodeQuality,
    Test,
    Refactor,
    Docs,
}

/// The advice shown to the user.
#[derive(Debug, Clone)]
pub struct Advice {
    pub situation: Vec<String>,
    pub steps: Vec<String>,
    pub hints: Option<Vec<String>>,
}

pub struct DetectionView {
    pub category: DetectionCategory,
    pub message: Seq<char>,
    pub priority: u8,
}

impl View for Detection {
    type V = DetectionView;

    open spec fn view(&self) -> DetectionView {
        DetectionView { category: self.category, message: self.message@, priority: self.priority }
    }
}

pub open spec fn detection_views(s: Seq<Detection>) -> Seq<DetectionView> {
    s.map_values(|d: Detection| d@)
}

/// The detections of priority `p` and above, grouped by priority in
/// increasing order, each group in the order given.
pub open spec fn from_priority(s: Seq<DetectionView>, p: int) -> Seq<DetectionView>
    decreases 256 - p,
{
    if p >= 256 {
        Seq::empty()
    } else {
        s.filter(at_priority(p)) + from_priority(s, p + 1)
    }
}

pub open spec fn at_priority(p: int) -> spec_fn(DetectionView) -> bool {
    |d: DetectionView| d.priority == p
}

/// The detections of priority below `p`, grouped by increasing priority.
pub open spec fn below_priority(s: Seq<DetectionView>, p: int) -> Seq<DetectionView>
    decreases p,
{
    if p <= 0 {
        Seq::empty()
    } else {
        below_priority(s, p - 1) + s.filter(at_priority(p - 1))
    }
}

proof fn lemma_priority_split(s: Seq<DetectionView>, p: int)
    requires
        0 <= p <= 256,
    ensures
        below_priority(s, p) + from_priority(s, p) == by_priority(s),
    decreases p,
{
    if p > 0 {
        lemma_priority_split(s, p - 1);
        assert(below_priority(s, p) + from_priority(s, p) =~= below_priority(s, p - 1) + from_priority(
            s,
            p - 1,
        ));
    } else {
        assert(below_priority(s, p) + from_priority(s, p) =~= from_priority(s, 0));
    }
}

/// The detections in a stable order of increasing priority.
pub open spec fn by_priority(s: Seq<DetectionView>) -> Seq<DetectionView> {
    from_priority(s, 0)
}

pub open spec fn has(s: Seq<DetectionView>, c: DetectionCategory) -> bool {
    exists|i: int| 0 <= i < s.len() && s[i].category == c
}

pub open spec fn failing(s: Seq<DetectionView>) -> bool {
    has(s, DetectionCategory::FailingTests)
}

pub open spec fn lint(s: Seq<DetectionView>) -> bool {
    has(s, DetectionCategory::LintError) || has(s, DetectionCategory::TypeCheckError)
}

pub open spec fn migration(s: Seq<DetectionView>) -> bool {
    has(s, DetectionCategory::PendingMigration)
}

pub open spec fn uncommitted(s: Seq<DetectionView>) -> bool {
    has(s, DetectionCategory::UncommittedChanges)
}

pub open spec fn missing_tests(s: Seq<DetectionView>) -> bool {
    has(s, DetectionCategory::MissingTests) || has(s, DetectionCategory::LowCoverage)
}

pub open spec fn refactoring(s: Seq<DetectionView>) -> bool {
    has(s, DetectionCategory::CodeComplexity) || has(s, DetectionCategory::RefactoringNeeded)
}

pub open spec fn incomplete_docs(s: Seq<DetectionView>) -> bool {
    has(s, DetectionCategory::IncompleteDesignDoc) || has(s, DetectionCategory::MissingDesignDoc)
}

/// A clean report with nothing pending, failing or uncommitted.
pub open spec fn clean_state(s: Seq<DetectionView>) -> bool {
    has(s, DetectionCategory::Clean) && !migration(s) && !uncommitted(s) && !failing(s) && !lint(s)
}

pub open spec fn when(c: bool, block: Seq<Seq<char>>) -> Seq<Seq<char>> {
    if c {
        block
    } else {
        Seq::empty()
    }
}

/// Lines for failing tests come first.
pub open spec fn failing_lines() -> Seq<Seq<char>> {
    seq![
        "Fix failing tests first (highest priority)"@,
        "Run tests: npm test (frontend) or cargo test (Rust)"@,
    ]
}

fn push_failing_lines(v: &mut Vec<String>)
    ensures
        views(final(v)@) == views(old(v)@) + failing_lines(),
{
    let ghost prev = views(v@);
    v.push(owned("Fix failing tests first (highest priority)"));
    v.push(owned("Run tests: npm test (frontend) or cargo test (Rust)"));
    assert(views(v@) =~= prev + failing_lines());
}

/// Lines for lint or type errors.
pub open spec fn lint_lines() -> Seq<Seq<char>> {
    seq![
        "Fix code quality issues:"@,
        "  - Run type check: npx tsc --noEmit"@,
        "  - Run linter: npx eslint src --fix"@,
        "  - Or use: akatsuki check"@,
    ]
}

fn push_lint_lines(v: &mut Vec<String>)
    ensures
        views(final(v)@) == views(old(v)@) + lint_lines(),
{
    let ghost prev = views(v@);
    v.push(owned("Fix code quality issues:"));
    v.push(owned("  - Run type check: npx tsc --noEmit"));
    v.push(owned("  - Run linter: npx eslint src --fix"));
    v.push(owned("  - Or use: akatsuki check"));
    assert(views(v@) =~= prev + lint_lines());
}

/// Lines for pending migrations.
pub open spec fn migration_lines() -> Seq<Seq<char>> {
    seq![
        "Review migration files: ls -la supabase/migrations/"@,
        "Apply migrations: akatsuki db push"@,
        "Verify schema changes in database"@,
    ]
}

fn push_migration_lines(v: &mut Vec<String>)
    ensures
        views(final(v)@) == views(old(v)@) + migration_lines(),
{
    let ghost prev = views(v@);
    v.push(owned("Review migration files: ls -la supabase/migrations/"));
    v.push(owned("Apply migrations: akatsuki db push"));
    v.push(owned("Verify schema changes in database"));
    assert(views(v@) =~= prev + migration_lines());
}

/// Lines for checks to run before committing, when nothing is failing.
pub open spec fn precommit_lines() -> Seq<Seq<char>> {
    seq![
        "Run checks: akatsuki check"@,
        "Run tests: akatsuki test"@,
    ]
}

fn push_precommit_lines(v: &mut Vec<String>)
    ensures
        views(final(v)@) == views(old(v)@) + precommit_lines(),
{
    let ghost prev = views(v@);
    v.push(owned("Run checks: akatsuki check"));
    v.push(owned("Run tests: akatsuki test"));
    assert(views(v@) =~= prev + precommit_lines());
}

/// Lines for uncommitted changes.
pub open spec fn commit_lines() -> Seq<Seq<char>> {
    seq![
        "Review changes: git diff"@,
        "Commit changes: git add . && git commit -m \"...\""@,
    ]
}

fn push_commit_lines(v: &mut Vec<String>)
    ensures
        views(final(v)@) == views(old(v)@) + commit_lines(),
{
    let ghost prev = views(v@);
    v.push(owned("Review changes: git diff"));
    v.push(owned("Commit changes: git add . && git commit -m \"...\""));
    assert(views(v@) =~= prev + commit_lines());
}

/// Lines for missing tests or low coverage.
pub open spec fn missing_tests_lines() -> Seq<Seq<char>> {
    seq![
        "Consider adding test coverage:"@,
        "  - Create test files: *.test.ts or *.spec.ts"@,
        "  - Run tests: npm test"@,
    ]
}

fn push_missing_tests_lines(v: &mut Vec<String>)
    ensures
        views(final(v)@) == views(old(v)@) + missing_tests_lines(),
{
    let ghost prev = views(v@);
    v.push(owned("Consider adding test coverage:"));
    v.push(owned("  - Create test files: *.test.ts or *.spec.ts"));
    v.push(owned("  - Run tests: npm test"));
    assert(views(v@) =~= prev + missing_tests_lines());
}

/// Lines for code health hints.
pub open spec fn refactor_lines() -> Seq<Seq<char>> {
    seq![
        "Code health suggestions:"@,
        "  - Break down large files into smaller modules"@,
        "  - Reduce nesting depth with early returns or helper functions"@,
        "  - Consider extracting complex logic into separate functions"@,
        ""@,
    ]
}

fn push_refactor_lines(v: &mut Vec<String>)
    ensures
        views(final(v)@) == views(old(v)@) + refactor_lines(),
{
    let ghost prev = views(v@);
    v.push(owned("Code health suggestions:"));
    v.push(owned("  - Break down large files into smaller modules"));
    v.push(owned("  - Reduce nesting depth with early returns or helper functions"));
    v.push(owned("  - Consider extracting complex logic into separate functions"));
    v.push(owned(""));
    assert(views(v@) =~= prev + refactor_lines());
}

/// Lines for incomplete or missing design documents.
pub open spec fn docs_lines() -> Seq<Seq<char>> {
    seq![
        "Complete design documentation:"@,
        "  - Fill in TODO/TBD sections in *-design.md files"@,
        "  - Document key decisions and trade-offs"@,
    ]
}

fn push_docs_lines(v: &mut Vec<String>)
    ensures
        views(final(v)@) == views(old(v)@) + docs_lines(),
{
    let ghost prev = views(v@);
    v.push(owned("Complete design documentation:"));
    v.push(owned("  - Fill in TODO/TBD sections in *-design.md files"));
    v.push(owned("  - Document key decisions and trade-offs"));
    assert(views(v@) =~= prev + docs_lines());
}

/// Lines for the situation of a clean project.
pub open spec fn clean_situation_lines() -> Seq<Seq<char>> {
    seq![
        "Working directory clean"@,
        "No pending migrations"@,
        "All checks passing"@,
    ]
}

fn push_clean_situation_lines(v: &mut Vec<String>)
    ensures
        views(final(v)@) == views(old(v)@) + clean_situation_lines(),
{
    let ghost prev = views(v@);
    v.push(owned("Working directory clean"));
    v.push(owned("No pending migrations"));
    v.push(owned("All checks passing"));
    assert(views(v@) =~= prev + clean_situation_lines());
}

/// Lines for the common workflows shown on a clean project.
pub open spec fn workflows_lines() -> Seq<Seq<char>> {
    seq![
        "Common workflows:"@,
        "  New feature:"@,
        "    1. akatsuki design new <name>"@,
        "    2. akatsuki db migration-new <name>"@,
        "    3. Implement features"@,
        "    4. Add tests"@,
        "    5. akatsuki check"@,
        ""@,
        "  Documentation:"@,
        "    akatsuki docs components"@,
        "    akatsuki docs models"@,
        ""@,
        "  Code quality:"@,
        "    Review code for refactoring opportunities"@,
        "    Improve test coverage"@,
    ]
}

fn push_workflows_lines(v: &mut Vec<String>)
    ensures
        views(final(v)@) == views(old(v)@) + workflows_lines(),
{
    let ghost prev = views(v@);
    v.push(owned("Common workflows:"));
    v.push(owned("  New feature:"));
    v.push(owned("    1. akatsuki design new <name>"));
    v.push(owned("    2. akatsuki db migration-new <name>"));
    v.push(owned("    3. Implement features"));
    v.push(owned("    4. Add tests"));
    v.push(owned("    5. akatsuki check"));
    v.push(owned(""));
    v.push(owned("  Documentation:"));
    v.push(owned("    akatsuki docs components"));
    v.push(owned("    akatsuki docs models"));
    v.push(owned(""));
    v.push(owned("  Code quality:"));
    v.push(owned("    Review code for refactoring opportunities"));
    v.push(owned("    Improve test coverage"));
    assert(views(v@) =~= prev + workflows_lines());
}

/// The messages of the detections other than the clean report, in order.
pub open spec fn situation_messages(s: Seq<DetectionView>) -> Seq<Seq<char>> {
    s.filter(|d: DetectionView| d.category != DetectionCategory::Clean).map_values(
        |d: DetectionView| d.message,
    )
}

pub open spec fn situation_of(sorted: Seq<DetectionView>) -> Seq<Seq<char>> {
    situation_messages(sorted) + when(clean_state(sorted), clean_situation_lines())
}

/// The recommended steps: failing tests first, then code quality,
/// migrations, uncommitted work, tests and design documents.
pub open spec fn steps_of(s: Seq<DetectionView>) -> Seq<Seq<char>> {
    when(failing(s), failing_lines()) + when(lint(s), lint_lines()) + when(migration(s), migration_lines())
        + when(uncommitted(s) && !failing(s) && !lint(s), precommit_lines()) + when(
        uncommitted(s),
        commit_lines(),
    ) + when(missing_tests(s), missing_tests_lines()) + when(incomplete_docs(s), docs_lines())
}

pub open spec fn hint_lines_of(s: Seq<DetectionView>) -> Seq<Seq<char>> {
    when(refactoring(s), refactor_lines()) + when(clean_state(s), workflows_lines())
}

/// The hints, if there are any.
pub open spec fn hints_of(s: Seq<DetectionView>) -> Option<Seq<Seq<char>>> {
    if hint_lines_of(s).len() == 0 {
        None
    } else {
        Some(hint_lines_of(s))
    }
}

pub open spec fn opt_lines(o: Option<Vec<String>>) -> Option<Seq<Seq<char>>> {
    match o {
        Some(v) => Some(views(v@)),
        None => None,
    }
}


fn copy_detection(d: &Detection) -> (r: Detection)
    ensures
        r@ == d@,
{
    Detection { category: d.category, message: d.message.clone(), priority: d.priority }
}

/// The detections in a stable order of increasing priority.
fn sort_by_priority(ds: &Vec<Detection>) -> (r: Vec<Detection>)
    ensures
        detection_views(r@) == by_priority(detection_views(ds@)),
{
    let ghost s = detection_views(ds@);
    let mut r: Vec<Detection> = Vec::new();
    let mut p: u16 = 0;
    while p < 256
        invariant
            p <= 256,
            s == detection_views(ds@),
            detection_views(r@) == below_priority(s, p as int),
        decreases 256 - p,
    {
        let mut i: usize = 0;
        while i < ds.len()
            invariant
                p < 256,
                0 <= i <= ds@.len(),
                s == detection_views(ds@),
                detection_views(r@) == below_priority(s, p as int) + s.take(i as int).filter(
                    at_priority(p as int),
                ),
            decreases ds@.len() - i,
        {
            proof {
                crate::schema::lemma_filter_take_step(s, at_priority(p as int), i as int);
            }
            if ds[i].priority as u16 == p {
                let ghost prev = r@;
                let d = copy_detection(&ds[i]);
                r.push(d);
                assert(detection_views(r@) =~= detection_views(prev).push(d@));
                assert(detection_views(r@) =~= below_priority(s, p as int) + s.take(i + 1).filter(
                    at_priority(p as int),
                ));
            }
            i += 1;
        }
        assert(s.take(s.len() as int) =~= s);
        assert(below_priority(s, p + 1) == below_priority(s, p as int) + s.filter(at_priority(p as int)));
        p += 1;
    }
    proof {
        lemma_priority_split(s, 256);
        assert(from_priority(s, 256) =~= Seq::<DetectionView>::empty());
        assert(below_priority(s, 256) + from_priority(s, 256) =~= below_priority(s, 256));
    }
    r
}

fn has_category(ds: &Vec<Detection>, c: DetectionCategory) -> (r: bool)
    ensures
        r == has(detection_views(ds@), c),
{
    let mut i: usize = 0;
    while i < ds.len()
        invariant
            0 <= i <= ds@.len(),
            forall|k: int| 0 <= k < i ==> ds@[k].category != c,
        decreases ds@.len() - i,
    {
        if ds[i].category == c {
            assert(detection_views(ds@)[i as int].category == c);
            return true;
        }
        i += 1;
    }
    false
}

fn situation_lines(ds: &Vec<Detection>) -> (r: Vec<String>)
    ensures
        views(r@) == situation_messages(detection_views(ds@)),
{
    let ghost s = detection_views(ds@);
    let ghost keep = |d: DetectionView| d.category != DetectionCategory::Clean;
    let ghost msg = |d: DetectionView| d.message;
    let mut r: Vec<String> = Vec::new();
    let mut i: usize = 0;
    while i < ds.len()
        invariant
            0 <= i <= ds@.len(),
            s == detection_views(ds@),
            keep == (|d: DetectionView| d.category != DetectionCategory::Clean),
            msg == (|d: DetectionView| d.message),
            views(r@) == s.take(i as int).filter(keep).map_values(msg),
        decreases ds@.len() - i,
    {
        proof {
            crate::schema::lemma_filter_take_step(s, keep, i as int);
        }
        if ds[i].category != DetectionCategory::Clean {
            let ghost prev = r@;
            r.push(ds[i].message.clone());
            assert(views(r@) =~= views(prev).push(s[i as int].message));
            assert(s.take(i + 1).filter(keep).map_values(msg) =~= s.take(i as int).filter(
                keep,
            ).map_values(msg).push(msg(s[i as int])));
        }
        i += 1;
    }
    assert(s.take(s.len() as int) =~= s);
    r
}

/// Runs the detectors in order and turns their findings into advice.
pub struct RuleEngine {
    detectors: Vec<DetectorKind>,
}

pub open spec fn standard_detectors() -> Seq<DetectorKind> {
    seq![
        DetectorKind::Git,
        DetectorKind::Migration,
        DetectorKind::CodeQuality,
        DetectorKind::Test,
        DetectorKind::Refactor,
        DetectorKind::Docs,
    ]
}

impl RuleEngine {
    pub closed spec fn detector_kinds(&self) -> Seq<DetectorKind> {
        self.detectors@
    }

    /// An engine with every detector: git, migrations, code quality, tests,
    /// refactoring, documentation.
    pub fn new() -> (r: Self)
        ensures
            r.detector_kinds() == standard_detectors(),
    {
        let detectors = vec![
            DetectorKind::Git,
            DetectorKind::Migration,
            DetectorKind::CodeQuality,
            DetectorKind::Test,
            DetectorKind::Refactor,
            DetectorKind::Docs,
        ];
        assert(detectors@ =~= standard_detectors());
        RuleEngine { detectors }
    }

    /// The detectors to run, in order.
    pub fn detectors(&self) -> (r: &Vec<DetectorKind>)
        ensures
            r@ == self.detector_kinds(),
    {
        &self.detectors
    }

    /// Orders the detections by priority and derives the advice from them.
    pub fn analyze(&self, detections: Vec<Detection>) -> (r: Advice)
        ensures
            views(r.situation@) == situation_of(by_priority(detection_views(detections@))),
            views(r.steps@) == steps_of(by_priority(detection_views(detections@))),
            opt_lines(r.hints) == hints_of(by_priority(detection_views(detections@))),
    {
        let sorted = sort_by_priority(&detections);
        self.generate_advice(&sorted)
    }

    fn generate_advice(&self, ds: &Vec<Detection>) -> (r: Advice)
        ensures
            views(r.situation@) == situation_of(detection_views(ds@)),
            views(r.steps@) == steps_of(detection_views(ds@)),
            opt_lines(r.hints) == hints_of(detection_views(ds@)),
    {
        let ghost s = detection_views(ds@);
        let has_migration = has_category(ds, DetectionCategory::PendingMigration);
        let has_uncommitted = has_category(ds, DetectionCategory::UncommittedChanges);
        let has_failing_tests = has_category(ds, DetectionCategory::FailingTests);
        let has_lint_errors = has_category(ds, DetectionCategory::LintError) || has_category(
            ds,
            DetectionCategory::TypeCheckError,
        );
        let has_missing_tests = has_category(ds, DetectionCategory::MissingTests) || has_category(
            ds,
            DetectionCategory::LowCoverage,
        );
        let has_refactoring_needed = has_category(ds, DetectionCategory::CodeComplexity)
            || has_category(ds, DetectionCategory::RefactoringNeeded);
        let has_incomplete_docs = has_category(ds, DetectionCategory::IncompleteDesignDoc)
            || has_category(ds, DetectionCategory::MissingDesignDoc);
        let is_clean = has_category(ds, DetectionCategory::Clean);

        let mut situation = situation_lines(ds);
        let mut steps: Vec<String> = Vec::new();
        let mut hints: Vec<String> = Vec::new();
        let ghost e = Seq::<Seq<char>>::empty();
        assert(views(steps@) =~= e);
        assert(views(hints@) =~= e);

        if has_failing_tests {
            push_failing_lines(&mut steps);
        }
        let ghost s1 = views(steps@);
        assert(s1 =~= when(failing(s), failing_lines()));
        if has_lint_errors {
            push_lint_lines(&mut steps);
        }
        let ghost s2 = views(steps@);
        assert(s2 =~= s1 + when(lint(s), lint_lines()));
        if has_migration {
            push_migration_lines(&mut steps);
        }
        let ghost s3 = views(steps@);
        assert(s3 =~= s2 + when(migration(s), migration_lines()));
        if has_uncommitted {
            if !has_failing_tests && !has_lint_errors {
                push_precommit_lines(&mut steps);
            }
            let ghost s4 = views(steps@);
            assert(s4 =~= s3 + when(uncommitted(s) && !failing(s) && !lint(s), precommit_lines()));
            push_commit_lines(&mut steps);
        }
        let ghost s5 = views(steps@);
        assert(s5 =~= s3 + when(uncommitted(s) && !failing(s) && !lint(s), precommit_lines()) + when(
            uncommitted(s),
            commit_lines(),
        ));
        if has_missing_tests {
            push_missing_tests_lines(&mut steps);
        }
        let ghost s6 = views(steps@);
        assert(s6 =~= s5 + when(missing_tests(s), missing_tests_lines()));
        if has_refactoring_needed {
            push_refactor_lines(&mut hints);
        }
        let ghost h1 = views(hints@);
        assert(h1 =~= when(refactoring(s), refactor_lines()));
        if has_incomplete_docs {
            push_docs_lines(&mut steps);
        }
        assert(views(steps@) =~= s6 + when(incomplete_docs(s), docs_lines()));
        assert(views(steps@) =~= steps_of(s));
        let ghost sit = views(situation@);
        if is_clean && !has_migration && !has_uncommitted && !has_failing_tests && !has_lint_errors {
            push_clean_situation_lines(&mut situation);
            push_workflows_lines(&mut hints);
        }
        assert(views(situation@) =~= sit + when(clean_state(s), clean_situation_lines()));
        assert(views(hints@) =~= hint_lines_of(s));
        let hints = if hints.len() == 0 {
            None
        } else {
            Some(hints)
        };
        Advice { situation, steps, hints }
    }
}


/// What is known of the project beyond the detections, for an assistant's
/// prompt.
#[derive(Debug, Clone, Default)]
pub struct AIContext {
    pub git_history: String,
    pub modified_files: Vec<String>,
    pub docs_coverage: String,
    pub file_structure: String,
}

/// One `- item` line per item.
pub open spec fn bullets(items: Seq<Seq<char>>) -> Seq<char>
    decreases items.len(),
{
    if items.len() == 0 {
        Seq::empty()
    } else {
        bullets(items.drop_last()) + "- "@ + items.last() + "\n"@
    }
}

/// One `n. item` line per item, numbered from 1.
pub open spec fn numbered(items: Seq<Seq<char>>) -> Seq<char>
    decreases items.len(),
{
    if items.len() == 0 {
        Seq::empty()
    } else {
        numbered(items.drop_last()) + decimal(items.len()) + ". "@ + items.last() + "\n"@
    }
}

pub open spec fn default_question() -> Seq<char> {
    "Based on the current project state, what should I work on next? Please provide specific, actionable steps."@
}

/// The prompt that hands the project state to an assistant: situation,
/// recent history, modified files, documentation coverage, structure,
/// the rule-based steps, and the question (`task`, or a default one).
pub open spec fn prompt_of(
    situation: Seq<Seq<char>>,
    steps: Seq<Seq<char>>,
    git_history: Seq<char>,
    modified: Seq<Seq<char>>,
    coverage: Seq<char>,
    structure: Seq<char>,
    task: Option<Seq<char>>,
) -> Seq<char> {
    "# VibeCoding Project Analysis\n\n"@ + "## 📍 Current Situation\n\n"@ + (if situation.len() == 0 {
        "- No issues detected (clean state)\n"@
    } else {
        bullets(situation)
    }) + "\n"@ + (if git_history.len() == 0 {
        Seq::empty()
    } else {
        "## 📜 Recent Git Activity\n\n"@ + "```\n"@ + git_history + "```\n\n"@
    }) + (if modified.len() == 0 {
        Seq::empty()
    } else {
        "## 📝 Modified Files (uncommitted)\n\n"@ + bullets(modified) + "\n"@
    }) + (if coverage.len() == 0 {
        Seq::empty()
    } else {
        "## 📚 Documentation Coverage\n\n"@ + coverage + "\n\n"@
    }) + "## 🗂️  Project Structure\n\n"@ + "```\n"@ + structure + "\n```\n\n"@ + (if steps.len() == 0 {
        Seq::empty()
    } else {
        "## 💡 Static Rule Recommendations\n\n"@ + numbered(steps) + "\n"@
    }) + "## ❓ Question\n\n"@ + (match task {
        Some(t) => t,
        None => default_question(),
    }) + "\n"@
}

fn push_bullets(out: &mut String, items: &Vec<String>)
    ensures
        final(out)@ == old(out)@ + bullets(views(items@)),
{
    let ghost start = out@;
    let mut i: usize = 0;
    while i < items.len()
        invariant
            0 <= i <= items@.len(),
            out@ == start + bullets(views(items@).take(i as int)),
        decreases items@.len() - i,
    {
        out.append("- ");
        out.append(items[i].as_str());
        out.append("\n");
        proof {
            let v = views(items@);
            assert(v.take(i + 1).drop_last() =~= v.take(i as int));
            assert(out@ =~= start + bullets(v.take(i + 1)));
        }
        i += 1;
    }
    assert(views(items@).take(items@.len() as int) =~= views(items@));
}

fn push_numbered(out: &mut String, items: &Vec<String>)
    ensures
        final(out)@ == old(out)@ + numbered(views(items@)),
{
    let ghost start = out@;
    let mut i: usize = 0;
    while i < items.len()
        invariant
            0 <= i <= items@.len(),
            out@ == start + numbered(views(items@).take(i as int)),
        decreases items@.len() - i,
    {
        push_decimal(out, i + 1);
        out.append(". ");
        out.append(items[i].as_str());
        out.append("\n");
        proof {
            let v = views(items@);
            assert(v.take(i + 1).drop_last() =~= v.take(i as int));
            assert(v.take(i + 1).len() == i + 1);
            assert(out@ =~= start + numbered(v.take(i + 1)));
        }
        i += 1;
    }
    assert(views(items@).take(items@.len() as int) =~= views(items@));
}

/// The prompt for an assistant from the advice and the project context.
pub fn build_ai_prompt(advice: &Advice, context: &AIContext, task: Option<&str>) -> (r: String)
    ensures
        r@ == prompt_of(
            views(advice.situation@),
            views(advice.steps@),
            context.git_history@,
            views(context.modified_files@),
            context.docs_coverage@,
            context.file_structure@,
            match task {
                Some(t) => Some(t@),
                None => None,
            },
        ),
{
    let mut prompt = owned("# VibeCoding Project Analysis\n\n");
    prompt.append("## 📍 Current Situation\n\n");
    if advice.situation.len() == 0 {
        prompt.append("- No issues detected (clean state)\n");
    } else {
        push_bullets(&mut prompt, &advice.situation);
    }
    prompt.append("\n");
    let ghost situation_part = prompt@;
    if context.git_history.unicode_len() > 0 {
        prompt.append("## 📜 Recent Git Activity\n\n");
        prompt.append("```\n");
        prompt.append(context.git_history.as_str());
        prompt.append("```\n\n");
    }
    let ghost history_part = prompt@;
    if context.modified_files.len() > 0 {
        prompt.append("## 📝 Modified Files (uncommitted)\n\n");
        push_bullets(&mut prompt, &context.modified_files);
        prompt.append("\n");
    }
    let ghost files_part = prompt@;
    if context.docs_coverage.unicode_len() > 0 {
        prompt.append("## 📚 Documentation Coverage\n\n");
        prompt.append(context.docs_coverage.as_str());
        prompt.append("\n\n");
    }
    let ghost coverage_part = prompt@;
    prompt.append("## 🗂️  Project Structure\n\n");
    prompt.append("```\n");
    prompt.append(context.file_structure.as_str());
    prompt.append("\n```\n\n");
    let ghost structure_part = prompt@;
    if advice.steps.len() > 0 {
        prompt.append("## 💡 Static Rule Recommendations\n\n");
        push_numbered(&mut prompt, &advice.steps);
        prompt.append("\n");
    }
    let ghost steps_part = prompt@;
    prompt.append("## ❓ Question\n\n");
    match task {
        Some(t) => prompt.append(t),
        None => prompt.append(
            "Based on the current project state, what should I work on next? Please provide specific, actionable steps.",
        ),
    }
    prompt.append("\n");
    proof {
        let a = views(advice.situation@);
        let st = views(advice.steps@);
        let m = views(context.modified_files@);
        let tk = match task {
            Some(t) => Some(t@),
            None => None,
        };
        assert(situation_part =~= "# VibeCoding Project Analysis\n\n"@ + "## 📍 Current Situation\n\n"@ + (if a.len()
            == 0 {
            "- No issues detected (clean state)\n"@
        } else {
            bullets(a)
        }) + "\n"@);
        assert(history_part =~= situation_part + (if context.git_history@.len() == 0 {
            Seq::empty()
        } else {
            "## 📜 Recent Git Activity\n\n"@ + "```\n"@ + context.git_history@ + "```\n\n"@
        }));
        assert(files_part =~= history_part + (if m.len() == 0 {
            Seq::empty()
        } else {
            "## 📝 Modified Files (uncommitted)\n\n"@ + bullets(m) + "\n"@
        }));
        assert(coverage_part =~= files_part + (if context.docs_coverage@.len() == 0 {
            Seq::empty()
        } else {
            "## 📚 Documentation Coverage\n\n"@ + context.docs_coverage@ + "\n\n"@
        }));
        assert(structure_part =~= coverage_part + "## 🗂️  Project Structure\n\n"@ + "```\n"@ + context.file_structure@
            + "\n```\n\n"@);
        assert(steps_part =~= structure_part + (if st.len() == 0 {
            Seq::empty()
        } else {
            "## 💡 Static Rule Recommendations\n\n"@ + numbered(st) + "\n"@
        }));
        assert(prompt@ =~= steps_part + "## ❓ Question\n\n"@ + (match tk {
            Some(t) => t,
            None => default_question(),
        }) + "\n"@);
        assert(prompt@ =~= prompt_of(a, st, context.git_history@, m, context.docs_coverage@, context.file_structure@, tk));
    }
    prompt
}

} // verus!
