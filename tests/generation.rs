use akatsuki::artifacts::{ArtifactKind, GeneratedFile};
use akatsuki::batch::{summarize, FileOutcome};
use akatsuki::migration::{MigrationContext, ZodSchemaContext};
use akatsuki::schema::{Documentation, EntitySchema, Field, FieldType, Operation, OperationType, RLSPolicy};

fn field(name: &str, db: &str, t: FieldType) -> Field {
    Field {
        name: name.to_string(),
        db_name: db.to_string(),
        field_type: t,
        required: true,
        ..Default::default()
    }
}

fn article() -> EntitySchema {
    let mut status = field("status", "status", FieldType::Enum);
    status.enum_values = Some(vec!["draft".to_string(), "published".to_string()]);
    status.default = Some("draft".to_string());
    status.index = true;
    let mut title = field("title", "title", FieldType::String);
    title.default = Some("'Untitled'".to_string());
    let mut views = field("viewCount", "view_count", FieldType::Integer);
    views.default = Some("0".to_string());
    let mut slug = field("slug", "slug", FieldType::String);
    slug.index = true;
    slug.unique = true;
    EntitySchema {
        name: "Article".to_string(),
        table_name: "articles".to_string(),
        fields: vec![title, status, views, slug],
        operations: vec![Operation {
            op_type: OperationType::List,
            name: None,
            description: None,
            filters: vec!["status".to_string(), "slug".to_string()],
            limit: None,
        }],
        rls: vec![RLSPolicy {
            action: "SELECT".to_string(),
            name: "owner reads".to_string(),
            using: Some("auth.uid() = user_id".to_string()),
            with_check: None,
        }],
        documentation: Some(Documentation { description: Some("Blog posts".to_string()), examples: vec![] }),
    }
}

#[test]
fn migration_column_order() {
    let ctx = MigrationContext::from_schema(&article()).unwrap();
    let names: Vec<&str> = ctx.fields.iter().map(|c| c.name.as_str()).collect();
    assert_eq!(names, vec!["id", "userId", "title", "status", "viewCount", "slug", "createdAt", "updatedAt"]);
    assert!(ctx.fields[0].primary_key);
    assert_eq!(ctx.fields[0].default.as_deref(), Some("gen_random_uuid()"));
    assert_eq!(ctx.fields[1].references.as_deref(), Some("auth.users(id)"));
    assert_eq!(ctx.fields[1].on_delete.as_deref(), Some("CASCADE"));
    assert_eq!(ctx.fields[6].sql_type, "TIMESTAMPTZ");
    assert_eq!(ctx.fields[7].default.as_deref(), Some("NOW()"));
    assert!(ctx.has_updated_at);
    assert_eq!(ctx.rls.len(), 1);
    assert_eq!(ctx.rls[0].name, "owner reads");
    assert_eq!(ctx.documentation.description.as_deref(), Some("Blog posts"));
}

#[test]
fn migration_defaults_are_quoted_for_text() {
    let ctx = MigrationContext::from_schema(&article()).unwrap();
    assert_eq!(ctx.fields[2].default.as_deref(), Some("'Untitled'"));
    assert_eq!(ctx.fields[3].default.as_deref(), Some("'draft'"));
    assert_eq!(ctx.fields[4].default.as_deref(), Some("0"));
}

#[test]
fn migration_indexes_owner_then_flagged_fields() {
    let ctx = MigrationContext::from_schema(&article()).unwrap();
    let names: Vec<&str> = ctx.indexed_fields.iter().map(|c| c.name.as_str()).collect();
    assert_eq!(names, vec!["userId", "status", "slug"]);
    assert_eq!(ctx.indexed_fields[1].default.as_deref(), Some("draft"));
}

#[test]
fn migration_rejects_standard_column_names() {
    let mut schema = article();
    schema.fields.push(field("id", "id", FieldType::Uuid));
    assert_eq!(MigrationContext::from_schema(&schema).unwrap_err(), "id");
    let mut schema = article();
    schema.fields.push(field("created", "created_at", FieldType::Timestamp));
    assert_eq!(MigrationContext::from_schema(&schema).unwrap_err(), "created");
}

#[test]
fn validation_context_drops_enum_filters() {
    let ctx = ZodSchemaContext::from_schema(&article());
    assert_eq!(ctx.operations[0].filters, vec!["slug"]);
    assert_eq!(ctx.enum_fields.len(), 1);
    assert_eq!(ctx.enum_fields[0].zod_type, "z.enum(['draft', 'published'])");
    assert_eq!(ctx.fields.len(), 4);
}

#[test]
fn artifact_paths() {
    let s = article();
    let p = |k: ArtifactKind| k.path("/work", &s, "20240101120000");
    assert_eq!(p(ArtifactKind::Migration), "/work/supabase/migrations/20240101120000_create_articles_table.sql");
    assert_eq!(p(ArtifactKind::ZodSchema), "/work/supabase/functions/articles-crud/schema.ts");
    assert_eq!(p(ArtifactKind::RepositoryEdge), "/work/supabase/functions/_shared/repositories/ArticleRepository.ts");
    assert_eq!(p(ArtifactKind::EdgeFunction), "/work/supabase/functions/articles-crud/index.ts");
    assert_eq!(p(ArtifactKind::Model), "/work/packages/app-frontend/src/models/Article.ts");
    assert_eq!(p(ArtifactKind::Service), "/work/packages/app-frontend/src/services/ArticleService.ts");
    assert_eq!(p(ArtifactKind::Hook), "/work/packages/app-frontend/src/hooks/useArticles.ts");
    assert_eq!(p(ArtifactKind::AdminPage), "/work/packages/app-frontend/src/pages/admin/entities/ArticleAdminPage.tsx");
    assert_eq!(p(ArtifactKind::DemoComponent), "/work/packages/app-frontend/src/components/features/articles/ArticlesDemo.tsx");
    assert_eq!(p(ArtifactKind::CliClient), "/work/packages/app-cli/clients/ArticlesClient.js");
    assert_eq!(ArtifactKind::Model.path("", &s, "x"), "packages/app-frontend/src/models/Article.ts");
    assert_eq!(ArtifactKind::Model.path("/w/", &s, "x"), "/w/packages/app-frontend/src/models/Article.ts");
}

#[test]
fn artifact_descriptions_and_templates() {
    let s = article();
    assert_eq!(ArtifactKind::AdminPage.description(&s), "Admin Page (/admin/articless)");
    assert_eq!(ArtifactKind::DemoComponent.description(&s), "Demo Component (<ArticlesDemo />)");
    assert_eq!(ArtifactKind::CliClient.description(&s), "CLI Client (ArticlesClient)");
    assert_eq!(ArtifactKind::Migration.template_name(), "migration");
    assert_eq!(ArtifactKind::all().len(), 10);
    let f = GeneratedFile::new(ArtifactKind::Hook, "/r", &s, "t", "body".to_string());
    assert_eq!(f.path, "/r/packages/app-frontend/src/hooks/useArticles.ts");
    assert_eq!(f.content, "body");
    assert_eq!(f.description, "Hook (React Query CRUD)");
}

#[test]
fn batch_with_one_malformed_file_fails_overall() {
    let outcomes = vec![
        FileOutcome::success("Article".to_string()),
        FileOutcome::failure("broken.yaml".to_string(), "missing field `name`".to_string()),
        FileOutcome::success("User".to_string()),
    ];
    let summary = summarize(&outcomes);
    assert_eq!(summary.success_count, 2);
    assert_eq!(summary.failures.len(), 1);
    assert_eq!(summary.failures[0].name, "broken.yaml");
    assert_eq!(summary.failures[0].message, "missing field `name`");
    assert!(!summary.all_ok);
}

#[test]
fn batch_of_successes_succeeds() {
    let outcomes = vec![FileOutcome::success("A".to_string()), FileOutcome::success("B".to_string())];
    let summary = summarize(&outcomes);
    assert_eq!(summary.success_count, 2);
    assert!(summary.all_ok);
    assert!(summarize(&vec![]).all_ok);
}
