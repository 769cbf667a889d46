use akatsuki::contexts::{
    AdminPageContext, CLIClientContext, DemoComponentContext, EdgeFunctionContext, EnumFieldContext,
    FieldContext, HookContext, IntoContext, ModelContext, OperationContext, OperationContextBuilder,
    RepositoryEdgeContext, ServiceContext, UIFieldContext,
};
use akatsuki::schema::{EntitySchema, Field, FieldType, Operation, OperationType};

fn create_test_schema() -> EntitySchema {
    EntitySchema {
        name: "Material".to_string(),
        table_name: "materials".to_string(),
        fields: vec![
            Field {
                name: "title".to_string(),
                db_name: "title".to_string(),
                field_type: FieldType::String,
                required: true,
                ..Default::default()
            },
            Field {
                name: "type".to_string(),
                db_name: "type".to_string(),
                field_type: FieldType::Enum,
                required: true,
                enum_values: Some(vec!["video".to_string(), "image".to_string()]),
                index: true,
                ..Default::default()
            },
        ],
        operations: vec![
            Operation {
                op_type: OperationType::List,
                name: None,
                description: None,
                filters: vec!["type".to_string()],
                limit: None,
            },
            Operation {
                op_type: OperationType::Custom,
                name: Some("my".to_string()),
                description: None,
                filters: vec!["type".to_string()],
                limit: None,
            },
        ],
        rls: vec![],
        documentation: None,
    }
}

fn text_field(name: &str) -> Field {
    Field {
        name: name.to_string(),
        db_name: name.to_string(),
        field_type: FieldType::String,
        required: true,
        ..Default::default()
    }
}

fn enum_field(name: &str, values: &[&str]) -> Field {
    Field {
        name: name.to_string(),
        db_name: name.to_string(),
        field_type: FieldType::Enum,
        required: true,
        enum_values: Some(values.iter().map(|v| v.to_string()).collect()),
        ..Default::default()
    }
}

fn custom_op(name: &str, filters: &[&str]) -> Operation {
    Operation {
        op_type: OperationType::Custom,
        name: Some(name.to_string()),
        description: None,
        filters: filters.iter().map(|v| v.to_string()).collect(),
        limit: None,
    }
}

#[test]
fn test_field_into_field_context() {
    let field = Field {
        name: "title".to_string(),
        db_name: "title".to_string(),
        field_type: FieldType::String,
        required: true,
        ..Default::default()
    };

    let ctx: FieldContext = field.into_context();
    assert_eq!(ctx.name, "title");
    assert_eq!(ctx.db_name, "title");
    assert_eq!(ctx.typescript_type, "string");
    assert!(ctx.required);
}

#[test]
fn test_field_into_enum_field_context() {
    let field = Field {
        name: "status".to_string(),
        db_name: "status".to_string(),
        field_type: FieldType::Enum,
        enum_values: Some(vec!["draft".to_string(), "published".to_string()]),
        required: true,
        ..Default::default()
    };

    let ctx: EnumFieldContext = field.into_context();
    assert_eq!(ctx.name, "status");
    assert_eq!(ctx.enum_values, vec!["draft", "published"]);
}

#[test]
fn test_operation_into_context() {
    let op = Operation {
        op_type: OperationType::Custom,
        name: Some("my".to_string()),
        description: Some("My items".to_string()),
        filters: vec!["userId".to_string()],
        limit: Some(50),
    };

    let ctx: OperationContext = op.into_context();
    assert_eq!(ctx.op_type, "custom");
    assert_eq!(ctx.name, Some("my".to_string()));
    assert_eq!(ctx.filters, vec!["userId"]);
    assert_eq!(ctx.limit, Some(50));
}

#[test]
fn test_operation_context_builder_without_filter() {
    let schema = create_test_schema();
    let operations = OperationContextBuilder::new(&schema).build();

    let custom_op = operations
        .iter()
        .find(|op| op.name == Some("my".to_string()))
        .unwrap();
    assert!(custom_op.filters.contains(&"type".to_string()));
}

#[test]
fn test_operation_context_builder_with_enum_filter() {
    let schema = create_test_schema();
    let operations = OperationContextBuilder::new(&schema)
        .exclude_enum_fields_from_filters()
        .build();

    let custom_op = operations
        .iter()
        .find(|op| op.name == Some("my".to_string()))
        .unwrap();
    assert!(
        !custom_op.filters.contains(&"type".to_string()),
        "type filter should be excluded when it's an enum field"
    );
}

#[test]
fn test_hook_context_no_duplicate_type_in_filters() {
    let schema = create_test_schema();
    let ctx = HookContext::from_schema(&schema);

    assert!(ctx.enum_fields.iter().any(|e| e.name == "type"));

    for op in &ctx.operations {
        if op.name == Some("my".to_string()) {
            assert!(
                !op.filters.contains(&"type".to_string()),
                "HookContext should filter out 'type' from custom operation filters"
            );
        }
    }
}

#[test]
fn test_service_context_keeps_all_filters() {
    let schema = create_test_schema();
    let ctx = ServiceContext::from_schema(&schema);

    let custom_op = ctx
        .operations
        .iter()
        .find(|op| op.name == Some("my".to_string()))
        .unwrap();
    assert_eq!(custom_op.filters, vec!["type"]);
    assert_eq!(ctx.name, "Material");
}

#[test]
fn hook_drops_enum_filters_while_service_keeps_them() {
    let schema = create_test_schema();
    let hook = HookContext::from_schema(&schema);
    let service = ServiceContext::from_schema(&schema);
    let edge = EdgeFunctionContext::from_schema(&schema);
    let client = CLIClientContext::from_schema(&schema);
    for op in &hook.operations {
        assert!(op.filters.is_empty());
    }
    for op in &client.operations {
        assert!(op.filters.is_empty());
    }
    for op in service.operations.iter().chain(edge.operations.iter()) {
        assert_eq!(op.filters, vec!["type"]);
    }
    assert_eq!(service.operations[0].op_type, "list");
    assert_eq!(service.operations[1].op_type, "custom");
}

#[test]
fn builder_keeps_filters_that_name_no_enum_field() {
    let mut schema = create_test_schema();
    schema.operations[1].filters.push("title".to_string());
    let ops = OperationContextBuilder::new(&schema).exclude_enum_fields_from_filters().build();
    assert_eq!(ops[1].filters, vec!["title"]);
}

#[test]
fn client_skips_enum_whose_value_names_a_custom_operation() {
    let schema = EntitySchema {
        name: "Article".to_string(),
        table_name: "articles".to_string(),
        fields: vec![
            text_field("title"),
            enum_field("status", &["draft", "published"]),
            enum_field("kind", &["news", "blog"]),
        ],
        operations: vec![custom_op("published", &[])],
        rls: vec![],
        documentation: None,
    };
    let ctx = CLIClientContext::from_schema(&schema);
    let names: Vec<&str> = ctx.enum_fields.iter().map(|e| e.name.as_str()).collect();
    assert_eq!(names, vec!["kind"]);
    let model = ModelContext::from_schema(&schema);
    assert_eq!(model.enum_fields.len(), 2);
}

#[test]
fn client_keeps_enum_whose_default_value_names_an_operation() {
    let schema = EntitySchema {
        name: "Article".to_string(),
        table_name: "articles".to_string(),
        fields: vec![enum_field("status", &["draft", "published"])],
        operations: vec![custom_op("draft", &[])],
        rls: vec![],
        documentation: None,
    };
    let ctx = CLIClientContext::from_schema(&schema);
    assert_eq!(ctx.enum_fields.len(), 1);
}

#[test]
fn repository_filters_and_custom_operations() {
    let schema = EntitySchema {
        name: "Post".to_string(),
        table_name: "posts".to_string(),
        fields: vec![text_field("title"), enum_field("status", &["draft", "live"])],
        operations: vec![
            custom_op("mine", &["userId", "status"]),
            Operation {
                op_type: OperationType::List,
                name: None,
                description: None,
                filters: vec!["status".to_string(), "title".to_string()],
                limit: Some(20),
            },
            custom_op("recent", &["title", "createdAt"]),
        ],
        rls: vec![],
        documentation: None,
    };
    let ctx = RepositoryEdgeContext::from_schema(&schema);
    assert_eq!(ctx.list_filters, vec!["status", "title"]);
    assert_eq!(ctx.all_filters, vec!["status", "title", "userId", "createdAt"]);
    let customs: Vec<&str> = ctx.custom_operations.iter().map(|c| c.name.as_str()).collect();
    assert_eq!(customs, vec!["mine", "recent"]);
    assert_eq!(ctx.writable_fields.len(), 2);
}

#[test]
fn repository_without_list_operation_has_no_list_filters() {
    let schema = EntitySchema {
        name: "Post".to_string(),
        table_name: "posts".to_string(),
        fields: vec![text_field("title")],
        operations: vec![custom_op("mine", &["title", "title"])],
        rls: vec![],
        documentation: None,
    };
    let ctx = RepositoryEdgeContext::from_schema(&schema);
    assert!(ctx.list_filters.is_empty());
    assert_eq!(ctx.all_filters, vec!["title"]);
}

#[test]
fn admin_and_demo_display_fields() {
    let mut fields = vec![text_field("userId")];
    for n in ["a", "b", "c", "d", "e"] {
        fields.push(text_field(n));
    }
    fields.push(text_field("content"));
    let schema = EntitySchema {
        name: "Note".to_string(),
        table_name: "notes".to_string(),
        fields,
        operations: vec![],
        rls: vec![],
        documentation: None,
    };
    let admin = AdminPageContext::from_schema(&schema);
    let demo = DemoComponentContext::from_schema(&schema);
    let shown: Vec<&str> = admin.display_fields.iter().map(|f| f.name.as_str()).collect();
    assert_eq!(shown, vec!["a", "b", "c", "d"]);
    let shown: Vec<&str> = demo.display_fields.iter().map(|f| f.name.as_str()).collect();
    assert_eq!(shown, vec!["a", "b", "c"]);
    assert!(admin.has_content_field);
    assert!(demo.has_content_field);
    assert!(admin.examples.is_empty());
    assert_eq!(admin.fields[0].field_type, "string");
}

#[test]
fn ui_field_context_carries_type_and_values() {
    let f = enum_field("status", &["draft", "live"]);
    let ui: UIFieldContext = f.into_context();
    assert_eq!(ui.field_type, "enum");
    assert_eq!(ui.typescript_type, "'draft' | 'live'");
    assert_eq!(ui.typescript_default, "'draft'");
    assert_eq!(ui.enum_values, vec!["draft", "live"]);
}
