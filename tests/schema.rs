use akatsuki::schema::{EntitySchema, Field, FieldType, Operation, OperationType, SchemaError, Validation};

fn create_test_schema() -> EntitySchema {
    EntitySchema {
        name: "Material".to_string(),
        table_name: "materials".to_string(),
        fields: vec![
            Field {
                name: "id".to_string(),
                db_name: "id".to_string(),
                field_type: FieldType::Uuid,
                required: true,
                primary_key: true,
                ..Default::default()
            },
            Field {
                name: "title".to_string(),
                db_name: "title".to_string(),
                field_type: FieldType::String,
                required: true,
                ..Default::default()
            },
            Field {
                name: "type".to_string(),
                db_name: "type".to_string(),
                field_type: FieldType::Enum,
                required: true,
                enum_values: Some(vec!["video".to_string(), "image".to_string()]),
                index: true,
                ..Default::default()
            },
            Field {
                name: "createdAt".to_string(),
                db_name: "created_at".to_string(),
                field_type: FieldType::Timestamp,
                required: false,
                ..Default::default()
            },
        ],
        operations: vec![
            Operation {
                op_type: OperationType::List,
                name: None,
                description: None,
                filters: vec!["type".to_string()],
                limit: None,
            },
            Operation {
                op_type: OperationType::Custom,
                name: Some("my".to_string()),
                description: None,
                filters: vec!["type".to_string()],
                limit: None,
            },
        ],
        rls: vec![],
        documentation: None,
    }
}

#[test]
fn test_operation_type_as_str() {
    assert_eq!(OperationType::List.as_str(), "list");
    assert_eq!(OperationType::Get.as_str(), "get");
    assert_eq!(OperationType::Create.as_str(), "create");
    assert_eq!(OperationType::Update.as_str(), "update");
    assert_eq!(OperationType::Delete.as_str(), "delete");
    assert_eq!(OperationType::Custom.as_str(), "custom");
}

#[test]
fn test_operation_type_equality() {
    assert_eq!(OperationType::List, OperationType::List);
    assert_ne!(OperationType::List, OperationType::Get);
}

#[test]
fn test_field_type_as_str() {
    assert_eq!(FieldType::String.as_str(), "string");
    assert_eq!(FieldType::Number.as_str(), "number");
    assert_eq!(FieldType::Boolean.as_str(), "boolean");
    assert_eq!(FieldType::Uuid.as_str(), "uuid");
    assert_eq!(FieldType::Timestamp.as_str(), "timestamp");
    assert_eq!(FieldType::Enum.as_str(), "enum");
    assert_eq!(FieldType::Array.as_str(), "array");
    assert_eq!(FieldType::Json.as_str(), "json");
}

#[test]
fn test_enum_fields() {
    let schema = create_test_schema();
    let enum_fields = schema.enum_fields();

    assert_eq!(enum_fields.len(), 1);
    assert_eq!(enum_fields[0].name, "type");
}

#[test]
fn test_writable_fields_excludes_auto_generated() {
    let schema = create_test_schema();
    let writable = schema.writable_fields();

    let names: Vec<&str> = writable.iter().map(|f| f.name.as_str()).collect();
    assert!(names.contains(&"title"));
    assert!(names.contains(&"type"));
    assert!(!names.contains(&"id"));
    assert!(!names.contains(&"createdAt"));
}

#[test]
fn test_indexed_fields() {
    let schema = create_test_schema();
    let indexed = schema.indexed_fields();

    assert_eq!(indexed.len(), 1);
    assert_eq!(indexed[0].name, "type");
}

#[test]
fn test_field_sql_type() {
    let field = Field {
        name: "test".to_string(),
        db_name: "test".to_string(),
        field_type: FieldType::String,
        required: true,
        ..Default::default()
    };
    assert_eq!(field.sql_type(), "TEXT");

    let array_field = Field {
        name: "tags".to_string(),
        db_name: "tags".to_string(),
        field_type: FieldType::Array,
        array_type: Some("string".to_string()),
        required: false,
        ..Default::default()
    };
    assert_eq!(array_field.sql_type(), "TEXT[]");
}

#[test]
fn test_field_typescript_type_enum() {
    let field = Field {
        name: "status".to_string(),
        db_name: "status".to_string(),
        field_type: FieldType::Enum,
        enum_values: Some(vec!["draft".to_string(), "published".to_string()]),
        required: true,
        ..Default::default()
    };
    assert_eq!(field.typescript_type(), "'draft' | 'published'");
}

#[test]
fn test_field_zod_type_with_validation() {
    let field = Field {
        name: "title".to_string(),
        db_name: "title".to_string(),
        field_type: FieldType::String,
        required: true,
        validation: Some(Validation {
            min_length: Some(1),
            max_length: Some(100),
            ..Default::default()
        }),
        ..Default::default()
    };
    assert_eq!(field.zod_type(), "z.string().min(1).max(100)");
}

#[test]
fn updatable_fields_drop_owner_reference() {
    let mut schema = create_test_schema();
    schema.fields.push(Field {
        name: "userId".to_string(),
        db_name: "user_id".to_string(),
        field_type: FieldType::Uuid,
        required: true,
        ..Default::default()
    });
    schema.fields.push(Field {
        name: "updatedAt".to_string(),
        db_name: "updated_at".to_string(),
        field_type: FieldType::Timestamp,
        ..Default::default()
    });
    let writable: Vec<&str> = schema.writable_fields().iter().map(|f| f.name.as_str()).collect();
    let updatable: Vec<&str> = schema.updatable_fields().iter().map(|f| f.name.as_str()).collect();
    assert_eq!(writable, vec!["title", "type", "userId"]);
    assert_eq!(updatable, vec!["title", "type"]);
}

#[test]
fn get_field_returns_first_match() {
    let mut schema = create_test_schema();
    schema.fields.push(Field {
        name: "title".to_string(),
        db_name: "second_title".to_string(),
        ..Default::default()
    });
    assert_eq!(schema.get_field("title").unwrap().db_name, "title");
    assert!(schema.get_field("missing").is_none());
}

#[test]
fn enum_representations_list_values_in_order() {
    let field = Field {
        name: "kind".to_string(),
        db_name: "kind".to_string(),
        field_type: FieldType::Enum,
        enum_values: Some(vec!["a".to_string(), "b".to_string(), "c".to_string()]),
        required: true,
        ..Default::default()
    };
    assert_eq!(field.typescript_type(), "'a' | 'b' | 'c'");
    assert_eq!(field.zod_type(), "z.enum(['a', 'b', 'c'])");
    assert_eq!(field.typescript_default(), "'a'");
}

#[test]
fn type_strings_of_each_kind() {
    let mut f = Field { required: true, ..Default::default() };
    f.field_type = FieldType::Integer;
    assert_eq!(f.sql_type(), "INTEGER");
    assert_eq!(f.typescript_type(), "number");
    assert_eq!(f.typescript_default(), "0");
    assert_eq!(f.zod_type(), "z.number().int()");
    f.field_type = FieldType::Json;
    assert_eq!(f.sql_type(), "JSONB");
    assert_eq!(f.typescript_type(), "Record<string, any>");
    assert_eq!(f.typescript_default(), "{}");
    assert_eq!(f.zod_type(), "z.record(z.any())");
    f.field_type = FieldType::Array;
    f.array_type = Some("uuid".to_string());
    assert_eq!(f.sql_type(), "UUID[]");
    assert_eq!(f.typescript_type(), "string[]");
    assert_eq!(f.zod_type(), "z.array(z.string().uuid())");
    f.array_type = Some("date".to_string());
    assert_eq!(f.sql_type(), "TEXT[]");
    assert_eq!(f.typescript_type(), "any[]");
    assert_eq!(f.zod_type(), "z.array(z.any())");
    f.field_type = FieldType::Timestamp;
    assert_eq!(f.typescript_default(), "null");
    f.required = false;
    f.field_type = FieldType::String;
    assert_eq!(f.typescript_default(), "null");
}

#[test]
fn zod_string_with_format_rules() {
    let field = Field {
        field_type: FieldType::String,
        validation: Some(Validation { email: true, url: true, max_length: Some(2048), ..Default::default() }),
        ..Default::default()
    };
    assert_eq!(field.zod_type(), "z.string().max(2048).email().url()");
}

#[test]
fn enum_fields_must_declare_values() {
    let schema = create_test_schema();
    assert!(schema.check_enum_values().is_ok());
    let mut bad = create_test_schema();
    bad.fields[2].enum_values = Some(vec![]);
    assert_eq!(
        bad.check_enum_values(),
        Err(SchemaError::Format("enum field `type` declares no values".to_string()))
    );
    bad.fields[2].enum_values = None;
    assert!(bad.check_enum_values().is_err());
}

#[test]
fn unsupported_schema_sources_fail() {
    assert!(matches!(EntitySchema::from_interactive("Post"), Err(SchemaError::Unsupported(_))));
    assert!(matches!(EntitySchema::from_database_types("Post"), Err(SchemaError::Unsupported(_))));
}
