//! The entity schema: its data model and the derived field views.
use vstd::prelude::*;
use crate::strutil::{owned, str_eq, push_decimal, decimal, join, views};

verus! {

/// The closed set of column types a field may have.
#[derive(Debug, Clone, Copy, PartialEq, Eq, Structural)]
pub enum FieldType {
    String,
    Number,
    Integer,
    Boolean,
    Uuid,
    Timestamp,
    Enum,
    Array,
    Json,
}

/// The lowercase tag of a field type, as templates see it.
pub open spec fn field_type_tag(t: FieldType) -> Seq<char> {
    match t {
        FieldType::String => "string"@,
        FieldType::Number => "number"@,
        FieldType::Integer => "integer"@,
        FieldType::Boolean => "boolean"@,
        FieldType::Uuid => "uuid"@,
        FieldType::Timestamp => "timestamp"@,
        FieldType::Enum => "enum"@,
        FieldType::Array => "array"@,
        FieldType::Json => "json"@,
    }
}

impl FieldType {
    /// The tag of this type, as templates see it.
    pub fn as_str(&self) -> (r: &'static str)
        ensures
            r@ == field_type_tag(*self),
    {
        match self {
            FieldType::String => "string",
            FieldType::Number => "number",
            FieldType::Integer => "integer",
            FieldType::Boolean => "boolean",
            FieldType::Uuid => "uuid",
            FieldType::Timestamp => "timestamp",
            FieldType::Enum => "enum",
            FieldType::Array => "array",
            FieldType::Json => "json",
        }
    }
}


/// The kind of a declared operation.
#[derive(Debug, Clone, Copy, PartialEq, Eq, Structural)]
pub enum OperationType {
    List,
    Get,
    Create,
    Update,
    Delete,
    Custom,
}

/// The lowercase tag of an operation type, as templates see it.
pub open spec fn operation_type_tag(t: OperationType) -> Seq<char> {
    match t {
        OperationType::List => "list"@,
        OperationType::Get => "get"@,
        OperationType::Create => "create"@,
        OperationType::Update => "update"@,
        OperationType::Delete => "delete"@,
        OperationType::Custom => "custom"@,
    }
}

impl OperationType {
    /// The tag of this kind, as templates see it.
    pub fn as_str(&self) -> (r: &'static str)
        ensures
            r@ == operation_type_tag(*self),
    {
        match self {
            OperationType::List => "list",
            OperationType::Get => "get",
            OperationType::Create => "create",
            OperationType::Update => "update",
            OperationType::Delete => "delete",
            OperationType::Custom => "custom",
        }
    }
}

/// Validation rules of a field. The numeric bounds `min` and `max` are kept
/// in the textual form in which the schema wrote them.
#[derive(Debug, Clone)]
pub struct Validation {
    pub min_length: Option<usize>,
    pub max_length: Option<usize>,
    pub min: Option<String>,
    pub max: Option<String>,
    pub email: bool,
    pub url: bool,
    pub pattern: Option<String>,
}

/// One declared field of an entity.
#[derive(Debug, Clone)]
pub struct Field {
    /// Name in code (camelCase).
    pub name: String,
    /// Column name (snake_case).
    pub db_name: String,
    pub field_type: FieldType,
    pub required: bool,
    /// Default value, as an SQL expression.
    pub default: Option<String>,
    pub primary_key: bool,
    /// Foreign key target, such as `auth.users(id)`.
    pub references: Option<String>,
    pub on_delete: Option<String>,
    pub index: bool,
    pub index_type: Option<String>,
    pub unique: bool,
    pub enum_values: Option<Vec<String>>,
    /// Element type of an array field; `string` when absent.
    pub array_type: Option<String>,
    pub validation: Option<Validation>,
    pub auto_update: bool,
}

impl Default for Validation {
    fn default() -> (r: Validation)
        ensures
            r.min_length.is_none(),
            r.max_length.is_none(),
            r.min.is_none(),
            r.max.is_none(),
            !r.email,
            !r.url,
            r.pattern.is_none(),
    {
        Validation {
            min_length: None,
            max_length: None,
            min: None,
            max: None,
            email: false,
            url: false,
            pattern: None,
        }
    }
}

impl Default for Field {
    /// An optional, unindexed text field with empty names and no rule.
    fn default() -> (r: Field)
        ensures
            r.name@.len() == 0,
            r.db_name@.len() == 0,
            r.field_type == FieldType::String,
            !r.required,
            r.default.is_none(),
            !r.primary_key,
            r.references.is_none(),
            r.on_delete.is_none(),
            !r.index,
            r.index_type.is_none(),
            !r.unique,
            r.enum_values.is_none(),
            r.array_type.is_none(),
            r.validation.is_none(),
            !r.auto_update,
    {
        Field {
            name: String::new(),
            db_name: String::new(),
            field_type: FieldType::String,
            required: false,
            default: None,
            primary_key: false,
            references: None,
            on_delete: None,
            index: false,
            index_type: None,
            unique: false,
            enum_values: None,
            array_type: None,
            validation: None,
            auto_update: false,
        }
    }
}

/// One declared operation of an entity.
#[derive(Debug, Clone)]
pub struct Operation {
    pub op_type: OperationType,
    /// Name of a custom operation.
    pub name: Option<String>,
    pub description: Option<String>,
    /// Names of the fields that the operation can filter on.
    pub filters: Vec<String>,
    pub limit: Option<usize>,
}

/// A row-level security policy, carried verbatim into the migration.
#[derive(Debug, Clone)]
pub struct RLSPolicy {
    pub action: String,
    pub name: String,
    pub using: Option<String>,
    pub with_check: Option<String>,
}

#[derive(Debug, Clone)]
pub struct Documentation {
    pub description: Option<String>,
    pub examples: Vec<Example>,
}

#[derive(Debug, Clone)]
pub struct Example {
    pub title: String,
    pub code: String,
}

/// The canonical model of one entity, read-only once loaded.
#[derive(Debug, Clone)]
pub struct EntitySchema {
    /// Entity name (PascalCase).
    pub name: String,
    /// Storage table name (snake_case).
    pub table_name: String,
    pub fields: Vec<Field>,
    pub operations: Vec<Operation>,
    pub rls: Vec<RLSPolicy>,
    pub documentation: Option<Documentation>,
}

/// The reasons a schema cannot be loaded.
#[derive(Debug, Clone, PartialEq, Eq)]
pub enum SchemaError {
    /// The source could not be read.
    Io(String),
    /// The document does not have the expected shape.
    Format(String),
    /// The requested way of obtaining a schema is not available.
    Unsupported(String),
}

pub open spec fn is_standard_timestamp(name: Seq<char>) -> bool {
    name == "createdAt"@ || name == "updatedAt"@
}

/// A field the caller may set on creation: neither the primary key nor a
/// standard timestamp.
pub open spec fn is_writable(f: Field) -> bool {
    !f.primary_key && !is_standard_timestamp(f.name@)
}

/// A field the caller may change after creation: writable and not the owner
/// reference.
pub open spec fn is_updatable(f: Field) -> bool {
    is_writable(f) && f.name@ != "userId"@
}

pub open spec fn is_indexed(f: Field) -> bool {
    f.index
}

pub open spec fn is_enum(f: Field) -> bool {
    f.field_type == FieldType::Enum
}

/// The writable fields, in declared order.
pub open spec fn writable(fs: Seq<Field>) -> Seq<Field> {
    fs.filter(|f: Field| is_writable(f))
}

/// The updatable fields, in declared order.
pub open spec fn updatable(fs: Seq<Field>) -> Seq<Field> {
    fs.filter(|f: Field| is_updatable(f))
}

/// The fields flagged for indexing, in declared order.
pub open spec fn indexed(fs: Seq<Field>) -> Seq<Field> {
    fs.filter(|f: Field| is_indexed(f))
}

/// The enum fields, in declared order.
pub open spec fn enums(fs: Seq<Field>) -> Seq<Field> {
    fs.filter(|f: Field| is_enum(f))
}

/// The fields that a sequence of references points at.
pub open spec fn targets(s: Seq<&Field>) -> Seq<Field> {
    s.map_values(|f: &Field| *f)
}

/// The derived views of the declared field list.
#[derive(Clone, Copy, PartialEq, Eq, Structural)]
enum FieldView {
    Writable,
    Updatable,
    Indexed,
    Enums,
}

spec fn view_pred(v: FieldView) -> spec_fn(Field) -> bool {
    match v {
        FieldView::Writable => |f: Field| is_writable(f),
        FieldView::Updatable => |f: Field| is_updatable(f),
        FieldView::Indexed => |f: Field| is_indexed(f),
        FieldView::Enums => |f: Field| is_enum(f),
    }
}

fn keeps(v: FieldView, f: &Field) -> (r: bool)
    ensures
        r == (view_pred(v))(*f),
{
    match v {
        FieldView::Writable => !f.primary_key && !str_eq(f.name.as_str(), "createdAt") && !str_eq(
            f.name.as_str(),
            "updatedAt",
        ),
        FieldView::Updatable => !f.primary_key && !str_eq(f.name.as_str(), "userId") && !str_eq(
            f.name.as_str(),
            "createdAt",
        ) && !str_eq(f.name.as_str(), "updatedAt"),
        FieldView::Indexed => f.index,
        FieldView::Enums => f.field_type == FieldType::Enum,
    }
}

/// One step of a filter over a growing prefix.
pub proof fn lemma_filter_take_step<A>(s: Seq<A>, p: spec_fn(A) -> bool, i: int)
    requires
        0 <= i < s.len(),
    ensures
        s.take(i + 1).filter(p) == (if p(s[i]) {
            s.take(i).filter(p).push(s[i])
        } else {
            s.take(i).filter(p)
        }),
{
    reveal(Seq::filter);
    assert(s.take(i + 1).drop_last() =~= s.take(i));
}

/// A filter that every item passes keeps the sequence.
pub proof fn lemma_filter_all<A>(s: Seq<A>, p: spec_fn(A) -> bool)
    requires
        forall|i: int| 0 <= i < s.len() ==> p(s[i]),
    ensures
        s.filter(p) == s,
    decreases s.len(),
{
    reveal(Seq::filter);
    if s.len() > 0 {
        lemma_filter_all(s.drop_last(), p);
        assert(s.drop_last().push(s.last()) =~= s);
    }
}

fn select<'a>(fields: &'a Vec<Field>, v: FieldView) -> (r: Vec<&'a Field>)
    ensures
        targets(r@) == fields@.filter(view_pred(v)),
{
    let mut r: Vec<&Field> = Vec::new();
    let mut i: usize = 0;
    while i < fields.len()
        invariant
            0 <= i <= fields@.len(),
            targets(r@) == fields@.take(i as int).filter(view_pred(v)),
        decreases fields@.len() - i,
    {
        let f = &fields[i];
        proof {
            lemma_filter_take_step(fields@, view_pred(v), i as int);
        }
        if keeps(v, f) {
            r.push(f);
            assert(targets(r@) =~= fields@.take(i as int).filter(view_pred(v)).push(*f));
        }
        i += 1;
    }
    assert(fields@.take(fields@.len() as int) =~= fields@);
    r
}

/// Every enum field declares at least one value.
pub open spec fn enums_have_values(fields: Seq<Field>) -> bool {
    forall|i: int|
        0 <= i < fields.len() && fields[i].field_type == FieldType::Enum ==> match fields[i].enum_values {
            Some(vs) => vs@.len() > 0,
            None => false,
        }
}

impl EntitySchema {
    /// The schema's structural invariant: each enum field declares values.
    pub open spec fn well_formed(&self) -> bool {
        enums_have_values(self.fields@)
    }

    /// Checks the structural invariant, naming the first enum field that
    /// declares no value.
    pub fn check_enum_values(&self) -> (r: Result<(), SchemaError>)
        ensures
            r is Ok <==> self.well_formed(),
    {
        let mut i: usize = 0;
        while i < self.fields.len()
            invariant
                0 <= i <= self.fields@.len(),
                forall|k: int|
                    0 <= k < i && self.fields@[k].field_type == FieldType::Enum ==> match self.fields@[k].enum_values {
                        Some(vs) => vs@.len() > 0,
                        None => false,
                    },
            decreases self.fields@.len() - i,
        {
            let f = &self.fields[i];
            if f.field_type == FieldType::Enum {
                let ok = match &f.enum_values {
                    Some(vs) => vs.len() > 0,
                    None => false,
                };
                if !ok {
                    let mut m = owned("enum field `");
                    m.append(f.name.as_str());
                    m.append("` declares no values");
                    return Err(SchemaError::Format(m));
                }
            }
            i += 1;
        }
        Ok(())
    }

    /// Building a schema from prompts is not offered.
    pub fn from_interactive(entity_name: &str) -> (r: Result<EntitySchema, SchemaError>)
        ensures
            r is Err,
    {
        Err(SchemaError::Unsupported(owned("Interactive mode not implemented yet. Please use --schema <file>")))
    }

    /// Reading a schema from generated database types is not offered.
    pub fn from_database_types(entity_name: &str) -> (r: Result<EntitySchema, SchemaError>)
        ensures
            r is Err,
    {
        Err(SchemaError::Unsupported(owned("Database Types parsing not implemented yet. Please use --schema <file>")))
    }

    /// The first declared field named `name`.
    pub fn get_field(&self, name: &str) -> (r: Option<&Field>)
        ensures
            match r {
                None => forall|i: int| 0 <= i < self.fields@.len() ==> self.fields@[i].name@ != name@,
                Some(f) => exists|i: int|
                    0 <= i < self.fields@.len() && *f == self.fields@[i] && f.name@ == name@ && (
                    forall|j: int| 0 <= j < i ==> self.fields@[j].name@ != name@),
            },
    {
        let mut i: usize = 0;
        while i < self.fields.len()
            invariant
                0 <= i <= self.fields@.len(),
                forall|j: int| 0 <= j < i ==> self.fields@[j].name@ != name@,
            decreases self.fields@.len() - i,
        {
            if str_eq(self.fields[i].name.as_str(), name) {
                return Some(&self.fields[i]);
            }
            i += 1;
        }
        None
    }

    /// The declared fields without the primary key and the standard
    /// timestamps, in declared order.
    pub fn writable_fields(&self) -> (r: Vec<&Field>)
        ensures
            targets(r@) == writable(self.fields@),
    {
        select(&self.fields, FieldView::Writable)
    }

    /// The writable fields without the owner reference, in declared order.
    pub fn updatable_fields(&self) -> (r: Vec<&Field>)
        ensures
            targets(r@) == updatable(self.fields@),
    {
        select(&self.fields, FieldView::Updatable)
    }

    /// The fields flagged for indexing, in declared order.
    pub fn indexed_fields(&self) -> (r: Vec<&Field>)
        ensures
            targets(r@) == indexed(self.fields@),
    {
        select(&self.fields, FieldView::Indexed)
    }

    /// The fields of enum type, in declared order.
    pub fn enum_fields(&self) -> (r: Vec<&Field>)
        ensures
            targets(r@) == enums(self.fields@),
    {
        select(&self.fields, FieldView::Enums)
    }
}


pub open spec fn sql_element(e: Seq<char>) -> Seq<char> {
    if e == "string"@ {
        "TEXT"@
    } else if e == "number"@ {
        "INTEGER"@
    } else if e == "boolean"@ {
        "BOOLEAN"@
    } else if e == "uuid"@ {
        "UUID"@
    } else {
        "TEXT"@
    }
}

/// The column type of a field.
pub open spec fn sql_type_of(f: Field) -> Seq<char> {
    match f.field_type {
        FieldType::String => "TEXT"@,
        FieldType::Number => "NUMERIC"@,
        FieldType::Integer => "INTEGER"@,
        FieldType::Boolean => "BOOLEAN"@,
        FieldType::Uuid => "UUID"@,
        FieldType::Timestamp => "TIMESTAMPTZ"@,
        FieldType::Enum => "TEXT"@,
        FieldType::Array => match f.array_type {
            Some(a) => sql_element(a@) + "[]"@,
            None => "TEXT[]"@,
        },
        FieldType::Json => "JSONB"@,
    }
}

pub open spec fn ts_element(e: Seq<char>) -> Seq<char> {
    if e == "string"@ {
        "string"@
    } else if e == "number"@ {
        "number"@
    } else if e == "boolean"@ {
        "boolean"@
    } else if e == "uuid"@ {
        "string"@
    } else {
        "any"@
    }
}

/// A literal union of the quoted values: `'a' | 'b'`.
pub open spec fn literal_union(values: Seq<Seq<char>>) -> Seq<char> {
    "'"@ + join(values, "' | '"@) + "'"@
}

/// The type of a field in the typed client language.
pub open spec fn typescript_type_of(f: Field) -> Seq<char> {
    match f.field_type {
        FieldType::String => "string"@,
        FieldType::Number => "number"@,
        FieldType::Integer => "number"@,
        FieldType::Boolean => "boolean"@,
        FieldType::Uuid => "string"@,
        FieldType::Timestamp => "string"@,
        FieldType::Enum => match f.enum_values {
            Some(vs) => literal_union(views(vs@)),
            None => "string"@,
        },
        FieldType::Array => match f.array_type {
            Some(a) => ts_element(a@) + "[]"@,
            None => "string[]"@,
        },
        FieldType::Json => "Record<string, any>"@,
    }
}

/// The initial value of a field in generated client code.
pub open spec fn typescript_default_of(f: Field) -> Seq<char> {
    if !f.required {
        "null"@
    } else {
        match f.field_type {
            FieldType::String => "''"@,
            FieldType::Number => "0"@,
            FieldType::Integer => "0"@,
            FieldType::Boolean => "false"@,
            FieldType::Array => "[]"@,
            FieldType::Json => "{}"@,
            FieldType::Enum => match f.enum_values {
                Some(vs) => if vs@.len() > 0 {
                    "'"@ + vs@[0]@ + "'"@
                } else {
                    "''"@
                },
                None => "''"@,
            },
            _ => "null"@,
        }
    }
}

pub open spec fn zod_element(e: Seq<char>) -> Seq<char> {
    if e == "string"@ {
        "z.string()"@
    } else if e == "number"@ {
        "z.number()"@
    } else if e == "boolean"@ {
        "z.boolean()"@
    } else if e == "uuid"@ {
        "z.string().uuid()"@
    } else {
        "z.any()"@
    }
}

/// Each value wrapped in single quotes.
pub open spec fn quoted(values: Seq<Seq<char>>) -> Seq<Seq<char>> {
    values.map_values(|v: Seq<char>| "'"@ + v + "'"@)
}

/// A closed-set check over the quoted values: `z.enum(['a', 'b'])`.
pub open spec fn zod_enum(values: Seq<Seq<char>>) -> Seq<char> {
    "z.enum(["@ + join(quoted(values), ", "@) + "])"@
}

/// The rule suffixes of a string field: length bounds, then format checks.
pub open spec fn zod_string_rules(v: Option<Validation>) -> Seq<char> {
    match v {
        None => Seq::empty(),
        Some(v) => (match v.min_length {
            Some(n) => ".min("@ + decimal(n as nat) + ")"@,
            None => Seq::empty(),
        }) + (match v.max_length {
            Some(n) => ".max("@ + decimal(n as nat) + ")"@,
            None => Seq::empty(),
        }) + (if v.email {
            ".email()"@
        } else {
            Seq::empty()
        }) + (if v.url {
            ".url()"@
        } else {
            Seq::empty()
        }),
    }
}

/// The validation expression of a field.
pub open spec fn zod_type_of(f: Field) -> Seq<char> {
    match f.field_type {
        FieldType::String => "z.string()"@ + zod_string_rules(f.validation),
        FieldType::Number => "z.number()"@,
        FieldType::Integer => "z.number().int()"@,
        FieldType::Boolean => "z.boolean()"@,
        FieldType::Uuid => "z.string().uuid()"@,
        FieldType::Timestamp => "z.string()"@,
        FieldType::Enum => match f.enum_values {
            Some(vs) => zod_enum(views(vs@)),
            None => "z.string()"@,
        },
        FieldType::Array => match f.array_type {
            Some(a) => "z.array("@ + zod_element(a@) + ")"@,
            None => "z.array(z.string())"@,
        },
        FieldType::Json => "z.record(z.any())"@,
    }
}

fn pick(e: &str, for_string: &'static str, for_number: &'static str, for_boolean: &'static str, for_uuid: &'static str, other: &'static str) -> (r: &'static str)
    ensures
        r@ == (if e@ == "string"@ {
            for_string@
        } else if e@ == "number"@ {
            for_number@
        } else if e@ == "boolean"@ {
            for_boolean@
        } else if e@ == "uuid"@ {
            for_uuid@
        } else {
            other@
        }),
{
    if str_eq(e, "string") {
        for_string
    } else if str_eq(e, "number") {
        for_number
    } else if str_eq(e, "boolean") {
        for_boolean
    } else if str_eq(e, "uuid") {
        for_uuid
    } else {
        other
    }
}

/// Appends `items`, each between `open` and `close`, with `sep` between them.
fn push_joined(out: &mut String, items: &Vec<String>, open: &str, close: &str, sep: &str)
    ensures
        final(out)@ == old(out)@ + join(
            items@.map_values(|v: String| open@ + v@ + close@),
            sep@,
        ),
{
    let ghost parts = items@.map_values(|v: String| open@ + v@ + close@);
    let mut i: usize = 0;
    while i < items.len()
        invariant
            0 <= i <= items@.len(),
            parts == items@.map_values(|v: String| open@ + v@ + close@),
            out@ == old(out)@ + join(parts.take(i as int), sep@),
        decreases items@.len() - i,
    {
        proof {
            assert(parts.take(i + 1).drop_last() =~= parts.take(i as int));
        }
        if i > 0 {
            out.append(sep);
        }
        out.append(open);
        out.append(items[i].as_str());
        out.append(close);
        proof {
            if i == 0 {
                assert(parts.take(1).len() == 1);
            }
            assert(out@ =~= old(out)@ + join(parts.take(i + 1), sep@));
        }
        i += 1;
    }
    assert(parts.take(items@.len() as int) =~= parts);
}

fn zod_string(validation: &Option<Validation>) -> (r: String)
    ensures
        r@ == "z.string()"@ + zod_string_rules(*validation),
{
        let mut zod = owned("z.string()");
        if let Some(v) = validation {
            let ghost base = zod@;
            if let Some(min) = v.min_length {
                zod.append(".min(");
                push_decimal(&mut zod, min);
                zod.append(")");
            }
            let ghost a = zod@;
            if let Some(max) = v.max_length {
                zod.append(".max(");
                push_decimal(&mut zod, max);
                zod.append(")");
            }
            let ghost b = zod@;
            if v.email {
                zod.append(".email()");
            }
            let ghost c = zod@;
            if v.url {
                zod.append(".url()");
            }
            proof {
                let m1 = match v.min_length {
                    Some(n) => ".min("@ + decimal(n as nat) + ")"@,
                    None => Seq::<char>::empty(),
                };
                let m2 = match v.max_length {
                    Some(n) => ".max("@ + decimal(n as nat) + ")"@,
                    None => Seq::<char>::empty(),
                };
                let m3 = if v.email { ".email()"@ } else { Seq::<char>::empty() };
                let m4 = if v.url { ".url()"@ } else { Seq::<char>::empty() };
                assert(a =~= base + m1);
                assert(b =~= base + m1 + m2);
                assert(c =~= base + m1 + m2 + m3);
                assert(zod@ =~= base + m1 + m2 + m3 + m4);
                assert(zod_string_rules(*validation) =~= m1 + m2 + m3 + m4);
            }
        }
        assert(zod@ =~= "z.string()"@ + zod_string_rules(*validation));
        zod
}

impl Field {
    /// The column type.
    pub fn sql_type(&self) -> (r: String)
        ensures
            r@ == sql_type_of(*self),
    {
        match self.field_type {
            FieldType::String => owned("TEXT"),
            FieldType::Number => owned("NUMERIC"),
            FieldType::Integer => owned("INTEGER"),
            FieldType::Boolean => owned("BOOLEAN"),
            FieldType::Uuid => owned("UUID"),
            FieldType::Timestamp => owned("TIMESTAMPTZ"),
            FieldType::Enum => owned("TEXT"),
            FieldType::Array => match &self.array_type {
                Some(a) => {
                    let mut r = owned(pick(a.as_str(), "TEXT", "INTEGER", "BOOLEAN", "UUID", "TEXT"));
                    r.append("[]");
                    r
                },
                None => owned("TEXT[]"),
            },
            FieldType::Json => owned("JSONB"),
        }
    }

    /// The type in the typed client language; an enum field becomes the
    /// literal union of its values.
    pub fn typescript_type(&self) -> (r: String)
        ensures
            r@ == typescript_type_of(*self),
    {
        match self.field_type {
            FieldType::String => owned("string"),
            FieldType::Number => owned("number"),
            FieldType::Integer => owned("number"),
            FieldType::Boolean => owned("boolean"),
            FieldType::Uuid => owned("string"),
            FieldType::Timestamp => owned("string"),
            FieldType::Enum => match &self.enum_values {
                Some(vs) => {
                    let mut r = owned("'");
                    push_joined(&mut r, vs, "", "", "' | '");
                    r.append("'");
                    proof {
                        reveal_strlit("");
                        let e = ""@;
                        assert(vs@.map_values(|v: String| e + v@ + e) =~= views(vs@));
                    }
                    r
                },
                None => owned("string"),
            },
            FieldType::Array => match &self.array_type {
                Some(a) => {
                    let mut r = owned(pick(a.as_str(), "string", "number", "boolean", "string", "any"));
                    r.append("[]");
                    r
                },
                None => owned("string[]"),
            },
            FieldType::Json => owned("Record<string, any>"),
        }
    }

    /// The initial value in generated client code: `null` for an optional
    /// field, else a zero of its type (the first value of an enum).
    pub fn typescript_default(&self) -> (r: String)
        ensures
            r@ == typescript_default_of(*self),
    {
        if !self.required {
            return owned("null");
        }
        match self.field_type {
            FieldType::String => owned("''"),
            FieldType::Number => owned("0"),
            FieldType::Integer => owned("0"),
            FieldType::Boolean => owned("false"),
            FieldType::Array => owned("[]"),
            FieldType::Json => owned("{}"),
            FieldType::Enum => match &self.enum_values {
                Some(vs) => {
                    if vs.len() > 0 {
                        let mut r = owned("'");
                        r.append(vs[0].as_str());
                        r.append("'");
                        r
                    } else {
                        owned("''")
                    }
                },
                None => owned("''"),
            },
            _ => owned("null"),
        }
    }

    /// The validation expression; an enum field becomes a closed-set check
    /// over its values.
    pub fn zod_type(&self) -> (r: String)
        ensures
            r@ == zod_type_of(*self),
    {
        match self.field_type {
            FieldType::String => zod_string(&self.validation),
            FieldType::Number => owned("z.number()"),
            FieldType::Integer => owned("z.number().int()"),
            FieldType::Boolean => owned("z.boolean()"),
            FieldType::Uuid => owned("z.string().uuid()"),
            FieldType::Timestamp => owned("z.string()"),
            FieldType::Enum => match &self.enum_values {
                Some(vs) => {
                    let mut r = owned("z.enum([");
                    push_joined(&mut r, vs, "'", "'", ", ");
                    r.append("])");
                    proof {
                        assert(vs@.map_values(|v: String| "'"@ + v@ + "'"@) =~= quoted(views(vs@)));
                    }
                    r
                },
                None => owned("z.string()"),
            },
            FieldType::Array => match &self.array_type {
                Some(a) => {
                    let mut r = owned("z.array(");
                    r.append(pick(a.as_str(), "z.string()", "z.number()", "z.boolean()", "z.string().uuid()", "z.any()"));
                    r.append(")");
                    r
                },
                None => owned("z.array(z.string())"),
            },
            FieldType::Json => owned("z.record(z.any())"),
        }
    }
}


/// No writable field is the primary key or a standard timestamp; every
/// updatable field is writable, and the owner reference is never
/// updatable.
pub proof fn lemma_writable_and_updatable(fields: Seq<Field>)
    ensures
        forall|f: Field|
            writable(fields).contains(f) ==> !f.primary_key && f.name@ != "createdAt"@ && f.name@
                != "updatedAt"@,
        forall|f: Field| updatable(fields).contains(f) ==> writable(fields).contains(f),
        forall|f: Field| updatable(fields).contains(f) ==> f.name@ != "userId"@,
{
    assert forall|f: Field| writable(fields).contains(f) implies !f.primary_key && f.name@
        != "createdAt"@ && f.name@ != "updatedAt"@ by {
        let i = choose|i: int| 0 <= i < writable(fields).len() && writable(fields)[i] == f;
        fields.lemma_filter_pred(|g: Field| is_writable(g), i);
    }
    assert forall|f: Field| updatable(fields).contains(f) implies writable(fields).contains(f)
        && f.name@ != "userId"@ by {
        let i = choose|i: int| 0 <= i < updatable(fields).len() && updatable(fields)[i] == f;
        fields.lemma_filter_pred(|g: Field| is_updatable(g), i);
        fields.lemma_filter_contains_rev(|g: Field| is_updatable(g), f);
        let j = choose|j: int| 0 <= j < fields.len() && fields[j] == f;
        fields.lemma_filter_contains(|g: Field| is_writable(g), j);
    }
}

/// An enum field's two representations list the same quoted values in
/// declared order: the typed one joins them into a literal union, the
/// validation one into a closed set.
pub proof fn lemma_enum_representations(f: Field)
    requires
        f.field_type == FieldType::Enum,
        f.enum_values is Some,
        f.enum_values->0@.len() > 0,
    ensures
        typescript_type_of(f) == join(quoted(views(f.enum_values->0@)), " | "@),
        zod_type_of(f) == "z.enum(["@ + join(quoted(views(f.enum_values->0@)), ", "@) + "])"@,
{
    lemma_literal_union(views(f.enum_values->0@));
}

proof fn lemma_literal_union(vs: Seq<Seq<char>>)
    requires
        vs.len() > 0,
    ensures
        literal_union(vs) == join(quoted(vs), " | "@),
    decreases vs.len(),
{
    reveal_strlit("'");
    reveal_strlit("' | '");
    reveal_strlit(" | ");
    let q = "'"@;
    if vs.len() == 1 {
        assert(join(vs, "' | '"@) == vs[0]);
        assert(quoted(vs).len() == 1);
        assert(join(quoted(vs), " | "@) == quoted(vs)[0]);
    } else {
        let init = vs.drop_last();
        lemma_literal_union(init);
        assert(quoted(vs).drop_last() =~= quoted(init));
        assert(quoted(vs).last() == q + vs.last() + q);
        assert("' | '"@ =~= q + " | "@ + q);
        assert(literal_union(vs) =~= (q + join(init, "' | '"@) + q) + " | "@ + (q + vs.last() + q));
    }
}

} // verus!
