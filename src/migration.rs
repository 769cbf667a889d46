//! The storage and validation artifact contexts: the migration's column
//! list with its synthesized standard columns, and the validation schema.
use vstd::prelude::*;
use crate::schema::{
    EntitySchema, Field, FieldType, RLSPolicy, indexed, writable, updatable, enums, targets,
    sql_type_of, zod_type_of,
};
use crate::contexts::{
    OperationContext, OperationContextBuilder, opt_view, operation_views, operation_contexts_of,
};
use crate::strutil::{owned, str_eq, starts_with, clone_strings, clone_opt, views};

verus! {

/// One column of the migration.
#[derive(Debug)]
pub struct ColumnContext {
    pub name: String,
    pub db_name: String,
    pub sql_type: String,
    pub required: bool,
    pub default: Option<String>,
    pub primary_key: bool,
    pub unique: bool,
    pub references: Option<String>,
    pub on_delete: Option<String>,
    pub enum_values: Option<Vec<String>>,
    pub index: bool,
    pub index_type: Option<String>,
}

pub struct ColumnView {
    pub name: Seq<char>,
    pub db_name: Seq<char>,
    pub sql_type: Seq<char>,
    pub required: bool,
    pub default: Option<Seq<char>>,
    pub primary_key: bool,
    pub unique: bool,
    pub references: Option<Seq<char>>,
    pub on_delete: Option<Seq<char>>,
    pub enum_values: Option<Seq<Seq<char>>>,
    pub index: bool,
    pub index_type: Option<Seq<char>>,
}

pub open spec fn opt_views(o: Option<Vec<String>>) -> Option<Seq<Seq<char>>> {
    match o {
        Some(v) => Some(views(v@)),
        None => None,
    }
}

impl View for ColumnContext {
    type V = ColumnView;

    open spec fn view(&self) -> ColumnView {
        ColumnView {
            name: self.name@,
            db_name: self.db_name@,
            sql_type: self.sql_type@,
            required: self.required,
            default: opt_view(self.default),
            primary_key: self.primary_key,
            unique: self.unique,
            references: opt_view(self.references),
            on_delete: opt_view(self.on_delete),
            enum_values: opt_views(self.enum_values),
            index: self.index,
            index_type: opt_view(self.index_type),
        }
    }
}

pub open spec fn column_views(s: Seq<ColumnContext>) -> Seq<ColumnView> {
    s.map_values(|c: ColumnContext| c@)
}

/// A standard column with no constraint beyond its name, type and default.
pub open spec fn plain_column(
    name: Seq<char>,
    db_name: Seq<char>,
    sql_type: Seq<char>,
    required: bool,
    default: Option<Seq<char>>,
) -> ColumnView {
    ColumnView {
        name,
        db_name,
        sql_type,
        required,
        default,
        primary_key: false,
        unique: false,
        references: None,
        on_delete: None,
        enum_values: None,
        index: false,
        index_type: None,
    }
}

/// The generated identifier, the leading column.
pub open spec fn id_column() -> ColumnView {
    ColumnView {
        primary_key: true,
        ..plain_column("id"@, "id"@, "UUID"@, true, Some("gen_random_uuid()"@))
    }
}

/// The owner reference, second column, indexed.
pub open spec fn owner_column() -> ColumnView {
    ColumnView {
        references: Some("auth.users(id)"@),
        on_delete: Some("CASCADE"@),
        index: true,
        ..plain_column("userId"@, "user_id"@, "UUID"@, true, None)
    }
}

/// The owner reference as it stands in the index list.
pub open spec fn owner_index() -> ColumnView {
    ColumnView { index: true, ..plain_column("userId"@, "user_id"@, "UUID"@, true, None) }
}

pub open spec fn created_at_column() -> ColumnView {
    plain_column("createdAt"@, "created_at"@, "TIMESTAMPTZ"@, false, Some("NOW()"@))
}

pub open spec fn updated_at_column() -> ColumnView {
    plain_column("updatedAt"@, "updated_at"@, "TIMESTAMPTZ"@, false, Some("NOW()"@))
}

/// Whether a default is already an SQL expression rather than a bare word.
pub open spec fn is_sql_expression(d: Seq<char>) -> bool {
    d.len() > 0 && d[0] == '\'' || (d.len() >= 15 && d.take(15) == "gen_random_uuid"@) || (d.len()
        >= 3 && d.take(3) == "NOW"@)
}

/// The default of a column: a bare word on a text or enum field is quoted.
pub open spec fn column_default(f: Field) -> Option<Seq<char>> {
    match f.default {
        None => None,
        Some(d) => if (f.field_type == FieldType::Enum || f.field_type == FieldType::String)
            && !is_sql_expression(d@) {
            Some("'"@ + d@ + "'"@)
        } else {
            Some(d@)
        },
    }
}

/// A declared field as a column; `default` is the column's default.
pub open spec fn field_column(f: Field, default: Option<Seq<char>>) -> ColumnView {
    ColumnView {
        name: f.name@,
        db_name: f.db_name@,
        sql_type: sql_type_of(f),
        required: f.required,
        default,
        primary_key: f.primary_key,
        unique: f.unique,
        references: opt_view(f.references),
        on_delete: opt_view(f.on_delete),
        enum_values: opt_views(f.enum_values),
        index: f.index,
        index_type: opt_view(f.index_type),
    }
}

pub open spec fn user_columns(fs: Seq<Field>) -> Seq<ColumnView> {
    fs.map_values(|f: Field| field_column(f, column_default(f)))
}

pub open spec fn index_columns(fs: Seq<Field>) -> Seq<ColumnView> {
    fs.map_values(|f: Field| field_column(f, opt_view(f.default)))
}

/// The columns of the migration: identifier and owner reference, the
/// declared fields in order, then the two timestamps.
pub open spec fn migration_columns(fs: Seq<Field>) -> Seq<ColumnView> {
    seq![id_column(), owner_column()] + user_columns(fs) + seq![created_at_column(), updated_at_column()]
}

/// The indexed columns: the owner reference, then the declared fields
/// flagged for indexing.
pub open spec fn migration_indexes(fs: Seq<Field>) -> Seq<ColumnView> {
    seq![owner_index()] + index_columns(indexed(fs))
}

/// Whether a declared field takes the name or column of a standard one.
pub open spec fn collides(f: Field) -> bool {
    f.name@ == "id"@ || f.name@ == "userId"@ || f.name@ == "createdAt"@ || f.name@ == "updatedAt"@
        || f.db_name@ == "id"@ || f.db_name@ == "user_id"@ || f.db_name@ == "created_at"@
        || f.db_name@ == "updated_at"@
}

pub open spec fn has_collision(fs: Seq<Field>) -> bool {
    exists|i: int| 0 <= i < fs.len() && collides(fs[i])
}

/// A row-level security policy as the migration carries it.
#[derive(Debug)]
pub struct RLSPolicyContext {
    pub action: String,
    pub name: String,
    pub using: Option<String>,
    pub with_check: Option<String>,
}

pub open spec fn policy_carried(c: RLSPolicyContext, p: RLSPolicy) -> bool {
    c.action@ == p.action@ && c.name@ == p.name@ && opt_view(c.using) == opt_view(p.using)
        && opt_view(c.with_check) == opt_view(p.with_check)
}

#[derive(Debug)]
pub struct DocumentationContext {
    pub description: Option<String>,
}

pub open spec fn description_of(s: EntitySchema) -> Option<Seq<char>> {
    match s.documentation {
        Some(d) => opt_view(d.description),
        None => None,
    }
}

/// The context of the migration artifact.
#[derive(Debug)]
pub struct MigrationContext {
    pub name: String,
    pub table_name: String,
    pub fields: Vec<ColumnContext>,
    pub indexed_fields: Vec<ColumnContext>,
    pub rls: Vec<RLSPolicyContext>,
    pub has_updated_at: bool,
    pub documentation: DocumentationContext,
}

fn plain(name: &str, db_name: &str, sql_type: &str, required: bool, default: Option<String>) -> (r: ColumnContext)
    ensures
        r@ == plain_column(name@, db_name@, sql_type@, required, opt_view(default)),
{
    ColumnContext {
        name: owned(name),
        db_name: owned(db_name),
        sql_type: owned(sql_type),
        required,
        default,
        primary_key: false,
        unique: false,
        references: None,
        on_delete: None,
        enum_values: None,
        index: false,
        index_type: None,
    }
}

fn default_for(f: &Field) -> (r: Option<String>)
    ensures
        opt_view(r) == column_default(*f),
{
    proof {
        reveal_strlit("'");
        reveal_strlit("gen_random_uuid");
        reveal_strlit("NOW");
    }
    match &f.default {
        None => None,
        Some(d) => {
            let texty = f.field_type == FieldType::Enum || f.field_type == FieldType::String;
            let quoted_already = starts_with(d.as_str(), "'");
            proof {
                if d@.len() > 0 {
                    assert(d@.subrange(0, 1)[0] == d@[0]);
                    if d@[0] == '\'' {
                        assert(d@.subrange(0, 1) =~= "'"@);
                    }
                }
            }
            if texty && !quoted_already && !starts_with(d.as_str(), "gen_random_uuid")
                && !starts_with(d.as_str(), "NOW") {
                let mut q = owned("'");
                q.append(d.as_str());
                q.append("'");
                Some(q)
            } else {
                Some(d.clone())
            }
        },
    }
}

fn clone_opt_strings(o: &Option<Vec<String>>) -> (r: Option<Vec<String>>)
    ensures
        opt_views(r) == opt_views(*o),
{
    match o {
        Some(v) => Some(clone_strings(v)),
        None => None,
    }
}

fn column_of(f: &Field, default: Option<String>) -> (r: ColumnContext)
    ensures
        r@ == field_column(*f, opt_view(default)),
{
    ColumnContext {
        name: f.name.clone(),
        db_name: f.db_name.clone(),
        sql_type: f.sql_type(),
        required: f.required,
        default,
        primary_key: f.primary_key,
        unique: f.unique,
        references: clone_opt(&f.references),
        on_delete: clone_opt(&f.on_delete),
        enum_values: clone_opt_strings(&f.enum_values),
        index: f.index,
        index_type: clone_opt(&f.index_type),
    }
}

fn first_collision(fields: &Vec<Field>) -> (r: Option<usize>)
    ensures
        match r {
            Some(i) => i < fields@.len() && collides(fields@[i as int]),
            None => !has_collision(fields@),
        },
{
    let mut i: usize = 0;
    while i < fields.len()
        invariant
            0 <= i <= fields@.len(),
            forall|k: int| 0 <= k < i ==> !collides(#[trigger] fields@[k]),
        decreases fields@.len() - i,
    {
        let f = &fields[i];
        let n = f.name.as_str();
        let d = f.db_name.as_str();
        if str_eq(n, "id") || str_eq(n, "userId") || str_eq(n, "createdAt") || str_eq(n, "updatedAt")
            || str_eq(d, "id") || str_eq(d, "user_id") || str_eq(d, "created_at") || str_eq(
            d,
            "updated_at",
        ) {
            return Some(i);
        }
        i += 1;
    }
    None
}

impl MigrationContext {
    /// The migration context, or the name of a declared field that would
    /// duplicate one of the standard columns.
    pub fn from_schema(schema: &EntitySchema) -> (r: Result<Self, String>)
        ensures
            r is Err <==> has_collision(schema.fields@),
            match r {
                Ok(m) => {
                    &&& m.name@ == schema.name@
                    &&& m.table_name@ == schema.table_name@
                    &&& column_views(m.fields@) == migration_columns(schema.fields@)
                    &&& column_views(m.indexed_fields@) == migration_indexes(schema.fields@)
                    &&& m.rls@.len() == schema.rls@.len()
                    &&& forall|i: int|
                        0 <= i < m.rls@.len() ==> policy_carried(m.rls@[i], schema.rls@[i])
                    &&& m.has_updated_at
                    &&& opt_view(m.documentation.description) == description_of(*schema)
                },
                Err(n) => exists|i: int|
                    0 <= i < schema.fields@.len() && collides(schema.fields@[i]) && n@
                        == schema.fields@[i].name@,
            },
    {
        if let Some(i) = first_collision(&schema.fields) {
            return Err(schema.fields[i].name.clone());
        }
        let fs = &schema.fields;
        let mut fields: Vec<ColumnContext> = Vec::new();
        let mut id = plain("id", "id", "UUID", true, Some(owned("gen_random_uuid()")));
        id.primary_key = true;
        fields.push(id);
        let mut owner = plain("userId", "user_id", "UUID", true, None);
        owner.references = Some(owned("auth.users(id)"));
        owner.on_delete = Some(owned("CASCADE"));
        owner.index = true;
        fields.push(owner);
        let ghost head = column_views(fields@);
        assert(head =~= seq![id_column(), owner_column()]);
        let mut i: usize = 0;
        while i < fs.len()
            invariant
                0 <= i <= fs@.len(),
                fields@.len() == 2 + i,
                head == seq![id_column(), owner_column()],
                column_views(fields@) == head + user_columns(fs@.take(i as int)),
            decreases fs@.len() - i,
        {
            let ghost prev = fields@;
            let c = column_of(&fs[i], default_for(&fs[i]));
            fields.push(c);
            proof {
                assert(column_views(fields@) =~= column_views(prev).push(c@));
                assert(fs@.take(i + 1) =~= fs@.take(i as int).push(fs@[i as int]));
                assert(user_columns(fs@.take(i + 1)) =~= user_columns(fs@.take(i as int)).push(
                    field_column(fs@[i as int], column_default(fs@[i as int])),
                ));
                assert(column_views(fields@) =~= head + user_columns(fs@.take(i + 1)));
            }
            i += 1;
        }
        assert(fs@.take(fs@.len() as int) =~= fs@);
        let created = plain("createdAt", "created_at", "TIMESTAMPTZ", false, Some(owned("NOW()")));
        fields.push(created);
        let updated = plain("updatedAt", "updated_at", "TIMESTAMPTZ", false, Some(owned("NOW()")));
        fields.push(updated);
        assert(column_views(fields@) =~= migration_columns(fs@));

        let mut indexed_fields: Vec<ColumnContext> = Vec::new();
        let mut oi = plain("userId", "user_id", "UUID", true, None);
        oi.index = true;
        indexed_fields.push(oi);
        let ix = schema.indexed_fields();
        let mut j: usize = 0;
        while j < ix.len()
            invariant
                0 <= j <= ix@.len(),
                indexed_fields@.len() == 1 + j,
                targets(ix@) == indexed(fs@),
                column_views(indexed_fields@) == seq![owner_index()] + index_columns(
                    targets(ix@).take(j as int),
                ),
            decreases ix@.len() - j,
        {
            let ghost prev = indexed_fields@;
            let f = ix[j];
            let c = column_of(f, clone_opt(&f.default));
            indexed_fields.push(c);
            proof {
                let t = targets(ix@);
                assert(column_views(indexed_fields@) =~= column_views(prev).push(c@));
                assert(t.take(j + 1) =~= t.take(j as int).push(t[j as int]));
                assert(index_columns(t.take(j + 1)) =~= index_columns(t.take(j as int)).push(
                    field_column(t[j as int], opt_view(t[j as int].default)),
                ));
                assert(column_views(indexed_fields@) =~= seq![owner_index()] + index_columns(
                    t.take(j + 1),
                ));
            }
            j += 1;
        }
        assert(targets(ix@).take(ix@.len() as int) =~= targets(ix@));

        let mut rls: Vec<RLSPolicyContext> = Vec::new();
        let mut k: usize = 0;
        while k < schema.rls.len()
            invariant
                0 <= k <= schema.rls@.len(),
                rls@.len() == k,
                forall|m: int| 0 <= m < k ==> policy_carried(rls@[m], schema.rls@[m]),
            decreases schema.rls@.len() - k,
        {
            let p = &schema.rls[k];
            rls.push(
                RLSPolicyContext {
                    action: p.action.clone(),
                    name: p.name.clone(),
                    using: clone_opt(&p.using),
                    with_check: clone_opt(&p.with_check),
                },
            );
            k += 1;
        }
        let description = match &schema.documentation {
            Some(d) => clone_opt(&d.description),
            None => None,
        };
        Ok(
            MigrationContext {
                name: schema.name.clone(),
                table_name: schema.table_name.clone(),
                fields,
                indexed_fields,
                rls,
                has_updated_at: true,
                documentation: DocumentationContext { description },
            },
        )
    }
}


/// A field as the validation schema sees it.
#[derive(Debug)]
pub struct ZodFieldContext {
    pub name: String,
    pub db_name: String,
    pub zod_type: String,
    pub required: bool,
    pub enum_values: Option<Vec<String>>,
}

pub struct ZodFieldView {
    pub name: Seq<char>,
    pub db_name: Seq<char>,
    pub zod_type: Seq<char>,
    pub required: bool,
    pub enum_values: Option<Seq<Seq<char>>>,
}

impl View for ZodFieldContext {
    type V = ZodFieldView;

    open spec fn view(&self) -> ZodFieldView {
        ZodFieldView {
            name: self.name@,
            db_name: self.db_name@,
            zod_type: self.zod_type@,
            required: self.required,
            enum_values: opt_views(self.enum_values),
        }
    }
}

pub open spec fn zod_field_of(f: Field) -> ZodFieldView {
    ZodFieldView {
        name: f.name@,
        db_name: f.db_name@,
        zod_type: zod_type_of(f),
        required: f.required,
        enum_values: opt_views(f.enum_values),
    }
}

pub open spec fn zod_views(s: Seq<ZodFieldContext>) -> Seq<ZodFieldView> {
    s.map_values(|c: ZodFieldContext| c@)
}

pub open spec fn zod_fields_of(fs: Seq<Field>) -> Seq<ZodFieldView> {
    fs.map_values(|f: Field| zod_field_of(f))
}

fn zod_field(f: &Field) -> (r: ZodFieldContext)
    ensures
        r@ == zod_field_of(*f),
{
    ZodFieldContext {
        name: f.name.clone(),
        db_name: f.db_name.clone(),
        zod_type: f.zod_type(),
        required: f.required,
        enum_values: clone_opt_strings(&f.enum_values),
    }
}

fn zod_fields(fs: &Vec<&Field>) -> (r: Vec<ZodFieldContext>)
    ensures
        zod_views(r@) == zod_fields_of(targets(fs@)),
{
    let mut r: Vec<ZodFieldContext> = Vec::new();
    let mut i: usize = 0;
    while i < fs.len()
        invariant
            0 <= i <= fs@.len(),
            r@.len() == i,
            zod_views(r@) == zod_fields_of(targets(fs@).take(i as int)),
        decreases fs@.len() - i,
    {
        let ghost prev = r@;
        let c = zod_field(fs[i]);
        r.push(c);
        proof {
            let t = targets(fs@);
            assert(zod_views(r@) =~= zod_views(prev).push(c@));
            assert(t.take(i + 1) =~= t.take(i as int).push(t[i as int]));
            assert(zod_fields_of(t.take(i + 1)) =~= zod_fields_of(t.take(i as int)).push(
                zod_field_of(t[i as int]),
            ));
        }
        i += 1;
    }
    assert(targets(fs@).take(fs@.len() as int) =~= targets(fs@));
    r
}

/// All declared fields, as references in declared order.
fn all_refs(fs: &Vec<Field>) -> (r: Vec<&Field>)
    ensures
        targets(r@) == fs@,
{
    let mut r: Vec<&Field> = Vec::new();
    let mut i: usize = 0;
    while i < fs.len()
        invariant
            0 <= i <= fs@.len(),
            r@.len() == i,
            targets(r@) == fs@.take(i as int),
        decreases fs@.len() - i,
    {
        let ghost prev = r@;
        r.push(&fs[i]);
        proof {
            assert(targets(r@) =~= targets(prev).push(fs@[i as int]));
            assert(fs@.take(i + 1) =~= fs@.take(i as int).push(fs@[i as int]));
        }
        i += 1;
    }
    assert(fs@.take(fs@.len() as int) =~= fs@);
    r
}

/// The context of the validation schema artifact.
#[derive(Debug)]
pub struct ZodSchemaContext {
    pub name: String,
    pub table_name: String,
    pub fields: Vec<ZodFieldContext>,
    pub enum_fields: Vec<ZodFieldContext>,
    pub writable_fields: Vec<ZodFieldContext>,
    pub updatable_fields: Vec<ZodFieldContext>,
    pub operations: Vec<OperationContext>,
}

impl ZodSchemaContext {
    /// Enum field names leave the operation filters: the validation schema
    /// declares each enum field on its own.
    pub fn from_schema(schema: &EntitySchema) -> (r: Self)
        ensures
            r.name@ == schema.name@,
            r.table_name@ == schema.table_name@,
            zod_views(r.fields@) == zod_fields_of(schema.fields@),
            zod_views(r.enum_fields@) == zod_fields_of(enums(schema.fields@)),
            zod_views(r.writable_fields@) == zod_fields_of(writable(schema.fields@)),
            zod_views(r.updatable_fields@) == zod_fields_of(updatable(schema.fields@)),
            operation_views(r.operations@) == operation_contexts_of(
                schema.operations@,
                schema.fields@,
                true,
            ),
    {
        let all = all_refs(&schema.fields);
        let e = schema.enum_fields();
        let w = schema.writable_fields();
        let u = schema.updatable_fields();
        ZodSchemaContext {
            name: schema.name.clone(),
            table_name: schema.table_name.clone(),
            fields: zod_fields(&all),
            enum_fields: zod_fields(&e),
            writable_fields: zod_fields(&w),
            updatable_fields: zod_fields(&u),
            operations: OperationContextBuilder::new(schema).exclude_enum_fields_from_filters().build(),
        }
    }
}


/// The migration's columns come in a fixed order: identifier, owner
/// reference, the declared fields in schema order, creation time, update
/// time. Its indexed columns are the owner reference and the declared
/// fields flagged for indexing.
pub proof fn lemma_migration_layout(fs: Seq<Field>)
    ensures
        migration_columns(fs).len() == fs.len() + 4,
        migration_columns(fs)[0] == id_column(),
        migration_columns(fs)[1] == owner_column(),
        forall|i: int|
            0 <= i < fs.len() ==> #[trigger] migration_columns(fs)[i + 2] == field_column(
                fs[i],
                column_default(fs[i]),
            ),
        migration_columns(fs)[fs.len() + 2int] == created_at_column(),
        migration_columns(fs)[fs.len() + 3int] == updated_at_column(),
        migration_indexes(fs).map_values(|c: ColumnView| c.name).to_set() == set!["userId"@].union(
            indexed(fs).map_values(|f: Field| f.name@).to_set(),
        ),
{
    let cols = migration_columns(fs);
    assert forall|i: int| 0 <= i < fs.len() implies #[trigger] cols[i + 2] == field_column(
        fs[i],
        column_default(fs[i]),
    ) by {
        assert(cols[i + 2] == user_columns(fs)[i]);
    }
    let names = migration_indexes(fs).map_values(|c: ColumnView| c.name);
    let declared = indexed(fs).map_values(|f: Field| f.name@);
    assert(names =~= seq!["userId"@] + declared);
    vstd::seq_lib::seq_to_set_distributes_over_add(seq!["userId"@], declared);
    assert(seq!["userId"@].to_set() =~= set!["userId"@]) by {
        assert(seq!["userId"@][0] == "userId"@);
        assert(seq!["userId"@].contains("userId"@));
    }
}

} // verus!
