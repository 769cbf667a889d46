//! Render contexts: one independent value per artifact kind, derived from an
//! entity schema. Field, enum and operation views are shared building blocks;
//! the operation builder removes enum field names from filters on request.
use vstd::prelude::*;
use crate::schema::{
    EntitySchema, Field, FieldType, Operation, OperationType, is_enum, writable, updatable, enums,
    targets, lemma_filter_all, lemma_filter_take_step, typescript_type_of, typescript_default_of,
    field_type_tag, operation_type_tag,
};
use crate::strutil::{owned, str_eq, clone_strings, clone_opt, views};

verus! {

/// A conversion from a schema node to one of its render views.
pub trait IntoContext<T> {
    fn into_context(&self) -> T;
}

/// The view of an optional string.
pub open spec fn opt_view(o: Option<String>) -> Option<Seq<char>> {
    match o {
        Some(s) => Some(s@),
        None => None,
    }
}

/// A field as the client-side templates see it.
#[derive(Debug, Clone)]
pub struct FieldContext {
    pub name: String,
    pub db_name: String,
    pub typescript_type: String,
    pub typescript_default: String,
    pub required: bool,
}

pub struct FieldContextView {
    pub name: Seq<char>,
    pub db_name: Seq<char>,
    pub typescript_type: Seq<char>,
    pub typescript_default: Seq<char>,
    pub required: bool,
}

impl View for FieldContext {
    type V = FieldContextView;

    open spec fn view(&self) -> FieldContextView {
        FieldContextView {
            name: self.name@,
            db_name: self.db_name@,
            typescript_type: self.typescript_type@,
            typescript_default: self.typescript_default@,
            required: self.required,
        }
    }
}

pub open spec fn field_context_of(f: Field) -> FieldContextView {
    FieldContextView {
        name: f.name@,
        db_name: f.db_name@,
        typescript_type: typescript_type_of(f),
        typescript_default: typescript_default_of(f),
        required: f.required,
    }
}

/// An enum field and its declared values.
#[derive(Debug, Clone)]
pub struct EnumFieldContext {
    pub name: String,
    pub db_name: String,
    pub enum_values: Vec<String>,
}

pub struct EnumFieldContextView {
    pub name: Seq<char>,
    pub db_name: Seq<char>,
    pub enum_values: Seq<Seq<char>>,
}

impl View for EnumFieldContext {
    type V = EnumFieldContextView;

    open spec fn view(&self) -> EnumFieldContextView {
        EnumFieldContextView {
            name: self.name@,
            db_name: self.db_name@,
            enum_values: views(self.enum_values@),
        }
    }
}

/// The declared values of a field; none when it declares none.
pub open spec fn values_of(f: Field) -> Seq<Seq<char>> {
    match f.enum_values {
        Some(vs) => views(vs@),
        None => Seq::empty(),
    }
}

pub open spec fn enum_context_of(f: Field) -> EnumFieldContextView {
    EnumFieldContextView { name: f.name@, db_name: f.db_name@, enum_values: values_of(f) }
}

/// An operation as the templates see it.
#[derive(Debug, Clone)]
pub struct OperationContext {
    pub op_type: String,
    pub name: Option<String>,
    pub description: Option<String>,
    pub filters: Vec<String>,
    pub limit: Option<usize>,
}

pub struct OperationContextView {
    pub op_type: Seq<char>,
    pub name: Option<Seq<char>>,
    pub description: Option<Seq<char>>,
    pub filters: Seq<Seq<char>>,
    pub limit: Option<usize>,
}

impl View for OperationContext {
    type V = OperationContextView;

    open spec fn view(&self) -> OperationContextView {
        OperationContextView {
            op_type: self.op_type@,
            name: opt_view(self.name),
            description: opt_view(self.description),
            filters: views(self.filters@),
            limit: self.limit,
        }
    }
}

/// Whether some field of enum type is named `n`.
pub open spec fn names_enum_field(fields: Seq<Field>, n: Seq<char>) -> bool {
    exists|i: int| 0 <= i < fields.len() && is_enum(fields[i]) && fields[i].name@ == n
}

/// The filters of `op`, without the names of enum fields when `exclude`
/// holds, in declared order.
pub open spec fn kept_filters(op: Operation, fields: Seq<Field>, exclude: bool) -> Seq<Seq<char>> {
    views(op.filters@).filter(keeps_filter(fields, exclude))
}

/// Whether a filter name stays: always without `exclude`, else when no
/// enum field carries it.
pub open spec fn keeps_filter(fields: Seq<Field>, exclude: bool) -> spec_fn(Seq<char>) -> bool {
    |n: Seq<char>| !(exclude && names_enum_field(fields, n))
}

pub open spec fn operation_context_of(op: Operation, fields: Seq<Field>, exclude: bool) -> OperationContextView {
    OperationContextView {
        op_type: operation_type_tag(op.op_type),
        name: opt_view(op.name),
        description: opt_view(op.description),
        filters: kept_filters(op, fields, exclude),
        limit: op.limit,
    }
}

/// A custom operation of the data-access layer.
#[derive(Debug, Clone)]
pub struct CustomOpContext {
    pub name: String,
    pub description: Option<String>,
    pub filters: Vec<String>,
    pub limit: Option<usize>,
}

pub struct CustomOpContextView {
    pub name: Seq<char>,
    pub description: Option<Seq<char>>,
    pub filters: Seq<Seq<char>>,
    pub limit: Option<usize>,
}

impl View for CustomOpContext {
    type V = CustomOpContextView;

    open spec fn view(&self) -> CustomOpContextView {
        CustomOpContextView {
            name: self.name@,
            description: opt_view(self.description),
            filters: views(self.filters@),
            limit: self.limit,
        }
    }
}

pub open spec fn custom_op_context_of(op: Operation) -> CustomOpContextView {
    CustomOpContextView {
        name: match op.name {
            Some(n) => n@,
            None => Seq::empty(),
        },
        description: opt_view(op.description),
        filters: views(op.filters@),
        limit: op.limit,
    }
}

/// A field as the UI templates see it.
#[derive(Debug, Clone)]
pub struct UIFieldContext {
    pub name: String,
    pub db_name: String,
    pub typescript_type: String,
    pub typescript_default: String,
    pub field_type: String,
    pub required: bool,
    pub enum_values: Vec<String>,
}

pub struct UIFieldContextView {
    pub name: Seq<char>,
    pub db_name: Seq<char>,
    pub typescript_type: Seq<char>,
    pub typescript_default: Seq<char>,
    pub field_type: Seq<char>,
    pub required: bool,
    pub enum_values: Seq<Seq<char>>,
}

impl View for UIFieldContext {
    type V = UIFieldContextView;

    open spec fn view(&self) -> UIFieldContextView {
        UIFieldContextView {
            name: self.name@,
            db_name: self.db_name@,
            typescript_type: self.typescript_type@,
            typescript_default: self.typescript_default@,
            field_type: self.field_type@,
            required: self.required,
            enum_values: views(self.enum_values@),
        }
    }
}

pub open spec fn ui_field_context_of(f: Field) -> UIFieldContextView {
    UIFieldContextView {
        name: f.name@,
        db_name: f.db_name@,
        typescript_type: typescript_type_of(f),
        typescript_default: typescript_default_of(f),
        field_type: field_type_tag(f.field_type),
        required: f.required,
        enum_values: values_of(f),
    }
}

pub open spec fn field_views(s: Seq<FieldContext>) -> Seq<FieldContextView> {
    s.map_values(|c: FieldContext| c@)
}

pub open spec fn enum_views(s: Seq<EnumFieldContext>) -> Seq<EnumFieldContextView> {
    s.map_values(|c: EnumFieldContext| c@)
}

pub open spec fn operation_views(s: Seq<OperationContext>) -> Seq<OperationContextView> {
    s.map_values(|c: OperationContext| c@)
}

pub open spec fn custom_views(s: Seq<CustomOpContext>) -> Seq<CustomOpContextView> {
    s.map_values(|c: CustomOpContext| c@)
}

pub open spec fn ui_views(s: Seq<UIFieldContext>) -> Seq<UIFieldContextView> {
    s.map_values(|c: UIFieldContext| c@)
}

/// The client-side view of one field.
pub fn field_context(f: &Field) -> (r: FieldContext)
    ensures
        r@ == field_context_of(*f),
{
    FieldContext {
        name: f.name.clone(),
        db_name: f.db_name.clone(),
        typescript_type: f.typescript_type(),
        typescript_default: f.typescript_default(),
        required: f.required,
    }
}

fn values_vec(f: &Field) -> (r: Vec<String>)
    ensures
        views(r@) == values_of(*f),
{
    match &f.enum_values {
        Some(vs) => clone_strings(vs),
        None => Vec::new(),
    }
}

/// The enum view of one field.
pub fn enum_field_context(f: &Field) -> (r: EnumFieldContext)
    ensures
        r@ == enum_context_of(*f),
{
    EnumFieldContext { name: f.name.clone(), db_name: f.db_name.clone(), enum_values: values_vec(f) }
}

/// The UI view of one field.
pub fn ui_field_context(f: &Field) -> (r: UIFieldContext)
    ensures
        r@ == ui_field_context_of(*f),
{
    UIFieldContext {
        name: f.name.clone(),
        db_name: f.db_name.clone(),
        typescript_type: f.typescript_type(),
        typescript_default: f.typescript_default(),
        field_type: owned(f.field_type.as_str()),
        required: f.required,
        enum_values: values_vec(f),
    }
}

/// The view of one operation with every filter kept.
pub fn operation_context(op: &Operation) -> (r: OperationContext)
    ensures
        r@ == operation_context_of(*op, Seq::empty(), false),
{
    let r = OperationContext {
        op_type: owned(op.op_type.as_str()),
        name: clone_opt(&op.name),
        description: clone_opt(&op.description),
        filters: clone_strings(&op.filters),
        limit: op.limit,
    };
    proof {
        lemma_filter_all(views(op.filters@), keeps_filter(Seq::empty(), false));
    }
    r
}

impl IntoContext<FieldContext> for Field {
    fn into_context(&self) -> FieldContext {
        field_context(self)
    }
}

impl IntoContext<EnumFieldContext> for Field {
    fn into_context(&self) -> EnumFieldContext {
        enum_field_context(self)
    }
}

impl IntoContext<UIFieldContext> for Field {
    fn into_context(&self) -> UIFieldContext {
        ui_field_context(self)
    }
}

impl IntoContext<OperationContext> for Operation {
    fn into_context(&self) -> OperationContext {
        operation_context(self)
    }
}


pub open spec fn field_contexts_of(fs: Seq<Field>) -> Seq<FieldContextView> {
    fs.map_values(|f: Field| field_context_of(f))
}

pub open spec fn enum_contexts_of(fs: Seq<Field>) -> Seq<EnumFieldContextView> {
    fs.map_values(|f: Field| enum_context_of(f))
}

pub open spec fn ui_contexts_of(fs: Seq<Field>) -> Seq<UIFieldContextView> {
    fs.map_values(|f: Field| ui_field_context_of(f))
}

pub open spec fn operation_contexts_of(ops: Seq<Operation>, fields: Seq<Field>, exclude: bool) -> Seq<OperationContextView> {
    ops.map_values(|op: Operation| operation_context_of(op, fields, exclude))
}

/// Whether `v` is the name of a declared custom operation.
pub open spec fn is_custom_op_name(ops: Seq<Operation>, v: Seq<char>) -> bool {
    exists|k: int|
        0 <= k < ops.len() && ops[k].op_type == OperationType::Custom && opt_view(ops[k].name)
            == Some(v)
}

/// Whether a value of `f` other than its first (the default, which gets no
/// helper) is also the name of a custom operation.
pub open spec fn clashes_with_operation(f: Field, ops: Seq<Operation>) -> bool {
    exists|j: int| 1 <= j < values_of(f).len() && is_custom_op_name(ops, values_of(f)[j])
}

/// The enum fields that the command-line client declares helpers for.
pub open spec fn client_enum_fields(fields: Seq<Field>, ops: Seq<Operation>) -> Seq<Field> {
    enums(fields).filter(|f: Field| !clashes_with_operation(f, ops))
}

/// At most the first `n` items of `s`.
pub open spec fn first_n<A>(s: Seq<A>, n: nat) -> Seq<A> {
    if s.len() <= n {
        s
    } else {
        s.take(n as int)
    }
}

/// The writable fields shown in a list: without the owner reference, at
/// most `n` of them.
pub open spec fn display_fields_of(fields: Seq<Field>, n: nat) -> Seq<Field> {
    first_n(writable(fields).filter(|f: Field| f.name@ != "userId"@), n)
}

pub open spec fn has_content(fields: Seq<Field>) -> bool {
    exists|i: int| 0 <= i < fields.len() && fields[i].name@ == "content"@
}

fn is_enum_field_name(fields: &Vec<Field>, n: &str) -> (r: bool)
    ensures
        r == names_enum_field(fields@, n@),
{
    let mut i: usize = 0;
    while i < fields.len()
        invariant
            0 <= i <= fields@.len(),
            forall|k: int| 0 <= k < i ==> !(is_enum(fields@[k]) && fields@[k].name@ == n@),
        decreases fields@.len() - i,
    {
        if fields[i].field_type == FieldType::Enum && str_eq(fields[i].name.as_str(), n) {
            return true;
        }
        i += 1;
    }
    false
}

fn filters_for(op: &Operation, fields: &Vec<Field>, exclude: bool) -> (r: Vec<String>)
    ensures
        views(r@) == kept_filters(*op, fields@, exclude),
{
    let ghost all = views(op.filters@);
    let ghost keep = keeps_filter(fields@, exclude);
    let mut r: Vec<String> = Vec::new();
    let mut j: usize = 0;
    while j < op.filters.len()
        invariant
            0 <= j <= op.filters@.len(),
            all == views(op.filters@),
            keep == keeps_filter(fields@, exclude),
            views(r@) == all.take(j as int).filter(keep),
        decreases op.filters@.len() - j,
    {
        proof {
            lemma_filter_take_step(all, keep, j as int);
        }
        let f = &op.filters[j];
        if !exclude || !is_enum_field_name(fields, f.as_str()) {
            r.push(f.clone());
            assert(views(r@) =~= all.take(j as int).filter(keep).push(all[j as int]));
        }
        j += 1;
    }
    assert(all.take(all.len() as int) =~= all);
    r
}

/// Builds the operation views of a schema, optionally without the names of
/// enum fields in their filters.
pub struct OperationContextBuilder<'a> {
    schema: &'a EntitySchema,
    exclude_enum_fields_from_filters: bool,
}

impl<'a> OperationContextBuilder<'a> {
    /// The schema whose operations are built.
    pub closed spec fn source(&self) -> EntitySchema {
        *self.schema
    }

    /// Whether enum field names are removed from the filters.
    pub closed spec fn excludes(&self) -> bool {
        self.exclude_enum_fields_from_filters
    }

    /// A builder that keeps every filter.
    pub fn new(schema: &'a EntitySchema) -> (r: Self)
        ensures
            r.source() == *schema,
            !r.excludes(),
    {
        OperationContextBuilder { schema, exclude_enum_fields_from_filters: false }
    }

    /// The same builder, set to remove enum field names from the filters.
    pub fn exclude_enum_fields_from_filters(self) -> (r: Self)
        ensures
            r.source() == self.source(),
            r.excludes(),
    {
        OperationContextBuilder { schema: self.schema, exclude_enum_fields_from_filters: true }
    }

    /// One view per declared operation, in declared order.
    pub fn build(self) -> (r: Vec<OperationContext>)
        ensures
            operation_views(r@) == operation_contexts_of(
                self.source().operations@,
                self.source().fields@,
                self.excludes(),
            ),
    {
        let ops = &self.schema.operations;
        let fields = &self.schema.fields;
        let exclude = self.exclude_enum_fields_from_filters;
        let mut r: Vec<OperationContext> = Vec::new();
        let mut i: usize = 0;
        while i < ops.len()
            invariant
                0 <= i <= ops@.len(),
                r@.len() == i,
                operation_views(r@) == operation_contexts_of(ops@.take(i as int), fields@, exclude),
            decreases ops@.len() - i,
        {
            let op = &ops[i];
            let c = OperationContext {
                op_type: owned(op.op_type.as_str()),
                name: clone_opt(&op.name),
                description: clone_opt(&op.description),
                filters: filters_for(op, fields, exclude),
                limit: op.limit,
            };
            let ghost prev = r@;
            r.push(c);
            proof {
                assert(operation_views(r@) =~= operation_views(prev).push(c@));
                assert(ops@.take(i + 1) =~= ops@.take(i as int).push(ops@[i as int]));
                assert(operation_contexts_of(ops@.take(i + 1), fields@, exclude) =~= operation_contexts_of(
                    ops@.take(i as int),
                    fields@,
                    exclude,
                ).push(operation_context_of(ops@[i as int], fields@, exclude)));
            }
            i += 1;
        }
        assert(ops@.take(ops@.len() as int) =~= ops@);
        r
    }
}

fn fields_to_context(fs: &Vec<&Field>) -> (r: Vec<FieldContext>)
    ensures
        field_views(r@) == field_contexts_of(targets(fs@)),
{
    let mut r: Vec<FieldContext> = Vec::new();
    let mut i: usize = 0;
    while i < fs.len()
        invariant
            0 <= i <= fs@.len(),
            r@.len() == i,
            field_views(r@) == field_contexts_of(targets(fs@).take(i as int)),
        decreases fs@.len() - i,
    {
        let ghost prev = r@;
        let c = field_context(fs[i]);
        r.push(c);
        proof {
            assert(field_views(r@) =~= field_views(prev).push(c@));
            assert(targets(fs@).take(i + 1) =~= targets(fs@).take(i as int).push(targets(fs@)[i as int]));
            assert(field_contexts_of(targets(fs@).take(i + 1)) =~= field_contexts_of(targets(fs@).take(i as int)).push(
                field_context_of(targets(fs@)[i as int]),
            ));
        }
        i += 1;
    }
    assert(targets(fs@).take(fs@.len() as int) =~= targets(fs@));
    r
}

fn all_fields_to_context(fs: &Vec<Field>) -> (r: Vec<FieldContext>)
    ensures
        field_views(r@) == field_contexts_of(fs@),
{
    let mut r: Vec<FieldContext> = Vec::new();
    let mut i: usize = 0;
    while i < fs.len()
        invariant
            0 <= i <= fs@.len(),
            r@.len() == i,
            field_views(r@) == field_contexts_of(fs@.take(i as int)),
        decreases fs@.len() - i,
    {
        let ghost prev = r@;
        let c = field_context(&fs[i]);
        r.push(c);
        proof {
            assert(field_views(r@) =~= field_views(prev).push(c@));
            assert(fs@.take(i + 1) =~= fs@.take(i as int).push(fs@[i as int]));
            assert(field_contexts_of(fs@.take(i + 1)) =~= field_contexts_of(fs@.take(i as int)).push(
                field_context_of(fs@[i as int]),
            ));
        }
        i += 1;
        assert(field_views(r@) =~= field_contexts_of(fs@.take(i as int)));
    }
    assert(fs@.take(fs@.len() as int) =~= fs@);
    r
}

fn ui_fields_to_context(fs: &Vec<&Field>) -> (r: Vec<UIFieldContext>)
    ensures
        ui_views(r@) == ui_contexts_of(targets(fs@)),
{
    let mut r: Vec<UIFieldContext> = Vec::new();
    let mut i: usize = 0;
    while i < fs.len()
        invariant
            0 <= i <= fs@.len(),
            r@.len() == i,
            ui_views(r@) == ui_contexts_of(targets(fs@).take(i as int)),
        decreases fs@.len() - i,
    {
        let ghost prev = r@;
        let c = ui_field_context(fs[i]);
        r.push(c);
        proof {
            assert(ui_views(r@) =~= ui_views(prev).push(c@));
            assert(targets(fs@).take(i + 1) =~= targets(fs@).take(i as int).push(targets(fs@)[i as int]));
            assert(ui_contexts_of(targets(fs@).take(i + 1)) =~= ui_contexts_of(targets(fs@).take(i as int)).push(
                ui_field_context_of(targets(fs@)[i as int]),
            ));
        }
        i += 1;
    }
    assert(targets(fs@).take(fs@.len() as int) =~= targets(fs@));
    r
}

fn all_ui_fields_to_context(fs: &Vec<Field>) -> (r: Vec<UIFieldContext>)
    ensures
        ui_views(r@) == ui_contexts_of(fs@),
{
    let mut r: Vec<UIFieldContext> = Vec::new();
    let mut i: usize = 0;
    while i < fs.len()
        invariant
            0 <= i <= fs@.len(),
            r@.len() == i,
            ui_views(r@) == ui_contexts_of(fs@.take(i as int)),
        decreases fs@.len() - i,
    {
        let ghost prev = r@;
        let c = ui_field_context(&fs[i]);
        r.push(c);
        proof {
            assert(ui_views(r@) =~= ui_views(prev).push(c@));
            assert(fs@.take(i + 1) =~= fs@.take(i as int).push(fs@[i as int]));
            assert(ui_contexts_of(fs@.take(i + 1)) =~= ui_contexts_of(fs@.take(i as int)).push(
                ui_field_context_of(fs@[i as int]),
            ));
        }
        i += 1;
    }
    assert(fs@.take(fs@.len() as int) =~= fs@);
    r
}

fn enums_to_context(fs: &Vec<&Field>) -> (r: Vec<EnumFieldContext>)
    ensures
        enum_views(r@) == enum_contexts_of(targets(fs@)),
{
    let mut r: Vec<EnumFieldContext> = Vec::new();
    let mut i: usize = 0;
    while i < fs.len()
        invariant
            0 <= i <= fs@.len(),
            r@.len() == i,
            enum_views(r@) == enum_contexts_of(targets(fs@).take(i as int)),
        decreases fs@.len() - i,
    {
        let ghost prev = r@;
        let c = enum_field_context(fs[i]);
        r.push(c);
        proof {
            assert(enum_views(r@) =~= enum_views(prev).push(c@));
            assert(targets(fs@).take(i + 1) =~= targets(fs@).take(i as int).push(targets(fs@)[i as int]));
            assert(enum_contexts_of(targets(fs@).take(i + 1)) =~= enum_contexts_of(targets(fs@).take(i as int)).push(
                enum_context_of(targets(fs@)[i as int]),
            ));
        }
        i += 1;
    }
    assert(targets(fs@).take(fs@.len() as int) =~= targets(fs@));
    r
}

fn enum_fields_to_context(schema: &EntitySchema) -> (r: Vec<EnumFieldContext>)
    ensures
        enum_views(r@) == enum_contexts_of(enums(schema.fields@)),
{
    let e = schema.enum_fields();
    enums_to_context(&e)
}

fn any_named_content(fields: &Vec<Field>) -> (r: bool)
    ensures
        r == has_content(fields@),
{
    let mut i: usize = 0;
    while i < fields.len()
        invariant
            0 <= i <= fields@.len(),
            forall|k: int| 0 <= k < i ==> fields@[k].name@ != "content"@,
        decreases fields@.len() - i,
    {
        if str_eq(fields[i].name.as_str(), "content") {
            return true;
        }
        i += 1;
    }
    false
}

/// The first `n` writable fields other than the owner reference.
fn display_fields(schema: &EntitySchema, n: usize) -> (r: Vec<UIFieldContext>)
    ensures
        ui_views(r@) == ui_contexts_of(display_fields_of(schema.fields@, n as nat)),
{
    let w = schema.writable_fields();
    let ghost shown = targets(w@).filter(|f: Field| f.name@ != "userId"@);
    let mut picked: Vec<&Field> = Vec::new();
    let mut i: usize = 0;
    while i < w.len() && picked.len() < n
        invariant
            0 <= i <= w@.len(),
            targets(w@) == writable(schema.fields@),
            shown == targets(w@).filter(|f: Field| f.name@ != "userId"@),
            targets(picked@) == targets(w@).take(i as int).filter(|f: Field| f.name@ != "userId"@),
            picked@.len() <= n,
        decreases w@.len() - i,
    {
        proof {
            lemma_filter_take_step(targets(w@), |f: Field| f.name@ != "userId"@, i as int);
        }
        if !str_eq(w[i].name.as_str(), "userId") {
            picked.push(w[i]);
            assert(targets(picked@) =~= targets(w@).take(i as int).filter(
                |f: Field| f.name@ != "userId"@,
            ).push(targets(w@)[i as int]));
        }
        i += 1;
    }
    proof {
        if i == w@.len() {
            assert(targets(w@).take(i as int) =~= targets(w@));
        } else {
            lemma_filter_prefix(targets(w@), |f: Field| f.name@ != "userId"@, i as int);
        }
    }
    ui_fields_to_context(&picked)
}

/// A filter over a prefix is a prefix of the filter.
proof fn lemma_filter_prefix<A>(s: Seq<A>, p: spec_fn(A) -> bool, i: int)
    requires
        0 <= i <= s.len(),
    ensures
        s.take(i).filter(p).len() <= s.filter(p).len(),
        s.filter(p).take(s.take(i).filter(p).len() as int) == s.take(i).filter(p),
    decreases s.len() - i,
{
    if i == s.len() {
        assert(s.take(i) =~= s);
    } else {
        lemma_filter_take_step(s, p, i);
        lemma_filter_prefix(s, p, i + 1);
    }
}


/// The filters of the first `List` operation; none without one.
pub open spec fn list_filters_of(ops: Seq<Operation>) -> Seq<Seq<char>>
    decreases ops.len(),
{
    if ops.len() == 0 {
        Seq::empty()
    } else if ops[0].op_type == OperationType::List {
        views(ops[0].filters@)
    } else {
        list_filters_of(ops.drop_first())
    }
}

/// `acc` followed by the items of `items` that it does not hold yet, each
/// once, in order of first appearance.
pub open spec fn add_unique(acc: Seq<Seq<char>>, items: Seq<Seq<char>>) -> Seq<Seq<char>>
    decreases items.len(),
{
    if items.len() == 0 {
        acc
    } else {
        let a = add_unique(acc, items.drop_last());
        if a.contains(items.last()) {
            a
        } else {
            a.push(items.last())
        }
    }
}

/// `acc` extended by the filters of every operation in turn, without
/// repetition.
pub open spec fn gather_filters(acc: Seq<Seq<char>>, ops: Seq<Operation>) -> Seq<Seq<char>>
    decreases ops.len(),
{
    if ops.len() == 0 {
        acc
    } else {
        add_unique(gather_filters(acc, ops.drop_last()), views(ops.last().filters@))
    }
}

/// The list filters, then every other filter of any operation, each once.
pub open spec fn all_filters_of(ops: Seq<Operation>) -> Seq<Seq<char>> {
    gather_filters(list_filters_of(ops), ops)
}

pub open spec fn custom_ops_of(ops: Seq<Operation>) -> Seq<CustomOpContextView> {
    ops.filter(|op: Operation| op.op_type == OperationType::Custom).map_values(
        |op: Operation| custom_op_context_of(op),
    )
}

fn list_filters(ops: &Vec<Operation>) -> (r: Vec<String>)
    ensures
        views(r@) == list_filters_of(ops@),
{
    let mut i: usize = 0;
    assert(ops@.subrange(0, ops@.len() as int) =~= ops@);
    while i < ops.len()
        invariant
            0 <= i <= ops@.len(),
            list_filters_of(ops@.subrange(i as int, ops@.len() as int)) == list_filters_of(ops@),
        decreases ops@.len() - i,
    {
        let ghost rest = ops@.subrange(i as int, ops@.len() as int);
        if ops[i].op_type == OperationType::List {
            return clone_strings(&ops[i].filters);
        }
        assert(rest.drop_first() =~= ops@.subrange(i + 1, ops@.len() as int));
        i += 1;
    }
    Vec::new()
}

fn contains_str(v: &Vec<String>, s: &str) -> (r: bool)
    ensures
        r == views(v@).contains(s@),
{
    let mut i: usize = 0;
    while i < v.len()
        invariant
            0 <= i <= v@.len(),
            forall|k: int| 0 <= k < i ==> v@[k]@ != s@,
        decreases v@.len() - i,
    {
        if str_eq(v[i].as_str(), s) {
            assert(views(v@)[i as int] == s@);
            return true;
        }
        i += 1;
    }
    false
}

fn all_filters(ops: &Vec<Operation>) -> (r: Vec<String>)
    ensures
        views(r@) == all_filters_of(ops@),
{
    let mut all = list_filters(ops);
    let ghost start = views(all@);
    let mut i: usize = 0;
    while i < ops.len()
        invariant
            0 <= i <= ops@.len(),
            start == list_filters_of(ops@),
            views(all@) == gather_filters(start, ops@.take(i as int)),
        decreases ops@.len() - i,
    {
        let fs = &ops[i].filters;
        let ghost base = views(all@);
        let ghost items = views(fs@);
        let mut j: usize = 0;
        while j < fs.len()
            invariant
                0 <= j <= fs@.len(),
                items == views(fs@),
                views(all@) == add_unique(base, items.take(j as int)),
            decreases fs@.len() - j,
        {
            assert(items.take(j + 1).drop_last() =~= items.take(j as int));
            if !contains_str(&all, fs[j].as_str()) {
                all.push(fs[j].clone());
                assert(views(all@) =~= add_unique(base, items.take(j as int)).push(items[j as int]));
            }
            j += 1;
        }
        assert(items.take(items.len() as int) =~= items);
        assert(ops@.take(i + 1).drop_last() =~= ops@.take(i as int));
        i += 1;
    }
    assert(ops@.take(ops@.len() as int) =~= ops@);
    all
}

fn custom_operations(ops: &Vec<Operation>) -> (r: Vec<CustomOpContext>)
    ensures
        custom_views(r@) == custom_ops_of(ops@),
{
    let ghost keep = |op: Operation| op.op_type == OperationType::Custom;
    let ghost to = |op: Operation| custom_op_context_of(op);
    let mut r: Vec<CustomOpContext> = Vec::new();
    let mut i: usize = 0;
    while i < ops.len()
        invariant
            0 <= i <= ops@.len(),
            keep == (|op: Operation| op.op_type == OperationType::Custom),
            to == (|op: Operation| custom_op_context_of(op)),
            custom_views(r@) == ops@.take(i as int).filter(keep).map_values(to),
        decreases ops@.len() - i,
    {
        proof {
            lemma_filter_take_step(ops@, keep, i as int);
        }
        let op = &ops[i];
        if op.op_type == OperationType::Custom {
            let ghost prev = r@;
            let c = CustomOpContext {
                name: match &op.name {
                    Some(n) => n.clone(),
                    None => String::new(),
                },
                description: clone_opt(&op.description),
                filters: clone_strings(&op.filters),
                limit: op.limit,
            };
            r.push(c);
            proof {
                assert(custom_views(r@) =~= custom_views(prev).push(c@));
                assert(ops@.take(i + 1).filter(keep).map_values(to) =~= ops@.take(i as int).filter(
                    keep,
                ).map_values(to).push(to(ops@[i as int])));
            }
        }
        i += 1;
    }
    assert(ops@.take(ops@.len() as int) =~= ops@);
    r
}

/// The context of the data-access artifact.
#[derive(Debug)]
pub struct RepositoryEdgeContext {
    pub name: String,
    pub table_name: String,
    pub fields: Vec<FieldContext>,
    pub writable_fields: Vec<FieldContext>,
    pub updatable_fields: Vec<FieldContext>,
    pub list_filters: Vec<String>,
    pub all_filters: Vec<String>,
    pub custom_operations: Vec<CustomOpContext>,
}

impl RepositoryEdgeContext {
    pub fn from_schema(schema: &EntitySchema) -> (r: Self)
        ensures
            r.name@ == schema.name@,
            r.table_name@ == schema.table_name@,
            field_views(r.fields@) == field_contexts_of(schema.fields@),
            field_views(r.writable_fields@) == field_contexts_of(writable(schema.fields@)),
            field_views(r.updatable_fields@) == field_contexts_of(updatable(schema.fields@)),
            views(r.list_filters@) == list_filters_of(schema.operations@),
            views(r.all_filters@) == all_filters_of(schema.operations@),
            custom_views(r.custom_operations@) == custom_ops_of(schema.operations@),
    {
        let w = schema.writable_fields();
        let u = schema.updatable_fields();
        RepositoryEdgeContext {
            name: schema.name.clone(),
            table_name: schema.table_name.clone(),
            fields: all_fields_to_context(&schema.fields),
            writable_fields: fields_to_context(&w),
            updatable_fields: fields_to_context(&u),
            list_filters: list_filters(&schema.operations),
            all_filters: all_filters(&schema.operations),
            custom_operations: custom_operations(&schema.operations),
        }
    }
}

/// The context of the endpoint handler artifact.
#[derive(Debug)]
pub struct EdgeFunctionContext {
    pub name: String,
    pub table_name: String,
    pub operations: Vec<OperationContext>,
    pub writable_fields: Vec<FieldContext>,
}

impl EdgeFunctionContext {
    /// Operation filters are kept whole: the consumer of this artifact
    /// removes enum names itself.
    pub fn from_schema(schema: &EntitySchema) -> (r: Self)
        ensures
            r.name@ == schema.name@,
            r.table_name@ == schema.table_name@,
            operation_views(r.operations@) == operation_contexts_of(
                schema.operations@,
                schema.fields@,
                false,
            ),
            field_views(r.writable_fields@) == field_contexts_of(writable(schema.fields@)),
    {
        let w = schema.writable_fields();
        EdgeFunctionContext {
            name: schema.name.clone(),
            table_name: schema.table_name.clone(),
            operations: OperationContextBuilder::new(schema).build(),
            writable_fields: fields_to_context(&w),
        }
    }
}

/// The context of the client model artifact.
#[derive(Debug)]
pub struct ModelContext {
    pub name: String,
    pub table_name: String,
    pub fields: Vec<FieldContext>,
    pub writable_fields: Vec<FieldContext>,
    pub updatable_fields: Vec<FieldContext>,
    pub enum_fields: Vec<EnumFieldContext>,
}

impl ModelContext {
    pub fn from_schema(schema: &EntitySchema) -> (r: Self)
        ensures
            r.name@ == schema.name@,
            r.table_name@ == schema.table_name@,
            field_views(r.fields@) == field_contexts_of(schema.fields@),
            field_views(r.writable_fields@) == field_contexts_of(writable(schema.fields@)),
            field_views(r.updatable_fields@) == field_contexts_of(updatable(schema.fields@)),
            enum_views(r.enum_fields@) == enum_contexts_of(enums(schema.fields@)),
    {
        let w = schema.writable_fields();
        let u = schema.updatable_fields();
        ModelContext {
            name: schema.name.clone(),
            table_name: schema.table_name.clone(),
            fields: all_fields_to_context(&schema.fields),
            writable_fields: fields_to_context(&w),
            updatable_fields: fields_to_context(&u),
            enum_fields: enum_fields_to_context(schema),
        }
    }
}

/// The context of the client service artifact.
#[derive(Debug)]
pub struct ServiceContext {
    pub name: String,
    pub table_name: String,
    pub operations: Vec<OperationContext>,
    pub writable_fields: Vec<FieldContext>,
    pub updatable_fields: Vec<FieldContext>,
    pub enum_fields: Vec<EnumFieldContext>,
}

impl ServiceContext {
    /// Operation filters are kept whole: the service's consumer removes
    /// enum names itself.
    pub fn from_schema(schema: &EntitySchema) -> (r: Self)
        ensures
            r.name@ == schema.name@,
            r.table_name@ == schema.table_name@,
            operation_views(r.operations@) == operation_contexts_of(
                schema.operations@,
                schema.fields@,
                false,
            ),
            field_views(r.writable_fields@) == field_contexts_of(writable(schema.fields@)),
            field_views(r.updatable_fields@) == field_contexts_of(updatable(schema.fields@)),
            enum_views(r.enum_fields@) == enum_contexts_of(enums(schema.fields@)),
    {
        let w = schema.writable_fields();
        let u = schema.updatable_fields();
        ServiceContext {
            name: schema.name.clone(),
            table_name: schema.table_name.clone(),
            operations: OperationContextBuilder::new(schema).build(),
            writable_fields: fields_to_context(&w),
            updatable_fields: fields_to_context(&u),
            enum_fields: enum_fields_to_context(schema),
        }
    }
}

/// The context of the client data hook artifact.
#[derive(Debug)]
pub struct HookContext {
    pub name: String,
    pub table_name: String,
    pub operations: Vec<OperationContext>,
    pub writable_fields: Vec<FieldContext>,
    pub updatable_fields: Vec<FieldContext>,
    pub enum_fields: Vec<EnumFieldContext>,
}

impl HookContext {
    /// Enum field names leave the operation filters: the hook declares each
    /// enum field on its own.
    pub fn from_schema(schema: &EntitySchema) -> (r: Self)
        ensures
            r.name@ == schema.name@,
            r.table_name@ == schema.table_name@,
            operation_views(r.operations@) == operation_contexts_of(
                schema.operations@,
                schema.fields@,
                true,
            ),
            field_views(r.writable_fields@) == field_contexts_of(writable(schema.fields@)),
            field_views(r.updatable_fields@) == field_contexts_of(updatable(schema.fields@)),
            enum_views(r.enum_fields@) == enum_contexts_of(enums(schema.fields@)),
    {
        let w = schema.writable_fields();
        let u = schema.updatable_fields();
        HookContext {
            name: schema.name.clone(),
            table_name: schema.table_name.clone(),
            operations: OperationContextBuilder::new(schema).exclude_enum_fields_from_filters().build(),
            writable_fields: fields_to_context(&w),
            updatable_fields: fields_to_context(&u),
            enum_fields: enum_fields_to_context(schema),
        }
    }
}

fn is_custom_operation_name(ops: &Vec<Operation>, v: &str) -> (r: bool)
    ensures
        r == is_custom_op_name(ops@, v@),
{
    let mut k: usize = 0;
    while k < ops.len()
        invariant
            0 <= k <= ops@.len(),
            forall|j: int|
                0 <= j < k ==> !(ops@[j].op_type == OperationType::Custom && opt_view(ops@[j].name)
                    == Some(v@)),
        decreases ops@.len() - k,
    {
        if ops[k].op_type == OperationType::Custom {
            if let Some(n) = &ops[k].name {
                if str_eq(n.as_str(), v) {
                    return true;
                }
            }
        }
        k += 1;
    }
    false
}

fn clashes(f: &Field, ops: &Vec<Operation>) -> (r: bool)
    ensures
        r == clashes_with_operation(*f, ops@),
{
    match &f.enum_values {
        None => false,
        Some(vs) => {
            let mut j: usize = 1;
            while j < vs.len()
                invariant
                    1 <= j,
                    values_of(*f) == views(vs@),
                    forall|m: int| 1 <= m < j && m < vs@.len() ==> !is_custom_op_name(ops@, vs@[m]@),
                decreases vs@.len() - j,
            {
                if is_custom_operation_name(ops, vs[j].as_str()) {
                    assert(values_of(*f)[j as int] == vs@[j as int]@);
                    return true;
                }
                j += 1;
            }
            false
        },
    }
}

fn client_enums(schema: &EntitySchema) -> (r: Vec<EnumFieldContext>)
    ensures
        enum_views(r@) == enum_contexts_of(client_enum_fields(schema.fields@, schema.operations@)),
{
    let e = schema.enum_fields();
    let ghost ops = schema.operations@;
    let ghost keep = |f: Field| !clashes_with_operation(f, ops);
    let mut kept: Vec<&Field> = Vec::new();
    let mut i: usize = 0;
    while i < e.len()
        invariant
            0 <= i <= e@.len(),
            ops == schema.operations@,
            keep == (|f: Field| !clashes_with_operation(f, ops)),
            targets(e@) == enums(schema.fields@),
            targets(kept@) == targets(e@).take(i as int).filter(keep),
        decreases e@.len() - i,
    {
        proof {
            lemma_filter_take_step(targets(e@), keep, i as int);
        }
        if !clashes(e[i], &schema.operations) {
            kept.push(e[i]);
            assert(targets(kept@) =~= targets(e@).take(i as int).filter(keep).push(targets(e@)[i as int]));
        }
        i += 1;
    }
    assert(targets(e@).take(e@.len() as int) =~= targets(e@));
    enums_to_context(&kept)
}

/// The context of the command-line client artifact.
#[derive(Debug)]
pub struct CLIClientContext {
    pub name: String,
    pub table_name: String,
    pub operations: Vec<OperationContext>,
    pub writable_fields: Vec<FieldContext>,
    pub updatable_fields: Vec<FieldContext>,
    pub enum_fields: Vec<EnumFieldContext>,
}

impl CLIClientContext {
    /// Enum field names leave the operation filters, and an enum field one of
    /// whose helper values names a custom operation is left out.
    pub fn from_schema(schema: &EntitySchema) -> (r: Self)
        ensures
            r.name@ == schema.name@,
            r.table_name@ == schema.table_name@,
            operation_views(r.operations@) == operation_contexts_of(
                schema.operations@,
                schema.fields@,
                true,
            ),
            field_views(r.writable_fields@) == field_contexts_of(writable(schema.fields@)),
            field_views(r.updatable_fields@) == field_contexts_of(updatable(schema.fields@)),
            enum_views(r.enum_fields@) == enum_contexts_of(
                client_enum_fields(schema.fields@, schema.operations@),
            ),
    {
        let w = schema.writable_fields();
        let u = schema.updatable_fields();
        CLIClientContext {
            name: schema.name.clone(),
            table_name: schema.table_name.clone(),
            operations: OperationContextBuilder::new(schema).exclude_enum_fields_from_filters().build(),
            writable_fields: fields_to_context(&w),
            updatable_fields: fields_to_context(&u),
            enum_fields: client_enums(schema),
        }
    }
}

/// The context of the admin page artifact.
#[derive(Debug)]
pub struct AdminPageContext {
    pub name: String,
    pub table_name: String,
    pub fields: Vec<UIFieldContext>,
    pub writable_fields: Vec<UIFieldContext>,
    pub updatable_fields: Vec<UIFieldContext>,
    pub display_fields: Vec<UIFieldContext>,
    pub enum_fields: Vec<EnumFieldContext>,
    pub has_content_field: bool,
    pub examples: Vec<Vec<(String, String)>>,
}

impl AdminPageContext {
    /// Shows up to four writable fields other than the owner reference.
    pub fn from_schema(schema: &EntitySchema) -> (r: Self)
        ensures
            r.name@ == schema.name@,
            r.table_name@ == schema.table_name@,
            ui_views(r.fields@) == ui_contexts_of(schema.fields@),
            ui_views(r.writable_fields@) == ui_contexts_of(writable(schema.fields@)),
            ui_views(r.updatable_fields@) == ui_contexts_of(updatable(schema.fields@)),
            ui_views(r.display_fields@) == ui_contexts_of(display_fields_of(schema.fields@, 4)),
            enum_views(r.enum_fields@) == enum_contexts_of(enums(schema.fields@)),
            r.has_content_field == has_content(schema.fields@),
            r.examples@.len() == 0,
    {
        let w = schema.writable_fields();
        let u = schema.updatable_fields();
        AdminPageContext {
            name: schema.name.clone(),
            table_name: schema.table_name.clone(),
            fields: all_ui_fields_to_context(&schema.fields),
            writable_fields: ui_fields_to_context(&w),
            updatable_fields: ui_fields_to_context(&u),
            display_fields: display_fields(schema, 4),
            enum_fields: enum_fields_to_context(schema),
            has_content_field: any_named_content(&schema.fields),
            examples: Vec::new(),
        }
    }
}

/// The context of the demo component artifact.
#[derive(Debug)]
pub struct DemoComponentContext {
    pub name: String,
    pub table_name: String,
    pub fields: Vec<UIFieldContext>,
    pub writable_fields: Vec<UIFieldContext>,
    pub updatable_fields: Vec<UIFieldContext>,
    pub display_fields: Vec<UIFieldContext>,
    pub enum_fields: Vec<EnumFieldContext>,
    pub has_content_field: bool,
}

impl DemoComponentContext {
    /// Shows up to three writable fields other than the owner reference.
    pub fn from_schema(schema: &EntitySchema) -> (r: Self)
        ensures
            r.name@ == schema.name@,
            r.table_name@ == schema.table_name@,
            ui_views(r.fields@) == ui_contexts_of(schema.fields@),
            ui_views(r.writable_fields@) == ui_contexts_of(writable(schema.fields@)),
            ui_views(r.updatable_fields@) == ui_contexts_of(updatable(schema.fields@)),
            ui_views(r.display_fields@) == ui_contexts_of(display_fields_of(schema.fields@, 3)),
            enum_views(r.enum_fields@) == enum_contexts_of(enums(schema.fields@)),
            r.has_content_field == has_content(schema.fields@),
    {
        let w = schema.writable_fields();
        let u = schema.updatable_fields();
        DemoComponentContext {
            name: schema.name.clone(),
            table_name: schema.table_name.clone(),
            fields: all_ui_fields_to_context(&schema.fields),
            writable_fields: ui_fields_to_context(&w),
            updatable_fields: ui_fields_to_context(&u),
            display_fields: display_fields(schema, 3),
            enum_fields: enum_fields_to_context(schema),
            has_content_field: any_named_content(&schema.fields),
        }
    }
}


/// With enum names excluded, no kept filter names an enum field and every
/// other declared filter stays; without the exclusion the filters are kept
/// exactly as declared.
pub proof fn lemma_filter_exclusion(op: Operation, fields: Seq<Field>)
    ensures
        forall|n: Seq<char>|
            kept_filters(op, fields, true).contains(n) ==> !names_enum_field(fields, n),
        forall|n: Seq<char>|
            views(op.filters@).contains(n) && !names_enum_field(fields, n) ==> kept_filters(
                op,
                fields,
                true,
            ).contains(n),
        kept_filters(op, fields, false) == views(op.filters@),
{
    let all = views(op.filters@);
    assert forall|n: Seq<char>| kept_filters(op, fields, true).contains(n) implies !names_enum_field(
        fields,
        n,
    ) by {
        let i = choose|i: int|
            0 <= i < kept_filters(op, fields, true).len() && kept_filters(op, fields, true)[i] == n;
        all.lemma_filter_pred(keeps_filter(fields, true), i);
    }
    assert forall|n: Seq<char>| all.contains(n) && !names_enum_field(fields, n) implies kept_filters(
        op,
        fields,
        true,
    ).contains(n) by {
        let j = choose|j: int| 0 <= j < all.len() && all[j] == n;
        all.lemma_filter_contains(keeps_filter(fields, true), j);
    }
    lemma_filter_all(all, keeps_filter(fields, false));
}


/// The command-line client declares helpers for exactly the enum fields
/// none of whose values after the first names a custom operation.
pub proof fn lemma_client_enum_exclusion(fields: Seq<Field>, ops: Seq<Operation>, f: Field)
    ensures
        client_enum_fields(fields, ops).contains(f) <==> (enums(fields).contains(f)
            && !clashes_with_operation(f, ops)),
{
    let keep = |g: Field| !clashes_with_operation(g, ops);
    let e = enums(fields);
    if client_enum_fields(fields, ops).contains(f) {
        let i = choose|i: int| 0 <= i < e.filter(keep).len() && e.filter(keep)[i] == f;
        e.lemma_filter_pred(keep, i);
        e.lemma_filter_contains_rev(keep, f);
    }
    if e.contains(f) && !clashes_with_operation(f, ops) {
        let j = choose|j: int| 0 <= j < e.len() && e[j] == f;
        e.lemma_filter_contains(keep, j);
    }
}

} // verus!
