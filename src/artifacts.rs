//! The generated artifacts: their kinds, templates, output paths and
//! descriptions. Paths are relative to a project root given by the caller.
use vstd::prelude::*;
use crate::schema::EntitySchema;
use crate::strutil::owned;

verus! {

/// The kinds of artifact generated for one entity, in the order in which
/// they are written.
#[derive(Debug, Clone, Copy, PartialEq, Eq, Structural)]
pub enum ArtifactKind {
    Migration,
    ZodSchema,
    RepositoryEdge,
    EdgeFunction,
    Model,
    Service,
    Hook,
    AdminPage,
    DemoComponent,
    CliClient,
}

pub open spec fn template_name_of(k: ArtifactKind) -> Seq<char> {
    match k {
        ArtifactKind::Migration => "migration"@,
        ArtifactKind::ZodSchema => "zod_schema"@,
        ArtifactKind::RepositoryEdge => "repository_edge"@,
        ArtifactKind::EdgeFunction => "edge_function"@,
        ArtifactKind::Model => "model"@,
        ArtifactKind::Service => "service"@,
        ArtifactKind::Hook => "hook"@,
        ArtifactKind::AdminPage => "admin_page"@,
        ArtifactKind::DemoComponent => "demo_component"@,
        ArtifactKind::CliClient => "cli_client"@,
    }
}

/// The output path of an artifact below the project root, for an entity
/// `name` stored in `table`; `stamp` orders migrations.
pub open spec fn relative_path_of(k: ArtifactKind, name: Seq<char>, table: Seq<char>, stamp: Seq<char>) -> Seq<char> {
    match k {
        ArtifactKind::Migration => "supabase/migrations/"@ + stamp + "_create_"@ + table + "_table.sql"@,
        ArtifactKind::ZodSchema => "supabase/functions/"@ + table + "-crud/schema.ts"@,
        ArtifactKind::RepositoryEdge => "supabase/functions/_shared/repositories/"@ + name
            + "Repository.ts"@,
        ArtifactKind::EdgeFunction => "supabase/functions/"@ + table + "-crud/index.ts"@,
        ArtifactKind::Model => "packages/app-frontend/src/models/"@ + name + ".ts"@,
        ArtifactKind::Service => "packages/app-frontend/src/services/"@ + name + "Service.ts"@,
        ArtifactKind::Hook => "packages/app-frontend/src/hooks/use"@ + name + "s.ts"@,
        ArtifactKind::AdminPage => "packages/app-frontend/src/pages/admin/entities/"@ + name
            + "AdminPage.tsx"@,
        ArtifactKind::DemoComponent => "packages/app-frontend/src/components/features/"@ + table
            + "/"@ + name + "sDemo.tsx"@,
        ArtifactKind::CliClient => "packages/app-cli/clients/"@ + name + "sClient.js"@,
    }
}

/// `rel` below `root`; an empty root leaves `rel` as it is.
pub open spec fn below(root: Seq<char>, rel: Seq<char>) -> Seq<char> {
    if root.len() == 0 {
        rel
    } else if root.last() == '/' {
        root + rel
    } else {
        root + "/"@ + rel
    }
}

pub open spec fn description_of(k: ArtifactKind, name: Seq<char>, table: Seq<char>) -> Seq<char> {
    match k {
        ArtifactKind::Migration => "Migration (Table + RLS + Indexes)"@,
        ArtifactKind::ZodSchema => "Zod Schema (Validation)"@,
        ArtifactKind::RepositoryEdge => "Repository (Edge Functions)"@,
        ArtifactKind::EdgeFunction => "Edge Function (createAkatsukiHandler)"@,
        ArtifactKind::Model => "Model (fromDatabase/toDatabase)"@,
        ArtifactKind::Service => "Service (EdgeFunctionService wrapper)"@,
        ArtifactKind::Hook => "Hook (React Query CRUD)"@,
        ArtifactKind::AdminPage => "Admin Page (/admin/"@ + table + "s)"@,
        ArtifactKind::DemoComponent => "Demo Component (<"@ + name + "sDemo />)"@,
        ArtifactKind::CliClient => "CLI Client ("@ + name + "sClient)"@,
    }
}

pub open spec fn all_kinds() -> Seq<ArtifactKind> {
    seq![
        ArtifactKind::Migration,
        ArtifactKind::ZodSchema,
        ArtifactKind::RepositoryEdge,
        ArtifactKind::EdgeFunction,
        ArtifactKind::Model,
        ArtifactKind::Service,
        ArtifactKind::Hook,
        ArtifactKind::AdminPage,
        ArtifactKind::DemoComponent,
        ArtifactKind::CliClient,
    ]
}

fn concat(parts: &[&str]) -> (r: String)
    ensures
        r@ == parts@.fold_left(Seq::<char>::empty(), |acc: Seq<char>, p: &str| acc + p@),
{
    let mut r = String::new();
    let mut i: usize = 0;
    while i < parts.len()
        invariant
            0 <= i <= parts@.len(),
            r@ == parts@.take(i as int).fold_left(Seq::<char>::empty(), |acc: Seq<char>, p: &str| acc + p@),
        decreases parts@.len() - i,
    {
        proof {
            assert(parts@.take(i + 1).drop_last() =~= parts@.take(i as int));
        }
        r.append(parts[i]);
        i += 1;
    }
    assert(parts@.take(parts@.len() as int) =~= parts@);
    r
}

impl ArtifactKind {
    /// Every kind, in writing order.
    pub fn all() -> (r: Vec<ArtifactKind>)
        ensures
            r@ == all_kinds(),
    {
        let r = vec![
            ArtifactKind::Migration,
            ArtifactKind::ZodSchema,
            ArtifactKind::RepositoryEdge,
            ArtifactKind::EdgeFunction,
            ArtifactKind::Model,
            ArtifactKind::Service,
            ArtifactKind::Hook,
            ArtifactKind::AdminPage,
            ArtifactKind::DemoComponent,
            ArtifactKind::CliClient,
        ];
        assert(r@ =~= all_kinds());
        r
    }

    /// The name of the template that renders this kind.
    pub fn template_name(&self) -> (r: &'static str)
        ensures
            r@ == template_name_of(*self),
    {
        match self {
            ArtifactKind::Migration => "migration",
            ArtifactKind::ZodSchema => "zod_schema",
            ArtifactKind::RepositoryEdge => "repository_edge",
            ArtifactKind::EdgeFunction => "edge_function",
            ArtifactKind::Model => "model",
            ArtifactKind::Service => "service",
            ArtifactKind::Hook => "hook",
            ArtifactKind::AdminPage => "admin_page",
            ArtifactKind::DemoComponent => "demo_component",
            ArtifactKind::CliClient => "cli_client",
        }
    }

    /// The output path of this kind for `schema`, below the project `root`.
    pub fn path(&self, root: &str, schema: &EntitySchema, stamp: &str) -> (r: String)
        ensures
            r@ == below(
                root@,
                relative_path_of(*self, schema.name@, schema.table_name@, stamp@),
            ),
    {
        let name = schema.name.as_str();
        let table = schema.table_name.as_str();
        let rel = match self {
            ArtifactKind::Migration => concat(
                &["supabase/migrations/", stamp, "_create_", table, "_table.sql"],
            ),
            ArtifactKind::ZodSchema => concat(&["supabase/functions/", table, "-crud/schema.ts"]),
            ArtifactKind::RepositoryEdge => concat(
                &["supabase/functions/_shared/repositories/", name, "Repository.ts"],
            ),
            ArtifactKind::EdgeFunction => concat(&["supabase/functions/", table, "-crud/index.ts"]),
            ArtifactKind::Model => concat(&["packages/app-frontend/src/models/", name, ".ts"]),
            ArtifactKind::Service => concat(
                &["packages/app-frontend/src/services/", name, "Service.ts"],
            ),
            ArtifactKind::Hook => concat(&["packages/app-frontend/src/hooks/use", name, "s.ts"]),
            ArtifactKind::AdminPage => concat(
                &["packages/app-frontend/src/pages/admin/entities/", name, "AdminPage.tsx"],
            ),
            ArtifactKind::DemoComponent => concat(
                &["packages/app-frontend/src/components/features/", table, "/", name, "sDemo.tsx"],
            ),
            ArtifactKind::CliClient => concat(&["packages/app-cli/clients/", name, "sClient.js"]),
        };
        proof {
            reveal_with_fuel(Seq::fold_left, 6);
        }
        let n = root.unicode_len();
        if n == 0 {
            rel
        } else {
            let mut r = owned(root);
            if root.get_char(n - 1) != '/' {
                r.append("/");
            }
            r.append(rel.as_str());
            r
        }
    }

    /// What an artifact of this kind is, for the summary shown after writing.
    pub fn description(&self, schema: &EntitySchema) -> (r: String)
        ensures
            r@ == description_of(*self, schema.name@, schema.table_name@),
    {
        let name = schema.name.as_str();
        let table = schema.table_name.as_str();
        proof {
            reveal_with_fuel(Seq::fold_left, 4);
        }
        match self {
            ArtifactKind::Migration => owned("Migration (Table + RLS + Indexes)"),
            ArtifactKind::ZodSchema => owned("Zod Schema (Validation)"),
            ArtifactKind::RepositoryEdge => owned("Repository (Edge Functions)"),
            ArtifactKind::EdgeFunction => owned("Edge Function (createAkatsukiHandler)"),
            ArtifactKind::Model => owned("Model (fromDatabase/toDatabase)"),
            ArtifactKind::Service => owned("Service (EdgeFunctionService wrapper)"),
            ArtifactKind::Hook => owned("Hook (React Query CRUD)"),
            ArtifactKind::AdminPage => concat(&["Admin Page (/admin/", table, "s)"]),
            ArtifactKind::DemoComponent => concat(&["Demo Component (<", name, "sDemo />)"]),
            ArtifactKind::CliClient => concat(&["CLI Client (", name, "sClient)"]),
        }
    }
}

/// One generated file: where it goes, what it holds, what it is.
#[derive(Debug)]
pub struct GeneratedFile {
    pub path: String,
    pub content: String,
    pub description: String,
}

impl GeneratedFile {
    /// The artifact of kind `kind` for `schema`, holding `content`.
    pub fn new(kind: ArtifactKind, root: &str, schema: &EntitySchema, stamp: &str, content: String) -> (r: GeneratedFile)
        ensures
            r.path@ == below(root@, relative_path_of(kind, schema.name@, schema.table_name@, stamp@)),
            r.content@ == content@,
            r.description@ == description_of(kind, schema.name@, schema.table_name@),
    {
        GeneratedFile {
            path: kind.path(root, schema, stamp),
            content,
            description: kind.description(schema),
        }
    }
}

/// Every artifact of one entity.
#[derive(Debug)]
pub struct GeneratedFiles {
    pub migration: GeneratedFile,
    pub zod_schema: GeneratedFile,
    pub repository_edge: GeneratedFile,
    pub edge_function: GeneratedFile,
    pub model: GeneratedFile,
    pub service: GeneratedFile,
    pub hook: GeneratedFile,
    pub admin_page: GeneratedFile,
    pub demo_component: GeneratedFile,
    pub cli_client: GeneratedFile,
}

impl GeneratedFiles {
    /// The artifacts in writing order: storage and validation first, then
    /// data access, client layers, UI and the command-line client.
    pub fn files(&self) -> (r: Vec<&GeneratedFile>)
        ensures
            r@ == seq![
                &self.migration,
                &self.zod_schema,
                &self.repository_edge,
                &self.edge_function,
                &self.model,
                &self.service,
                &self.hook,
                &self.admin_page,
                &self.demo_component,
                &self.cli_client,
            ],
    {
        let r = vec![
            &self.migration,
            &self.zod_schema,
            &self.repository_edge,
            &self.edge_function,
            &self.model,
            &self.service,
            &self.hook,
            &self.admin_page,
            &self.demo_component,
            &self.cli_client,
        ];
        assert(r@ =~= seq![
            &self.migration,
            &self.zod_schema,
            &self.repository_edge,
            &self.edge_function,
            &self.model,
            &self.service,
            &self.hook,
            &self.admin_page,
            &self.demo_component,
            &self.cli_client,
        ]);
        r
    }
}

} // verus!
