use vstd::prelude::*;

use crate::text::{
    find_first, first_at, occurs_at, chars_of, concat3, contains_chars, contains_seq, lowercase, push_char,
    spec_lowercase, split_chars, split_on, string_of, views_of, lemma_split_nonempty,
};

verus! {

broadcast use vstd::string::group_string_axioms;

// ---------------------------------------------------------------------------
// Fields of a generated entity
// ---------------------------------------------------------------------------
/// A field of a generated entity: its name, its Rust type, and whether it
/// was declared required (`name:type:notnull`; fields are optional by
/// default).
#[derive(Debug, Clone)]
pub struct Field {
    pub name: String,
    pub rust_type: String,
    pub required: bool,
}

pub struct FieldView {
    pub name: Seq<char>,
    pub rust_type: Seq<char>,
    pub required: bool,
}

impl View for Field {
    type V = FieldView;

    open spec fn view(&self) -> FieldView {
        FieldView { name: self.name@, rust_type: self.rust_type@, required: self.required }
    }
}

pub open spec fn fields_view(fs: Seq<Field>) -> Seq<FieldView> {
    fs.map_values(|f: Field| f@)
}

/// The Rust type for a field type written on the command line (already in
/// lower case); unknown types are strings.
pub open spec fn rust_type_for(raw: Seq<char>) -> Seq<char> {
    if raw == "int"@ {
        "i32"@
    } else if raw == "bool"@ {
        "bool"@
    } else if raw == "decimal"@ {
        "Decimal"@
    } else if raw == "float"@ {
        "f64"@
    } else if raw == "date"@ {
        "DateTimeWithTimeZone"@
    } else {
        "String"@
    }
}

/// The field that an argument describes: `name:type` an optional field,
/// `name:type:notnull` a required one; an argument of another shape
/// describes none.
pub open spec fn field_of(arg: Seq<char>) -> Option<FieldView> {
    let parts = split_on(arg, ':');
    if parts.len() == 2 {
        Some(
            FieldView {
                name: parts[0],
                rust_type: rust_type_for(spec_lowercase(parts[1])),
                required: false,
            },
        )
    } else if parts.len() == 3 && parts[2] == "notnull"@ {
        Some(
            FieldView {
                name: parts[0],
                rust_type: rust_type_for(spec_lowercase(parts[1])),
                required: true,
            },
        )
    } else {
        None
    }
}

/// The fields that the arguments describe, in order.
pub open spec fn fields_of(args: Seq<Seq<char>>) -> Seq<FieldView>
    decreases args.len(),
{
    if args.len() == 0 {
        Seq::empty()
    } else {
        match field_of(args.last()) {
            Some(f) => fields_of(args.drop_last()).push(f),
            None => fields_of(args.drop_last()),
        }
    }
}

pub open spec fn args_view(args: Seq<String>) -> Seq<Seq<char>> {
    args.map_values(|s: String| s@)
}

/// The Rust type for a field type written on the command line, already in
/// lower case.
pub fn rust_type_of(raw: &str) -> (r: String)
    ensures
        r@ == rust_type_for(raw@),
{
    let name = if crate::text::str_eq(raw, "int") {
        "i32"
    } else if crate::text::str_eq(raw, "bool") {
        "bool"
    } else if crate::text::str_eq(raw, "decimal") {
        "Decimal"
    } else if crate::text::str_eq(raw, "float") {
        "f64"
    } else if crate::text::str_eq(raw, "date") {
        "DateTimeWithTimeZone"
    } else {
        "String"
    };
    String::from_str(name)
}

/// Reads the fields `name:type` and `name:type:notnull` from the command
/// line; arguments of another shape are passed over.
pub fn parse_fields(args: &Vec<String>) -> (r: Vec<Field>)
    ensures
        fields_view(r@) == fields_of(args_view(args@)),
{
    let mut fields: Vec<Field> = Vec::new();
    let ghost all = args_view(args@);
    for i in 0..args.len()
        invariant
            all == args_view(args@),
            fields_view(fields@) == fields_of(all.take(i as int)),
    {
        proof {
            assert(all.take(i + 1).drop_last() =~= all.take(i as int));
            assert(all.take(i + 1).last() == args@[i as int]@);
        }
        let ghost before = fields_view(fields@);
        let cs = chars_of(args[i].as_str());
        let parts = split_chars(&cs, ':');
        let required = parts.len() == 3 && crate::text::chars_eq(&parts[2], "notnull");
        if parts.len() == 3 {
            assert(views_of(parts@)[2] == parts@[2]@);
        }
        if parts.len() == 2 || required {
            proof {
                assert(views_of(parts@)[0] == parts@[0]@);
                assert(views_of(parts@)[1] == parts@[1]@);
            }
            let name = string_of(&parts[0]);
            let raw_type = lowercase(string_of(&parts[1]).as_str());
            let rust_type = rust_type_of(raw_type.as_str());
            fields.push(Field { name, rust_type, required });
            assert(fields_view(fields@) =~= before.push(fields@.last()@));
        }
    }
    assert(all.take(args.len() as int) =~= all);
    fields
}

// ---------------------------------------------------------------------------
// Lines written once per field
// ---------------------------------------------------------------------------
/// The shapes of the lines that generated code holds once per field.
#[derive(Clone, Copy, Debug, PartialEq, Eq)]
pub enum FieldTemplate {
    /// `    pub name: Type,` (`Option<Type>` for an optional field)
    Declaration,
    /// `                name: p.name,`
    ListedValue,
    /// `            name: p.name,`
    RecordValue,
    /// `            name: Set(payload.name),`
    PayloadValue,
    /// `        active_model.name = Set(payload.name);`
    PayloadAssignment,
    /// `            name: updated.name,`
    UpdatedValue,
}

/// The declared type of a field: its Rust type where it is required,
/// else that type made optional (the column may be null).
pub open spec fn declared_type(f: FieldView) -> Seq<char> {
    if f.required {
        f.rust_type
    } else {
        "Option<"@ + f.rust_type + ">"@
    }
}

pub open spec fn field_line(t: FieldTemplate, f: FieldView) -> Seq<char> {
    match t {
        FieldTemplate::Declaration => "    pub "@ + f.name + ": "@ + declared_type(f) + ",\n"@,
        FieldTemplate::ListedValue => "                "@ + f.name + ": p."@ + f.name + ",\n"@,
        FieldTemplate::RecordValue => "            "@ + f.name + ": p."@ + f.name + ",\n"@,
        FieldTemplate::PayloadValue => "            "@ + f.name + ": Set(payload."@ + f.name
            + "),\n"@,
        FieldTemplate::PayloadAssignment => "        active_model."@ + f.name + " = Set(payload."@
            + f.name + ");\n"@,
        FieldTemplate::UpdatedValue => "            "@ + f.name + ": updated."@ + f.name + ",\n"@,
    }
}

/// One line of the given shape per field, in order.
pub open spec fn field_lines(t: FieldTemplate, fs: Seq<FieldView>) -> Seq<char>
    decreases fs.len(),
{
    if fs.len() == 0 {
        Seq::empty()
    } else {
        field_lines(t, fs.drop_last()) + field_line(t, fs.last())
    }
}

fn push_field_line(code: &mut String, t: FieldTemplate, f: &Field)
    ensures
        final(code)@ == old(code)@ + field_line(t, f@),
{
    let name = f.name.as_str();
    match t {
        FieldTemplate::Declaration => {
            code.append("    pub ");
            code.append(name);
            code.append(": ");
            if f.required {
                code.append(f.rust_type.as_str());
            } else {
                code.append("Option<");
                code.append(f.rust_type.as_str());
                code.append(">");
            }
            code.append(",\n");
        },
        FieldTemplate::ListedValue => {
            code.append("                ");
            code.append(name);
            code.append(": p.");
            code.append(name);
            code.append(",\n");
        },
        FieldTemplate::RecordValue => {
            code.append("            ");
            code.append(name);
            code.append(": p.");
            code.append(name);
            code.append(",\n");
        },
        FieldTemplate::PayloadValue => {
            code.append("            ");
            code.append(name);
            code.append(": Set(payload.");
            code.append(name);
            code.append("),\n");
        },
        FieldTemplate::PayloadAssignment => {
            code.append("        active_model.");
            code.append(name);
            code.append(" = Set(payload.");
            code.append(name);
            code.append(");\n");
        },
        FieldTemplate::UpdatedValue => {
            code.append("            ");
            code.append(name);
            code.append(": updated.");
            code.append(name);
            code.append(",\n");
        },
    }
    assert(final(code)@ =~= old(code)@ + field_line(t, f@));
}

fn push_field_lines(code: &mut String, t: FieldTemplate, fields: &Vec<Field>)
    ensures
        final(code)@ == old(code)@ + field_lines(t, fields_view(fields@)),
{
    let ghost start = code@;
    let ghost fs = fields_view(fields@);
    for i in 0..fields.len()
        invariant
            fs == fields_view(fields@),
            code@ == start + field_lines(t, fs.take(i as int)),
    {
        proof {
            assert(fs.take(i + 1).drop_last() =~= fs.take(i as int));
            assert(fs.take(i + 1).last() == fields@[i as int]@);
        }
        push_field_line(code, t, &fields[i]);
        assert(code@ =~= start + field_lines(t, fs.take(i + 1)));
    }
    assert(fs.take(fields.len() as int) =~= fs);
}

// ---------------------------------------------------------------------------
// Where generated files go
// ---------------------------------------------------------------------------
/// The module name of an entity: its name in lower case.
pub fn entity_slug(entity_name: &str) -> (r: String)
    ensures
        r@ == spec_lowercase(entity_name@),
{
    lowercase(entity_name)
}

/// The file of the database model of an entity.
pub fn model_path(slug: &str) -> (r: String)
    ensures
        r@ == "src/models/"@ + slug@ + ".rs"@,
{
    concat3("src/models/", slug, ".rs")
}

/// The directory of the module of an entity.
pub fn module_dir(slug: &str) -> (r: String)
    ensures
        r@ == "src/modules/"@ + slug@,
{
    crate::text::concat2("src/modules/", slug)
}

/// A file of the module of an entity (`schemas`, `service`, `controller` or
/// `routes`).
pub fn module_file_path(slug: &str, file: &str) -> (r: String)
    ensures
        r@ == "src/modules/"@ + slug@ + "/"@ + file@ + ".rs"@,
{
    let mut r = concat3("src/modules/", slug, "/");
    r.append(file);
    r.append(".rs");
    r
}

/// The source of the database model of the entity.
pub open spec fn model_source(entity: Seq<char>, slug: Seq<char>, fs: Seq<FieldView>) -> Seq<char> {
    "use sea_orm::entity::prelude::*;\nuse serde::{Deserialize, Serialize};\nuse utoipa::ToSchema;\n\n#[derive(Clone, Debug, PartialEq, DeriveEntityModel, Eq, Serialize, Deserialize, ToSchema)]\n#[sea_orm(schema_name = \"public\", table_name = \""@
        + entity
        + "\")]\npub struct Model {\n    #[sea_orm(primary_key, auto_increment = false)]\n    pub id: String,\n"@
        + field_lines(FieldTemplate::Declaration, fs)
        + "    pub active: bool,\n    pub created_at: DateTimeWithTimeZone,\n    pub updated_at: DateTimeWithTimeZone,\n    pub is_deleted: Option<bool>,\n    pub deleted_at: Option<DateTimeWithTimeZone>,\n}\n\n#[derive(Copy, Clone, Debug, DeriveRelation)]\npub enum Relation {}\n\nimpl ActiveModelBehavior for ActiveModel {}\n"@
}

/// Writes the source of the database model of the entity.
pub fn generate_model_text(entity_name: &str, slug: &str, fields: &Vec<Field>) -> (r: String)
    ensures
        r@ == model_source(entity_name@, slug@, fields_view(fields@)),
{
    let mut code = String::from_str("use sea_orm::entity::prelude::*;\nuse serde::{Deserialize, Serialize};\nuse utoipa::ToSchema;\n\n#[derive(Clone, Debug, PartialEq, DeriveEntityModel, Eq, Serialize, Deserialize, ToSchema)]\n#[sea_orm(schema_name = \"public\", table_name = \"");
    code.append(entity_name);
    code.append("\")]\npub struct Model {\n    #[sea_orm(primary_key, auto_increment = false)]\n    pub id: String,\n");
    push_field_lines(&mut code, FieldTemplate::Declaration, fields);
    code.append("    pub active: bool,\n    pub created_at: DateTimeWithTimeZone,\n    pub updated_at: DateTimeWithTimeZone,\n    pub is_deleted: Option<bool>,\n    pub deleted_at: Option<DateTimeWithTimeZone>,\n}\n\n#[derive(Copy, Clone, Debug, DeriveRelation)]\npub enum Relation {}\n\nimpl ActiveModelBehavior for ActiveModel {}\n");
    code
}

/// The source of the request and response types of the entity.
pub open spec fn schemas_source(entity: Seq<char>, slug: Seq<char>, fs: Seq<FieldView>) -> Seq<char> {
    "use serde::{Deserialize, Serialize};\nuse utoipa::ToSchema;\nuse sea_orm::prelude::Decimal;\n\n#[derive(Debug, Deserialize, ToSchema)]\npub struct Create"@
        + entity
        + "Request {\n"@
        + field_lines(FieldTemplate::Declaration, fs)
        + "}\n\n#[derive(Debug, Deserialize, ToSchema)]\npub struct Update"@
        + entity
        + "Request {\n"@
        + field_lines(FieldTemplate::Declaration, fs)
        + "    pub active: Option<bool>,\n}\n\n#[derive(Debug, Serialize, ToSchema)]\npub struct "@
        + entity
        + "Response {\n    pub id: String,\n"@
        + field_lines(FieldTemplate::Declaration, fs)
        + "    pub active: bool,\n    pub created_at: String,\n    pub updated_at: String,\n}\n"@
}

/// Writes the source of the request and response types of the entity.
pub fn generate_schemas_text(entity_name: &str, slug: &str, fields: &Vec<Field>) -> (r: String)
    ensures
        r@ == schemas_source(entity_name@, slug@, fields_view(fields@)),
{
    let mut code = String::from_str("use serde::{Deserialize, Serialize};\nuse utoipa::ToSchema;\nuse sea_orm::prelude::Decimal;\n\n#[derive(Debug, Deserialize, ToSchema)]\npub struct Create");
    code.append(entity_name);
    code.append("Request {\n");
    push_field_lines(&mut code, FieldTemplate::Declaration, fields);
    code.append("}\n\n#[derive(Debug, Deserialize, ToSchema)]\npub struct Update");
    code.append(entity_name);
    code.append("Request {\n");
    push_field_lines(&mut code, FieldTemplate::Declaration, fields);
    code.append("    pub active: Option<bool>,\n}\n\n#[derive(Debug, Serialize, ToSchema)]\npub struct ");
    code.append(entity_name);
    code.append("Response {\n    pub id: String,\n");
    push_field_lines(&mut code, FieldTemplate::Declaration, fields);
    code.append("    pub active: bool,\n    pub created_at: String,\n    pub updated_at: String,\n}\n");
    code
}

/// The source of the service of the entity.
pub open spec fn service_source(entity: Seq<char>, slug: Seq<char>, fs: Seq<FieldView>) -> Seq<char> {
    "use sea_orm::{\n    ActiveModelTrait, ColumnTrait, DatabaseConnection, EntityTrait,\n    QueryFilter, QueryOrder, QuerySelect, Set, Order,\n};\nuse uuid::Uuid;\nuse crate::{\n    errors::AppError,\n    core::query_parser::{ParsedFilters, PaginatedResponse},\n    models::"@
        + slug
        + ",\n    modules::"@
        + slug
        + "::schemas::{Create"@
        + entity
        + "Request, "@
        + entity
        + "Response, Update"@
        + entity
        + "Request},\n};\n\npub struct "@
        + entity
        + "ModuleService;\n\nimpl "@
        + entity
        + "ModuleService {\n    pub async fn list_"@
        + slug
        + "s(\n\
        \x20       filters: ParsedFilters,\n\
        \x20       db: &DatabaseConnection,\n\
        \x20   ) -> Result<PaginatedResponse<"@
        + entity
        + "Response>, AppError> {\n        let mut query = "@
        + slug
        + "::Entity::find()\n\
        \x20           .filter("@
        + slug
        + "::Column::IsDeleted.ne(true));\n\n        if let Some(word) = filters.search_word {\n\
        \x20           query = query.filter("@
        + slug
        + "::Column::Name.ilike(format!(\"%{}%\", word)));\n\
        \x20       }\n\n        let total = query.clone().count(db).await?;\n\n        let dir = if filters.order_direction.to_lowercase() == \"desc\" { Order::Desc } else { Order::Asc };\n        query = query.order_by("@
        + slug
        + "::Column::CreatedAt, dir);\n\n        let offset = filters.page * filters.size;\n        let records = query.limit(filters.size).offset(offset).all(db).await?;\n\n        let items = records.into_iter().map(|p| {\n            "@
        + entity
        + "Response {\n                id: p.id,\n"@
        + field_lines(FieldTemplate::ListedValue, fs)
        + "                active: p.active,\n                created_at: p.created_at.to_rfc3339(),\n                updated_at: p.updated_at.to_rfc3339(),\n            }\n        }).collect();\n\n        Ok(PaginatedResponse { items, total, page: filters.page, size: filters.size })\n    }\n\n    pub async fn get_"@
        + slug
        + "_by_id(id: &str, db: &DatabaseConnection) -> Result<"@
        + entity
        + "Response, AppError> {\n        let p = "@
        + slug
        + "::Entity::find_by_id(id.to_string())\n\
        \x20           .filter("@
        + slug
        + "::Column::IsDeleted.ne(true))\n\
        \x20           .one(db).await?\n\
        \x20           .ok_or_else(|| AppError::NotFound(\"Registro não encontrado\".to_string()))?;\n\n        Ok("@
        + entity
        + "Response {\n            id: p.id,\n"@
        + field_lines(FieldTemplate::RecordValue, fs)
        + "            active: p.active,\n            created_at: p.created_at.to_rfc3339(),\n            updated_at: p.updated_at.to_rfc3339(),\n        })\n    }\n\n    pub async fn create_"@
        + slug
        + "(payload: Create"@
        + entity
        + "Request, db: &DatabaseConnection) -> Result<"@
        + entity
        + "Response, AppError> {\n        let new_id = Uuid::new_v4().to_string();\n        let active_model = "@
        + slug
        + "::ActiveModel {\n            id: Set(new_id),\n"@
        + field_lines(FieldTemplate::PayloadValue, fs)
        + "            active: Set(true),\n            is_deleted: Set(Some(false)),\n            deleted_at: Set(None),\n            created_at: Set(chrono::Utc::now().into()),\n            updated_at: Set(chrono::Utc::now().into()),\n        };\n\n        let p = active_model.insert(db).await?;\n\n        Ok("@
        + entity
        + "Response {\n            id: p.id,\n"@
        + field_lines(FieldTemplate::RecordValue, fs)
        + "            active: p.active,\n            created_at: p.created_at.to_rfc3339(),\n            updated_at: p.updated_at.to_rfc3339(),\n        })\n    }\n\n    pub async fn update_"@
        + slug
        + "(id: &str, payload: Update"@
        + entity
        + "Request, db: &DatabaseConnection) -> Result<"@
        + entity
        + "Response, AppError> {\n        let p = "@
        + slug
        + "::Entity::find_by_id(id.to_string())\n\
        \x20           .filter("@
        + slug
        + "::Column::IsDeleted.ne(true))\n\
        \x20           .one(db).await?\n\
        \x20           .ok_or_else(|| AppError::NotFound(\"Registro não encontrado\".to_string()))?;\n\n        let mut active_model: "@
        + slug
        + "::ActiveModel = p.into();\n"@
        + field_lines(FieldTemplate::PayloadAssignment, fs)
        + "        if let Some(act) = payload.active { active_model.active = Set(act); }\n        active_model.updated_at = Set(chrono::Utc::now().into());\n\n        let updated = active_model.update(db).await?;\n\n        Ok("@
        + entity
        + "Response {\n            id: updated.id,\n"@
        + field_lines(FieldTemplate::UpdatedValue, fs)
        + "            active: updated.active,\n            created_at: updated.created_at.to_rfc3339(),\n            updated_at: updated.updated_at.to_rfc3339(),\n        })\n    }\n\n    pub async fn delete_"@
        + slug
        + "(id: &str, db: &DatabaseConnection) -> Result<(), AppError> {\n        let p = "@
        + slug
        + "::Entity::find_by_id(id.to_string())\n\
        \x20           .filter("@
        + slug
        + "::Column::IsDeleted.ne(true))\n\
        \x20           .one(db).await?\n\
        \x20           .ok_or_else(|| AppError::NotFound(\"Registro não encontrado\".to_string()))?;\n\n        let mut active_model: "@
        + slug
        + "::ActiveModel = p.into();\n        active_model.active = Set(false);\n        active_model.is_deleted = Set(Some(true));\n        active_model.deleted_at = Set(Some(chrono::Utc::now().into()));\n        active_model.update(db).await?;\n\n        Ok(())\n    }\n}\n"@
}

/// Writes the source of the service of the entity.
pub fn generate_service_text(entity_name: &str, slug: &str, fields: &Vec<Field>) -> (r: String)
    ensures
        r@ == service_source(entity_name@, slug@, fields_view(fields@)),
{
    let mut code = String::from_str("use sea_orm::{\n    ActiveModelTrait, ColumnTrait, DatabaseConnection, EntityTrait,\n    QueryFilter, QueryOrder, QuerySelect, Set, Order,\n};\nuse uuid::Uuid;\nuse crate::{\n    errors::AppError,\n    core::query_parser::{ParsedFilters, PaginatedResponse},\n    models::");
    code.append(slug);
    code.append(",\n    modules::");
    code.append(slug);
    code.append("::schemas::{Create");
    code.append(entity_name);
    code.append("Request, ");
    code.append(entity_name);
    code.append("Response, Update");
    code.append(entity_name);
    code.append("Request},\n};\n\npub struct ");
    code.append(entity_name);
    code.append("ModuleService;\n\nimpl ");
    code.append(entity_name);
    code.append("ModuleService {\n    pub async fn list_");
    code.append(slug);
    code.append("s(\n\
        \x20       filters: ParsedFilters,\n\
        \x20       db: &DatabaseConnection,\n\
        \x20   ) -> Result<PaginatedResponse<");
    code.append(entity_name);
    code.append("Response>, AppError> {\n        let mut query = ");
    code.append(slug);
    code.append("::Entity::find()\n\
        \x20           .filter(");
    code.append(slug);
    code.append("::Column::IsDeleted.ne(true));\n\n        if let Some(word) = filters.search_word {\n\
        \x20           query = query.filter(");
    code.append(slug);
    code.append("::Column::Name.ilike(format!(\"%{}%\", word)));\n\
        \x20       }\n\n        let total = query.clone().count(db).await?;\n\n        let dir = if filters.order_direction.to_lowercase() == \"desc\" { Order::Desc } else { Order::Asc };\n        query = query.order_by(");
    code.append(slug);
    code.append("::Column::CreatedAt, dir);\n\n        let offset = filters.page * filters.size;\n        let records = query.limit(filters.size).offset(offset).all(db).await?;\n\n        let items = records.into_iter().map(|p| {\n            ");
    code.append(entity_name);
    code.append("Response {\n                id: p.id,\n");
    push_field_lines(&mut code, FieldTemplate::ListedValue, fields);
    code.append("                active: p.active,\n                created_at: p.created_at.to_rfc3339(),\n                updated_at: p.updated_at.to_rfc3339(),\n            }\n        }).collect();\n\n        Ok(PaginatedResponse { items, total, page: filters.page, size: filters.size })\n    }\n\n    pub async fn get_");
    code.append(slug);
    code.append("_by_id(id: &str, db: &DatabaseConnection) -> Result<");
    code.append(entity_name);
    code.append("Response, AppError> {\n        let p = ");
    code.append(slug);
    code.append("::Entity::find_by_id(id.to_string())\n\
        \x20           .filter(");
    code.append(slug);
    code.append("::Column::IsDeleted.ne(true))\n\
        \x20           .one(db).await?\n\
        \x20           .ok_or_else(|| AppError::NotFound(\"Registro não encontrado\".to_string()))?;\n\n        Ok(");
    code.append(entity_name);
    code.append("Response {\n            id: p.id,\n");
    push_field_lines(&mut code, FieldTemplate::RecordValue, fields);
    code.append("            active: p.active,\n            created_at: p.created_at.to_rfc3339(),\n            updated_at: p.updated_at.to_rfc3339(),\n        })\n    }\n\n    pub async fn create_");
    code.append(slug);
    code.append("(payload: Create");
    code.append(entity_name);
    code.append("Request, db: &DatabaseConnection) -> Result<");
    code.append(entity_name);
    code.append("Response, AppError> {\n        let new_id = Uuid::new_v4().to_string();\n        let active_model = ");
    code.append(slug);
    code.append("::ActiveModel {\n            id: Set(new_id),\n");
    push_field_lines(&mut code, FieldTemplate::PayloadValue, fields);
    code.append("            active: Set(true),\n            is_deleted: Set(Some(false)),\n            deleted_at: Set(None),\n            created_at: Set(chrono::Utc::now().into()),\n            updated_at: Set(chrono::Utc::now().into()),\n        };\n\n        let p = active_model.insert(db).await?;\n\n        Ok(");
    code.append(entity_name);
    code.append("Response {\n            id: p.id,\n");
    push_field_lines(&mut code, FieldTemplate::RecordValue, fields);
    code.append("            active: p.active,\n            created_at: p.created_at.to_rfc3339(),\n            updated_at: p.updated_at.to_rfc3339(),\n        })\n    }\n\n    pub async fn update_");
    code.append(slug);
    code.append("(id: &str, payload: Update");
    code.append(entity_name);
    code.append("Request, db: &DatabaseConnection) -> Result<");
    code.append(entity_name);
    code.append("Response, AppError> {\n        let p = ");
    code.append(slug);
    code.append("::Entity::find_by_id(id.to_string())\n\
        \x20           .filter(");
    code.append(slug);
    code.append("::Column::IsDeleted.ne(true))\n\
        \x20           .one(db).await?\n\
        \x20           .ok_or_else(|| AppError::NotFound(\"Registro não encontrado\".to_string()))?;\n\n        let mut active_model: ");
    code.append(slug);
    code.append("::ActiveModel = p.into();\n");
    push_field_lines(&mut code, FieldTemplate::PayloadAssignment, fields);
    code.append("        if let Some(act) = payload.active { active_model.active = Set(act); }\n        active_model.updated_at = Set(chrono::Utc::now().into());\n\n        let updated = active_model.update(db).await?;\n\n        Ok(");
    code.append(entity_name);
    code.append("Response {\n            id: updated.id,\n");
    push_field_lines(&mut code, FieldTemplate::UpdatedValue, fields);
    code.append("            active: updated.active,\n            created_at: updated.created_at.to_rfc3339(),\n            updated_at: updated.updated_at.to_rfc3339(),\n        })\n    }\n\n    pub async fn delete_");
    code.append(slug);
    code.append("(id: &str, db: &DatabaseConnection) -> Result<(), AppError> {\n        let p = ");
    code.append(slug);
    code.append("::Entity::find_by_id(id.to_string())\n\
        \x20           .filter(");
    code.append(slug);
    code.append("::Column::IsDeleted.ne(true))\n\
        \x20           .one(db).await?\n\
        \x20           .ok_or_else(|| AppError::NotFound(\"Registro não encontrado\".to_string()))?;\n\n        let mut active_model: ");
    code.append(slug);
    code.append("::ActiveModel = p.into();\n        active_model.active = Set(false);\n        active_model.is_deleted = Set(Some(true));\n        active_model.deleted_at = Set(Some(chrono::Utc::now().into()));\n        active_model.update(db).await?;\n\n        Ok(())\n    }\n}\n");
    code
}

/// The source of the HTTP handlers of the entity.
pub open spec fn controller_source(entity: Seq<char>, slug: Seq<char>) -> Seq<char> {
    "use axum::{\n    extract::{Path, Query, State},\n    http::StatusCode,\n    response::IntoResponse,\n    Json,\n};\nuse sea_orm::DatabaseConnection;\nuse crate::{\n    errors::{AppError, AppJson},\n    infra::cache::Cache,\n    core::query_parser::{FilterParams, QueryValidator, PaginatedResponse},\n    modules::"@
        + slug
        + "::schemas::{Create"@
        + entity
        + "Request, "@
        + entity
        + "Response, Update"@
        + entity
        + "Request},\n    modules::"@
        + slug
        + "::service::"@
        + entity
        + "ModuleService,\n};\n\npub async fn list_"@
        + slug
        + "s_handler(\n\
        \x20   State((db, _, _)): State<(DatabaseConnection, Cache, crate::config::AppConfig)>,\n\
        \x20   Query(params): Query<FilterParams>,\n\
        ) -> Result<Json<PaginatedResponse<"@
        + entity
        + "Response>>, AppError> {\n\
        \x20   let parsed_filters = QueryValidator::validate_and_parse(&params, &[\"name\"])?;\n\
        \x20   let items = "@
        + entity
        + "ModuleService::list_"@
        + slug
        + "s(parsed_filters, &db).await?;\n\
        \x20   Ok(Json(items))\n\
         }\n\npub async fn get_"@
        + slug
        + "_handler(\n\
        \x20   State((db, _, _)): State<(DatabaseConnection, Cache, crate::config::AppConfig)>,\n\
        \x20   Path(id): Path<String>,\n\
        ) -> Result<Json<"@
        + entity
        + "Response>, AppError> {\n\
        \x20   let item = "@
        + entity
        + "ModuleService::get_"@
        + slug
        + "_by_id(&id, &db).await?;\n\
        \x20   Ok(Json(item))\n\
         }\n\npub async fn create_"@
        + slug
        + "_handler(\n\
        \x20   State((db, _, _)): State<(DatabaseConnection, Cache, crate::config::AppConfig)>,\n\
        \x20   AppJson(payload): AppJson<Create"@
        + entity
        + "Request>,\n\
        ) -> Result<impl IntoResponse, AppError> {\n\
        \x20   let created = "@
        + entity
        + "ModuleService::create_"@
        + slug
        + "(payload, &db).await?;\n\
        \x20   Ok((StatusCode::CREATED, Json(created)))\n\
         }\n\npub async fn update_"@
        + slug
        + "_handler(\n\
        \x20   State((db, _, _)): State<(DatabaseConnection, Cache, crate::config::AppConfig)>,\n\
        \x20   Path(id): Path<String>,\n\
        \x20   AppJson(payload): AppJson<Update"@
        + entity
        + "Request>,\n\
        ) -> Result<Json<"@
        + entity
        + "Response>, AppError> {\n\
        \x20   let updated = "@
        + entity
        + "ModuleService::update_"@
        + slug
        + "(&id, payload, &db).await?;\n\
        \x20   Ok(Json(updated))\n\
         }\n\npub async fn delete_"@
        + slug
        + "_handler(\n\
        \x20   State((db, _, _)): State<(DatabaseConnection, Cache, crate::config::AppConfig)>,\n\
        \x20   Path(id): Path<String>,\n\
        ) -> Result<impl IntoResponse, AppError> {\n\
        \x20   "@
        + entity
        + "ModuleService::delete_"@
        + slug
        + "(&id, &db).await?;\n\
        \x20   Ok(StatusCode::NO_CONTENT)\n\
        }\n"@
}

/// Writes the source of the HTTP handlers of the entity.
pub fn generate_controller_text(entity_name: &str, slug: &str) -> (r: String)
    ensures
        r@ == controller_source(entity_name@, slug@),
{
    let mut code = String::from_str("use axum::{\n    extract::{Path, Query, State},\n    http::StatusCode,\n    response::IntoResponse,\n    Json,\n};\nuse sea_orm::DatabaseConnection;\nuse crate::{\n    errors::{AppError, AppJson},\n    infra::cache::Cache,\n    core::query_parser::{FilterParams, QueryValidator, PaginatedResponse},\n    modules::");
    code.append(slug);
    code.append("::schemas::{Create");
    code.append(entity_name);
    code.append("Request, ");
    code.append(entity_name);
    code.append("Response, Update");
    code.append(entity_name);
    code.append("Request},\n    modules::");
    code.append(slug);
    code.append("::service::");
    code.append(entity_name);
    code.append("ModuleService,\n};\n\npub async fn list_");
    code.append(slug);
    code.append("s_handler(\n\
        \x20   State((db, _, _)): State<(DatabaseConnection, Cache, crate::config::AppConfig)>,\n\
        \x20   Query(params): Query<FilterParams>,\n\
        ) -> Result<Json<PaginatedResponse<");
    code.append(entity_name);
    code.append("Response>>, AppError> {\n\
        \x20   let parsed_filters = QueryValidator::validate_and_parse(&params, &[\"name\"])?;\n\
        \x20   let items = ");
    code.append(entity_name);
    code.append("ModuleService::list_");
    code.append(slug);
    code.append("s(parsed_filters, &db).await?;\n\
        \x20   Ok(Json(items))\n\
         }\n\npub async fn get_");
    code.append(slug);
    code.append("_handler(\n\
        \x20   State((db, _, _)): State<(DatabaseConnection, Cache, crate::config::AppConfig)>,\n\
        \x20   Path(id): Path<String>,\n\
        ) -> Result<Json<");
    code.append(entity_name);
    code.append("Response>, AppError> {\n\
        \x20   let item = ");
    code.append(entity_name);
    code.append("ModuleService::get_");
    code.append(slug);
    code.append("_by_id(&id, &db).await?;\n\
        \x20   Ok(Json(item))\n\
         }\n\npub async fn create_");
    code.append(slug);
    code.append("_handler(\n\
        \x20   State((db, _, _)): State<(DatabaseConnection, Cache, crate::config::AppConfig)>,\n\
        \x20   AppJson(payload): AppJson<Create");
    code.append(entity_name);
    code.append("Request>,\n\
        ) -> Result<impl IntoResponse, AppError> {\n\
        \x20   let created = ");
    code.append(entity_name);
    code.append("ModuleService::create_");
    code.append(slug);
    code.append("(payload, &db).await?;\n\
        \x20   Ok((StatusCode::CREATED, Json(created)))\n\
         }\n\npub async fn update_");
    code.append(slug);
    code.append("_handler(\n\
        \x20   State((db, _, _)): State<(DatabaseConnection, Cache, crate::config::AppConfig)>,\n\
        \x20   Path(id): Path<String>,\n\
        \x20   AppJson(payload): AppJson<Update");
    code.append(entity_name);
    code.append("Request>,\n\
        ) -> Result<Json<");
    code.append(entity_name);
    code.append("Response>, AppError> {\n\
        \x20   let updated = ");
    code.append(entity_name);
    code.append("ModuleService::update_");
    code.append(slug);
    code.append("(&id, payload, &db).await?;\n\
        \x20   Ok(Json(updated))\n\
         }\n\npub async fn delete_");
    code.append(slug);
    code.append("_handler(\n\
        \x20   State((db, _, _)): State<(DatabaseConnection, Cache, crate::config::AppConfig)>,\n\
        \x20   Path(id): Path<String>,\n\
        ) -> Result<impl IntoResponse, AppError> {\n\
        \x20   ");
    code.append(entity_name);
    code.append("ModuleService::delete_");
    code.append(slug);
    code.append("(&id, &db).await?;\n\
        \x20   Ok(StatusCode::NO_CONTENT)\n\
        }\n");
    code
}

/// The source of the routes of the entity. Every route needs an
/// authenticated user (`auth_middleware`) and the permission for its action
/// on the entity's feature (`auth_route!`): `view` to list and read,
/// `create` to create and edit, `delete` to delete.
pub open spec fn routes_source(entity: Seq<char>, slug: Seq<char>) -> Seq<char> {
    "use axum::{\n    middleware::from_fn_with_state,\n    routing::{get, post, put, delete},\n    Router,\n};\nuse sea_orm::DatabaseConnection;\nuse crate::{\n    infra::cache::Cache,\n    config::AppConfig,\n    middleware::auth::auth_middleware,\n    modules::"@
        + slug
        + "::controller::{\n        create_"@
        + slug
        + "_handler, delete_"@
        + slug
        + "_handler, get_"@
        + slug
        + "_handler, list_"@
        + slug
        + "s_handler, update_"@
        + slug
        + "_handler,\n    },\n};\n\npub fn router(db: DatabaseConnection, cache: Cache, config: AppConfig) -> Router {\n    let state = (db.clone(), cache.clone(), config.clone());\n\n    let secure_routes = Router::new()\n        .route(\"/all\", get(crate::auth_route!(db, \""@
        + slug
        + "\", \"view\", list_"@
        + slug
        + "s_handler)))\n        .route(\"/\", post(crate::auth_route!(db, \""@
        + slug
        + "\", \"create\", create_"@
        + slug
        + "_handler)))\n        .route(\"/:id\", get(crate::auth_route!(db, \""@
        + slug
        + "\", \"view\", get_"@
        + slug
        + "_handler)))\n        .route(\"/:id\", put(crate::auth_route!(db, \""@
        + slug
        + "\", \"create\", update_"@
        + slug
        + "_handler)))\n        .route(\"/:id\", delete(crate::auth_route!(db, \""@
        + slug
        + "\", \"delete\", delete_"@
        + slug
        + "_handler)))\n        .layer(from_fn_with_state((cache.clone(), config.clone()), auth_middleware))\n        .with_state(state);\n\n    Router::new().nest(\"/v1/"@
        + slug
        + "\", secure_routes)\n}\n"@
}

/// Writes the source of the routes of the entity.
pub fn generate_routes_text(entity_name: &str, slug: &str) -> (r: String)
    ensures
        r@ == routes_source(entity_name@, slug@),
{
    let mut code = String::from_str("use axum::{\n    middleware::from_fn_with_state,\n    routing::{get, post, put, delete},\n    Router,\n};\nuse sea_orm::DatabaseConnection;\nuse crate::{\n    infra::cache::Cache,\n    config::AppConfig,\n    middleware::auth::auth_middleware,\n    modules::");
    code.append(slug);
    code.append("::controller::{\n        create_");
    code.append(slug);
    code.append("_handler, delete_");
    code.append(slug);
    code.append("_handler, get_");
    code.append(slug);
    code.append("_handler, list_");
    code.append(slug);
    code.append("s_handler, update_");
    code.append(slug);
    code.append("_handler,\n    },\n};\n\npub fn router(db: DatabaseConnection, cache: Cache, config: AppConfig) -> Router {\n    let state = (db.clone(), cache.clone(), config.clone());\n\n    let secure_routes = Router::new()\n        .route(\"/all\", get(crate::auth_route!(db, \"");
    code.append(slug);
    code.append("\", \"view\", list_");
    code.append(slug);
    code.append("s_handler)))\n        .route(\"/\", post(crate::auth_route!(db, \"");
    code.append(slug);
    code.append("\", \"create\", create_");
    code.append(slug);
    code.append("_handler)))\n        .route(\"/:id\", get(crate::auth_route!(db, \"");
    code.append(slug);
    code.append("\", \"view\", get_");
    code.append(slug);
    code.append("_handler)))\n        .route(\"/:id\", put(crate::auth_route!(db, \"");
    code.append(slug);
    code.append("\", \"create\", update_");
    code.append(slug);
    code.append("_handler)))\n        .route(\"/:id\", delete(crate::auth_route!(db, \"");
    code.append(slug);
    code.append("\", \"delete\", delete_");
    code.append(slug);
    code.append("_handler)))\n        .layer(from_fn_with_state((cache.clone(), config.clone()), auth_middleware))\n        .with_state(state);\n\n    Router::new().nest(\"/v1/");
    code.append(slug);
    code.append("\", secure_routes)\n}\n");
    code
}

// ---------------------------------------------------------------------------
// Registering a generated entity
// ---------------------------------------------------------------------------
/// The line that declares the model module of an entity.
pub open spec fn model_mod_line(slug: Seq<char>) -> Seq<char> {
    "pub mod "@ + slug + ";\n"@
}

/// The model registry with the entity's model declared at its end, or
/// `None` where the declaration is already there.
pub open spec fn spec_register_model(content: Seq<char>, slug: Seq<char>) -> Option<Seq<char>> {
    if contains_seq(content, model_mod_line(slug)) {
        None
    } else {
        Some(content + model_mod_line(slug))
    }
}

/// Declares the model of an entity in the model registry `content`; `None`
/// where it is already declared (the registry stays as it is).
pub fn register_model(content: &str, slug: &str) -> (r: Option<String>)
    ensures
        opt_string_view(r) == spec_register_model(content@, slug@),
{
    let line = concat3("pub mod ", slug, ";\n");
    let cs = chars_of(content);
    if contains_chars(&cs, line.as_str()) {
        None
    } else {
        let mut out = String::from_str(content);
        out.append(line.as_str());
        Some(out)
    }
}

pub open spec fn opt_string_view(o: Option<String>) -> Option<Seq<char>> {
    match o {
        Some(s) => Some(s@),
        None => None,
    }
}

/// A line without one trailing carriage return.
pub open spec fn strip_cr(l: Seq<char>) -> Seq<char> {
    if l.len() > 0 && l.last() == '\r' {
        l.drop_last()
    } else {
        l
    }
}

/// The lines of a text as `str::lines` yields them: split at `\n`, a `\r`
/// before the `\n` dropped, and no empty last line after a final `\n`.
pub open spec fn lines_of(s: Seq<char>) -> Seq<Seq<char>> {
    let p = split_on(s, '\n');
    let ended = p.drop_last().map_values(|l: Seq<char>| strip_cr(l));
    if p.last().len() == 0 {
        ended
    } else {
        ended.push(p.last())
    }
}

/// Lines joined with `\n` between them.
pub open spec fn join_lines(ls: Seq<Seq<char>>) -> Seq<char>
    decreases ls.len(),
{
    if ls.len() == 0 {
        Seq::empty()
    } else if ls.len() == 1 {
        ls[0]
    } else {
        join_lines(ls.drop_last()) + seq!['\n'] + ls.last()
    }
}

/// The declaration of the module of an entity.
pub open spec fn module_decl(slug: Seq<char>) -> Seq<char> {
    "pub mod "@ + slug + ";"@
}

/// What is appended to the line that builds the router.
pub open spec fn merge_call(slug: Seq<char>) -> Seq<char> {
    "\n        .merge("@ + slug + "::router(db.clone(), cache.clone(), config.clone()))"@
}

/// Line `i` is the first that holds `Router::new()`.
pub open spec fn first_router_line(ls: Seq<Seq<char>>, i: int) -> bool {
    &&& 0 <= i < ls.len()
    &&& contains_seq(ls[i], "Router::new()"@)
    &&& forall|j: int| 0 <= j < i ==> !contains_seq(#[trigger] ls[j], "Router::new()"@)
}

/// The lines with the router of the entity merged into the first line that
/// builds a router, if there is one.
pub open spec fn with_merge(ls: Seq<Seq<char>>, slug: Seq<char>) -> Seq<Seq<char>> {
    if exists|i: int| first_router_line(ls, i) {
        let i = choose|i: int| first_router_line(ls, i);
        ls.update(i, ls[i] + merge_call(slug))
    } else {
        ls
    }
}

/// The module registry with the entity's module declared on its first line
/// and its router merged into the application router, or `None` where the
/// module is already declared.
pub open spec fn spec_register_module(content: Seq<char>, slug: Seq<char>) -> Option<Seq<char>> {
    if contains_seq(content, module_decl(slug)) {
        None
    } else {
        Some(join_lines(with_merge(seq![module_decl(slug)] + lines_of(content), slug)))
    }
}

/// The lines of a text.
pub fn text_lines(s: &str) -> (r: Vec<Vec<char>>)
    ensures
        views_of(r@) == lines_of(s@),
{
    let cs = chars_of(s);
    let pieces = split_chars(&cs, '\n');
    proof {
        lemma_split_nonempty(s@, '\n');
    }
    let ghost p = split_on(s@, '\n');
    let n = pieces.len();
    let mut out: Vec<Vec<char>> = Vec::new();
    let mut i: usize = 0;
    while i + 1 < n
        invariant
            views_of(pieces@) == p,
            p == split_on(s@, '\n'),
            n == pieces@.len(),
            n >= 1,
            0 <= i < n,
            views_of(out@) == p.take(i as int).map_values(|l: Seq<char>| strip_cr(l)),
        decreases n - i,
    {
        let piece = &pieces[i];
        assert(views_of(pieces@)[i as int] == piece@);
        let k = piece.len();
        let line = if k > 0 && piece[k - 1] == '\r' {
            crate::text::copy_range(piece, 0, k - 1)
        } else {
            crate::text::copy_range(piece, 0, k)
        };
        assert(piece@.subrange(0, k as int) =~= piece@);
        if k > 0 {
            assert(piece@.drop_last() =~= piece@.subrange(0, k - 1));
        }
        assert(line@ == strip_cr(piece@));
        let ghost old_out = views_of(out@);
        out.push(line);
        assert(views_of(out@) =~= old_out.push(strip_cr(p[i as int])));
        assert(p.take(i + 1).map_values(|l: Seq<char>| strip_cr(l)) =~= p.take(i as int).map_values(
            |l: Seq<char>| strip_cr(l),
        ).push(strip_cr(p[i as int])));
        i = i + 1;
    }
    assert(p.drop_last() =~= p.take(i as int));
    let last = &pieces[n - 1];
    assert(views_of(pieces@)[n - 1] == last@);
    if last.len() > 0 {
        let copy = crate::text::copy_range(last, 0, last.len());
        assert(last@.subrange(0, last@.len() as int) =~= last@);
        out.push(copy);
        assert(views_of(out@) =~= lines_of(s@));
    } else {
        assert(views_of(out@) =~= lines_of(s@));
    }
    out
}

/// Lines joined with `\n` between them.
pub fn join_text_lines(ls: &Vec<Vec<char>>) -> (r: String)
    ensures
        r@ == join_lines(views_of(ls@)),
{
    let ghost all = views_of(ls@);
    let mut r = String::new();
    let mut i: usize = 0;
    while i < ls.len()
        invariant
            all == views_of(ls@),
            0 <= i <= ls@.len(),
            r@ == join_lines(all.take(i as int)),
        decreases ls@.len() - i,
    {
        proof {
            assert(all.take(i + 1).drop_last() =~= all.take(i as int));
            assert(all.take(i + 1).last() == ls@[i as int]@);
            assert(all.take(i + 1)[0] == all[0]);
        }
        if i > 0 {
            push_char(&mut r, '\n');
        }
        let ghost before = r@;
        let piece = &ls[i];
        for j in 0..piece.len()
            invariant
                r@ == before + piece@.take(j as int),
        {
            push_char(&mut r, piece[j]);
            assert(piece@.take(j + 1) =~= piece@.take(j as int).push(piece@[j as int]));
        }
        assert(piece@.take(piece@.len() as int) =~= piece@);
        if i == 0 {
            assert(r@ =~= join_lines(all.take(1)));
        } else {
            assert(r@ =~= join_lines(all.take(i + 1)));
        }
        i = i + 1;
    }
    assert(all.take(ls@.len() as int) =~= all);
    r
}

/// The first line that holds `Router::new()`, if any.
fn find_router_line(ls: &Vec<Vec<char>>) -> (r: Option<usize>)
    ensures
        match r {
            Some(i) => first_router_line(views_of(ls@), i as int),
            None => !exists|i: int| first_router_line(views_of(ls@), i),
        },
{
    let ghost all = views_of(ls@);
    let mut i: usize = 0;
    while i < ls.len()
        invariant
            all == views_of(ls@),
            0 <= i <= ls@.len(),
            forall|j: int| 0 <= j < i ==> !contains_seq(#[trigger] all[j], "Router::new()"@),
        decreases ls@.len() - i,
    {
        assert(all[i as int] == ls@[i as int]@);
        if contains_chars(&ls[i], "Router::new()") {
            return Some(i);
        }
        i = i + 1;
    }
    assert(!exists|k: int| first_router_line(all, k)) by {
        if exists|k: int| first_router_line(all, k) {
            let k = choose|k: int| first_router_line(all, k);
            assert(!contains_seq(all[k], "Router::new()"@));
        }
    }
    None
}

/// Declares the module of an entity in the module registry `content` and
/// merges its router into the application router; `None` where the module
/// is already declared (the registry stays as it is).
pub fn register_module(content: &str, slug: &str) -> (r: Option<String>)
    ensures
        opt_string_view(r) == spec_register_module(content@, slug@),
{
    let decl = concat3("pub mod ", slug, ";");
    let cs = chars_of(content);
    if contains_chars(&cs, decl.as_str()) {
        return None;
    }
    let rest = text_lines(content);
    let mut lines: Vec<Vec<char>> = Vec::new();
    lines.push(chars_of(decl.as_str()));
    let ghost first = views_of(lines@);
    let mut k: usize = 0;
    while k < rest.len()
        invariant
            first == seq![decl@],
            views_of(rest@) == lines_of(content@),
            0 <= k <= rest@.len(),
            views_of(lines@) == first + views_of(rest@).take(k as int),
        decreases rest@.len() - k,
    {
        let copy = crate::text::copy_range(&rest[k], 0, rest[k].len());
        assert(rest@[k as int]@.subrange(0, rest@[k as int]@.len() as int) =~= rest@[k as int]@);
        let ghost old_lines = views_of(lines@);
        lines.push(copy);
        assert(views_of(lines@) =~= old_lines.push(views_of(rest@)[k as int]));
        assert(views_of(lines@) =~= first + views_of(rest@).take(k + 1));
        k = k + 1;
    }
    assert(views_of(rest@).take(rest@.len() as int) =~= views_of(rest@));
    assert(first =~= seq![module_decl(slug@)]);
    let ghost before = views_of(lines@);
    match find_router_line(&lines) {
        Some(i) => {
            let merge = concat3(
                "\n        .merge(",
                slug,
                "::router(db.clone(), cache.clone(), config.clone()))",
            );
            let mut line = lines[i].clone();
            let extra = chars_of(merge.as_str());
            let ghost old_line = line@;
            for j in 0..extra.len()
                invariant
                    line@ == old_line + extra@.take(j as int),
            {
                line.push(extra[j]);
                assert(extra@.take(j + 1) =~= extra@.take(j as int).push(extra@[j as int]));
            }
            assert(extra@.take(extra@.len() as int) =~= extra@);
            lines.set(i, line);
            proof {
                let c = choose|c: int| first_router_line(before, c);
                if c < i {
                    assert(!contains_seq(before[c], "Router::new()"@));
                } else if c > i {
                    assert(!contains_seq(before[i as int], "Router::new()"@));
                }
                assert(views_of(lines@) =~= with_merge(before, slug@));
            }
        },
        None => {},
    }
    Some(join_text_lines(&lines))
}


// ---------------------------------------------------------------------------
// Registering the feature of a generated entity with the seeded roles
// ---------------------------------------------------------------------------
/// Line `i` is the first of `ls` that holds `needle`.
pub open spec fn first_line_with(ls: Seq<Seq<char>>, needle: Seq<char>, i: int) -> bool {
    &&& 0 <= i < ls.len()
    &&& contains_seq(ls[i], needle)
    &&& forall|j: int| 0 <= j < i ==> !contains_seq(#[trigger] ls[j], needle)
}

/// The line that seeds the feature of an entity in the start-up routine.
pub open spec fn feature_seed_line(slug: Seq<char>, entity: Seq<char>) -> Seq<char> {
    "        (\""@ + slug + "\", \"Gestão de "@ + entity + "\"),"@
}

/// What shows that the feature of an entity is seeded already.
pub open spec fn feature_seed_marker(slug: Seq<char>) -> Seq<char> {
    "(\""@ + slug + "\","@
}

/// The entry of the feature in the list of the administrator's permissions.
pub open spec fn feature_list_entry(slug: Seq<char>) -> Seq<char> {
    "\""@ + slug + "\", "@
}

/// The lines with the seed line of the feature after the first line that
/// opens the seeded features, if there is one.
pub open spec fn with_seed_line(ls: Seq<Seq<char>>, slug: Seq<char>, entity: Seq<char>) -> Seq<
    Seq<char>,
> {
    if exists|i: int| first_line_with(ls, "let features_data = vec!["@, i) {
        let i = choose|i: int| first_line_with(ls, "let features_data = vec!["@, i);
        ls.insert(i + 1, feature_seed_line(slug, entity))
    } else {
        ls
    }
}

/// A line with `entry` put in right after the first `vec![` in it.
pub open spec fn with_entry_after_vec(line: Seq<char>, entry: Seq<char>) -> Seq<char> {
    let p = choose|p: int| first_at(line, "vec!["@, p);
    line.take(p + 5) + entry + line.skip(p + 5)
}

/// The lines with the feature put first in the first list of the
/// administrator's permissions, if there is one.
pub open spec fn with_permission_entry(ls: Seq<Seq<char>>, slug: Seq<char>) -> Seq<Seq<char>> {
    if exists|i: int| first_line_with(ls, "let features = vec!["@, i) {
        let i = choose|i: int| first_line_with(ls, "let features = vec!["@, i);
        ls.update(i, with_entry_after_vec(ls[i], feature_list_entry(slug)))
    } else {
        ls
    }
}

/// The start-up routine `content` with the feature of an entity seeded and
/// granted to the administrator, or `None` where the feature is seeded
/// already.
pub open spec fn spec_register_feature(content: Seq<char>, slug: Seq<char>, entity: Seq<char>) -> Option<
    Seq<char>,
> {
    if contains_seq(content, feature_seed_marker(slug)) {
        None
    } else {
        Some(join_lines(with_permission_entry(with_seed_line(lines_of(content), slug, entity), slug)))
    }
}

/// The first line that holds `needle`.
fn find_first_line(ls: &Vec<Vec<char>>, needle: &str) -> (r: Option<usize>)
    ensures
        match r {
            Some(i) => first_line_with(views_of(ls@), needle@, i as int),
            None => !exists|i: int| first_line_with(views_of(ls@), needle@, i),
        },
{
    let ghost all = views_of(ls@);
    let mut i: usize = 0;
    while i < ls.len()
        invariant
            all == views_of(ls@),
            0 <= i <= ls@.len(),
            forall|j: int| 0 <= j < i ==> !contains_seq(#[trigger] all[j], needle@),
        decreases ls@.len() - i,
    {
        assert(all[i as int] == ls@[i as int]@);
        if contains_chars(&ls[i], needle) {
            return Some(i);
        }
        i = i + 1;
    }
    assert(!exists|k: int| first_line_with(all, needle@, k)) by {
        if exists|k: int| first_line_with(all, needle@, k) {
            let k = choose|k: int| first_line_with(all, needle@, k);
            assert(!contains_seq(all[k], needle@));
        }
    }
    None
}

proof fn lemma_first_at_unique(hay: Seq<char>, needle: Seq<char>, p: int, q: int)
    requires
        first_at(hay, needle, p),
        first_at(hay, needle, q),
    ensures
        p == q,
{
    if p < q {
        assert(!occurs_at(hay, needle, p));
    } else if q < p {
        assert(!occurs_at(hay, needle, q));
    }
}

/// Seeds the feature of an entity in the start-up routine `content` and
/// grants it to the administrator: its seed line goes right after the line
/// that opens the seeded features, and its id first into the list of the
/// administrator's permissions. `None` where the feature is seeded
/// already (the routine stays as it is).
pub fn register_feature(content: &str, slug: &str, entity_name: &str) -> (r: Option<String>)
    ensures
        opt_string_view(r) == spec_register_feature(content@, slug@, entity_name@),
{
    let marker = concat3("(\"", slug, "\",");
    let cs = chars_of(content);
    if contains_chars(&cs, marker.as_str()) {
        return None;
    }
    let mut lines = text_lines(content);
    let ghost ls0 = views_of(lines@);
    let mut seed = concat3("        (\"", slug, "\", \"Gestão de ");
    seed.append(entity_name);
    seed.append("\"),");
    match find_first_line(&lines, "let features_data = vec![") {
        Some(i) => {
            let n = lines.len();
            assert(ls0.len() == n);
            lines.insert(i + 1, chars_of(seed.as_str()));
            proof {
                let c = choose|c: int| first_line_with(ls0, "let features_data = vec!["@, c);
                if c < i {
                    assert(!contains_seq(ls0[c], "let features_data = vec!["@));
                } else if c > i {
                    assert(!contains_seq(ls0[i as int], "let features_data = vec!["@));
                }
                assert(views_of(lines@) =~= with_seed_line(ls0, slug@, entity_name@));
            }
        },
        None => {
            assert(views_of(lines@) =~= with_seed_line(ls0, slug@, entity_name@));
        },
    }
    let ghost ls1 = views_of(lines@);
    match find_first_line(&lines, "let features = vec![") {
        Some(j) => {
            let line = &lines[j];
            assert(ls1[j as int] == line@);
            proof {
                reveal_strlit("let features = vec![");
                reveal_strlit("vec![");
                let k = choose|k: int| occurs_at(line@, "let features = vec!["@, k);
                assert(line@.subrange(k + 15, k + 20) =~= line@.subrange(k, k + 20).subrange(
                    15,
                    20,
                ));
                assert("let features = vec!["@.subrange(15, 20) =~= "vec!["@);
                assert(occurs_at(line@, "vec!["@, k + 15));
            }
            let p = match find_first(line, "vec![") {
                Some(p) => p,
                None => {
                    return None;
                },
            };
            proof {
                reveal_strlit("vec![");
            }
            let ll = line.len();
            assert(occurs_at(line@, "vec!["@, p as int));
            assert(p + 5 <= ll);
            let mut edited = crate::text::copy_range(line, 0, p + 5);
            let mut entry = chars_of(crate::text::concat3("\"", slug, "\", ").as_str());
            let mut rest = crate::text::copy_range(line, p + 5, line.len());
            edited.append(&mut entry);
            edited.append(&mut rest);
            proof {
                let q = choose|q: int| first_at(line@, "vec!["@, q);
                lemma_first_at_unique(line@, "vec!["@, p as int, q);
                let c = choose|c: int| first_line_with(ls1, "let features = vec!["@, c);
                if c < j {
                    assert(!contains_seq(ls1[c], "let features = vec!["@));
                } else if c > j {
                    assert(!contains_seq(ls1[j as int], "let features = vec!["@));
                }
                assert(edited@ =~= with_entry_after_vec(line@, feature_list_entry(slug@)));
            }
            lines.set(j, edited);
            assert(views_of(lines@) =~= with_permission_entry(ls1, slug@));
        },
        None => {
            assert(views_of(lines@) =~= with_permission_entry(ls1, slug@));
        },
    }
    Some(join_text_lines(&lines))
}

// ---------------------------------------------------------------------------
// Laws of registration and field parsing
// ---------------------------------------------------------------------------
/// Registering a model twice changes nothing the second time.
pub proof fn lemma_register_model_idempotent(content: Seq<char>, slug: Seq<char>)
    requires
        spec_register_model(content, slug) is Some,
    ensures
        spec_register_model(spec_register_model(content, slug)->Some_0, slug) is None,
{
    let c2 = content + model_mod_line(slug);
    let n = content.len() as int;
    assert(c2.subrange(n, n + model_mod_line(slug).len()) =~= model_mod_line(slug));
    assert(occurs_at(c2, model_mod_line(slug), content.len() as int));
}

proof fn lemma_join_starts_with_first(ls: Seq<Seq<char>>)
    requires
        ls.len() >= 1,
    ensures
        join_lines(ls).len() >= ls[0].len(),
        join_lines(ls).subrange(0, ls[0].len() as int) == ls[0],
    decreases ls.len(),
{
    if ls.len() > 1 {
        lemma_join_starts_with_first(ls.drop_last());
        let j = join_lines(ls.drop_last());
        assert(ls.drop_last()[0] == ls[0]);
        assert((j + seq!['\n'] + ls.last()).subrange(0, ls[0].len() as int) =~= j.subrange(
            0,
            ls[0].len() as int,
        ));
    } else {
        assert(ls[0].subrange(0, ls[0].len() as int) =~= ls[0]);
    }
}

/// A module is registered exactly when the registry does not declare it
/// yet (its exact declaration `pub mod <slug>;`, whatever other modules
/// share the slug's beginning), and the registry then opens with its
/// declaration.
pub proof fn lemma_register_module_declares(content: Seq<char>, slug: Seq<char>)
    ensures
        spec_register_module(content, slug) is Some <==> !contains_seq(content, module_decl(slug)),
        spec_register_module(content, slug) matches Some(out) ==> occurs_at(
            out,
            module_decl(slug),
            0,
        ),
{
    if spec_register_module(content, slug) is Some {
        lemma_register_module_opens_with_decl(content, slug);
    }
}

proof fn lemma_first_router_exists(ls: Seq<Seq<char>>, j: int)
    requires
        0 <= j < ls.len(),
        contains_seq(ls[j], "Router::new()"@),
    ensures
        exists|i: int| first_router_line(ls, i),
    decreases j,
{
    if forall|k: int| 0 <= k < j ==> !contains_seq(#[trigger] ls[k], "Router::new()"@) {
        assert(first_router_line(ls, j));
    } else {
        let k = choose|k: int| 0 <= k < j && contains_seq(#[trigger] ls[k], "Router::new()"@);
        lemma_first_router_exists(ls, k);
    }
}

/// A module newly registered in a registry that builds a router has its
/// router merged into it.
pub proof fn lemma_register_module_mounts(content: Seq<char>, slug: Seq<char>, j: int)
    requires
        !contains_seq(content, module_decl(slug)),
        0 <= j < lines_of(content).len(),
        contains_seq(lines_of(content)[j], "Router::new()"@),
    ensures
        spec_register_module(content, slug) matches Some(out) && contains_seq(out, merge_call(slug)),
{
    let ls = seq![module_decl(slug)] + lines_of(content);
    assert(ls[j + 1] == lines_of(content)[j]);
    lemma_first_router_exists(ls, j + 1);
    let i = choose|i: int| first_router_line(ls, i);
    let merged = with_merge(ls, slug);
    assert(merged[i] == ls[i] + merge_call(slug));
    let m = merge_call(slug);
    assert(merged[i].subrange(ls[i].len() as int, ls[i].len() as int + m.len() as int) =~= m);
    assert(occurs_at(merged[i], m, ls[i].len() as int));
    lemma_join_holds_line(merged, i);
    let out = join_lines(merged);
    let p = choose|p: int| occurs_at(out, merged[i], p);
    lemma_occurs_in_occurrence(out, merged[i], m, p, ls[i].len() as int);
}

proof fn lemma_register_module_opens_with_decl(content: Seq<char>, slug: Seq<char>)
    requires
        spec_register_module(content, slug) is Some,
    ensures
        occurs_at(spec_register_module(content, slug)->Some_0, module_decl(slug), 0),
{
    let decl = module_decl(slug);
    let ls = seq![decl] + lines_of(content);
    let merged = with_merge(ls, slug);
    assert(ls[0] == decl);
    assert(merged.len() == ls.len());
    assert(merged[0].subrange(0, decl.len() as int) =~= decl) by {
        if exists|i: int| first_router_line(ls, i) {
            let i = choose|i: int| first_router_line(ls, i);
            if i == 0 {
                assert(merged[0] == decl + merge_call(slug));
            }
        }
    }
    lemma_join_starts_with_first(merged);
    let out = join_lines(merged);
    assert(out.subrange(0, decl.len() as int) =~= merged[0].subrange(0, decl.len() as int));
}

/// Registering a module twice changes nothing the second time: the
/// registry then opens with the module's declaration.
pub proof fn lemma_register_module_idempotent(content: Seq<char>, slug: Seq<char>)
    requires
        spec_register_module(content, slug) is Some,
    ensures
        spec_register_module(spec_register_module(content, slug)->Some_0, slug) is None,
{
    let decl = module_decl(slug);
    let ls = seq![decl] + lines_of(content);
    let merged = with_merge(ls, slug);
    assert(ls[0] == decl);
    assert(merged.len() == ls.len());
    assert(merged[0].subrange(0, decl.len() as int) =~= decl) by {
        if exists|i: int| first_router_line(ls, i) {
            let i = choose|i: int| first_router_line(ls, i);
            if i == 0 {
                assert(merged[0] == decl + merge_call(slug));
            }
        }
    }
    lemma_join_starts_with_first(merged);
    let out = join_lines(merged);
    assert(out.subrange(0, decl.len() as int) =~= merged[0].subrange(0, decl.len() as int));
    assert(occurs_at(out, decl, 0));
}

proof fn lemma_occurs_in_occurrence(a: Seq<char>, b: Seq<char>, c: Seq<char>, p: int, q: int)
    requires
        occurs_at(a, b, p),
        occurs_at(b, c, q),
    ensures
        occurs_at(a, c, p + q),
{
    assert(a.subrange(p + q, p + q + c.len()) =~= a.subrange(p, p + b.len()).subrange(
        q,
        q + c.len(),
    ));
}

proof fn lemma_join_holds_line(ls: Seq<Seq<char>>, k: int)
    requires
        0 <= k < ls.len(),
    ensures
        contains_seq(join_lines(ls), ls[k]),
    decreases ls.len(),
{
    if ls.len() == 1 {
        assert(ls[0].subrange(0, ls[0].len() as int) =~= ls[0]);
        assert(occurs_at(join_lines(ls), ls[k], 0));
    } else {
        let j = join_lines(ls.drop_last());
        let all = j + seq!['\n'] + ls.last();
        assert(join_lines(ls) == all);
        if k == ls.len() - 1 {
            let at = j.len() as int + 1;
            assert(all.subrange(at, at + ls[k].len()) =~= ls.last());
            assert(occurs_at(all, ls[k], at));
        } else {
            lemma_join_holds_line(ls.drop_last(), k);
            assert(ls.drop_last()[k] == ls[k]);
            let p = choose|p: int| occurs_at(j, ls[k], p);
            assert(all.subrange(p, p + ls[k].len()) =~= j.subrange(p, p + ls[k].len()));
            assert(occurs_at(all, ls[k], p));
        }
    }
}

/// Registering a feature twice changes nothing the second time, where the
/// routine opens its seeded features on a line of its own and the seed
/// line does not itself read as the list of the administrator's
/// permissions.
pub proof fn lemma_register_feature_idempotent(content: Seq<char>, slug: Seq<char>, entity: Seq<char>)
    requires
        spec_register_feature(content, slug, entity) is Some,
        exists|i: int| first_line_with(lines_of(content), "let features_data = vec!["@, i),
        !contains_seq(feature_seed_line(slug, entity), "let features = vec!["@),
    ensures
        spec_register_feature(spec_register_feature(content, slug, entity)->Some_0, slug, entity)
            is None,
{
    let ls0 = lines_of(content);
    let seed = feature_seed_line(slug, entity);
    let i = choose|i: int| first_line_with(ls0, "let features_data = vec!["@, i);
    let ls1 = with_seed_line(ls0, slug, entity);
    assert(ls1 == ls0.insert(i + 1, seed));
    assert(ls1[i + 1] == seed);
    let ls2 = with_permission_entry(ls1, slug);
    if exists|c: int| first_line_with(ls1, "let features = vec!["@, c) {
        let c = choose|c: int| first_line_with(ls1, "let features = vec!["@, c);
        assert(c != i + 1);
        assert(ls2[i + 1] == seed);
    } else {
        assert(ls2[i + 1] == seed);
    }
    lemma_join_holds_line(ls2, i + 1);
    let out = join_lines(ls2);
    let p = choose|p: int| occurs_at(out, seed, p);
    reveal_strlit("        (\"");
    reveal_strlit("(\"");
    reveal_strlit("\", \"Gestão de ");
    reveal_strlit("\",");
    let marker = feature_seed_marker(slug);
    let n = slug.len() as int;
    assert(seed.len() >= 8 + marker.len());
    assert forall|t: int| 0 <= t < marker.len() implies #[trigger] seed[8 + t] == marker[t] by {
        if t < 2 {
        } else if t < 2 + n {
            assert(seed[8 + t] == slug[t - 2]);
        } else {
        }
    }
    assert(seed.subrange(8, 8 + marker.len() as int) =~= marker);
    assert(occurs_at(seed, marker, 8));
    lemma_occurs_in_occurrence(out, seed, marker, p, 8);
}

proof fn lemma_contains_in_concat(a: Seq<char>, b: Seq<char>, x: Seq<char>)
    ensures
        contains_seq(a, x) ==> contains_seq(a + b, x),
        contains_seq(b, x) ==> contains_seq(a + b, x),
{
    if contains_seq(a, x) {
        let p = choose|p: int| occurs_at(a, x, p);
        assert((a + b).subrange(p, p + x.len()) =~= a.subrange(p, p + x.len()));
        assert(occurs_at(a + b, x, p));
    }
    if contains_seq(b, x) {
        let p = choose|p: int| occurs_at(b, x, p);
        let q = a.len() + p;
        assert((a + b).subrange(q, q + x.len()) =~= b.subrange(p, p + x.len()));
        assert(occurs_at(a + b, x, q));
    }
}

broadcast proof fn lemma_contains_in_concat_broadcast(a: Seq<char>, b: Seq<char>, x: Seq<char>)
    ensures
        #[trigger] contains_seq(a + b, x) <== contains_seq(a, x) || contains_seq(b, x),
{
    lemma_contains_in_concat(a, b, x);
}

/// The lines written for a field stand among the lines written for all
/// fields: one line of the shape per field.
pub proof fn lemma_one_line_per_field(t: FieldTemplate, fs: Seq<FieldView>, i: int)
    requires
        0 <= i < fs.len(),
    ensures
        contains_seq(field_lines(t, fs), field_line(t, fs[i])),
    decreases fs.len(),
{
    let last = fs.last();
    if i == fs.len() - 1 {
        let l = field_line(t, last);
        assert(l.subrange(0, l.len() as int) =~= l);
        assert(occurs_at(l, l, 0));
        lemma_contains_in_concat(field_lines(t, fs.drop_last()), l, l);
    } else {
        lemma_one_line_per_field(t, fs.drop_last(), i);
        assert(fs.drop_last()[i] == fs[i]);
        lemma_contains_in_concat(field_lines(t, fs.drop_last()), field_line(t, last), field_line(t, fs[i]));
    }
}

/// A generated service reads, sets and answers every declared field: for
/// each field it holds the line that lists it, the line that answers it,
/// the line that sets it on creation and the line that sets it on update.
pub proof fn lemma_service_covers_every_field(
    entity: Seq<char>,
    slug: Seq<char>,
    fs: Seq<FieldView>,
    i: int,
)
    requires
        0 <= i < fs.len(),
    ensures
        contains_seq(service_source(entity, slug, fs), field_line(FieldTemplate::ListedValue, fs[i])),
        contains_seq(service_source(entity, slug, fs), field_line(FieldTemplate::RecordValue, fs[i])),
        contains_seq(service_source(entity, slug, fs), field_line(FieldTemplate::PayloadValue, fs[i])),
        contains_seq(
            service_source(entity, slug, fs),
            field_line(FieldTemplate::PayloadAssignment, fs[i]),
        ),
        contains_seq(service_source(entity, slug, fs), field_line(FieldTemplate::UpdatedValue, fs[i])),
{
    broadcast use lemma_contains_in_concat_broadcast;

    lemma_one_line_per_field(FieldTemplate::ListedValue, fs, i);
    lemma_one_line_per_field(FieldTemplate::RecordValue, fs, i);
    lemma_one_line_per_field(FieldTemplate::PayloadValue, fs, i);
    lemma_one_line_per_field(FieldTemplate::PayloadAssignment, fs, i);
    lemma_one_line_per_field(FieldTemplate::UpdatedValue, fs, i);
}

/// The Rust types that fields can have.
pub open spec fn is_field_type(t: Seq<char>) -> bool {
    ||| t == "i32"@
    ||| t == "bool"@
    ||| t == "Decimal"@
    ||| t == "f64"@
    ||| t == "DateTimeWithTimeZone"@
    ||| t == "String"@
}

/// Every parsed field has one of the supported types, and there are never
/// more fields than arguments.
pub proof fn lemma_parsed_field_types(args: Seq<Seq<char>>)
    ensures
        fields_of(args).len() <= args.len(),
        forall|i: int|
            0 <= i < fields_of(args).len() ==> is_field_type(#[trigger] fields_of(args)[i].rust_type),
    decreases args.len(),
{
    if args.len() > 0 {
        lemma_parsed_field_types(args.drop_last());
    }
}

} // verus!
