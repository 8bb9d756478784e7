use backend_rust::generator::{
    entity_slug, generate_controller_text, generate_model_text, generate_routes_text,
    generate_schemas_text, generate_service_text, model_path, module_dir, module_file_path,
    parse_fields, register_feature, register_model, register_module, rust_type_of, Field,
};

fn args(list: &[&str]) -> Vec<String> {
    list.iter().map(|s| s.to_string()).collect()
}

fn sample_fields() -> Vec<Field> {
    parse_fields(&args(&["name:string:notnull", "price:decimal"]))
}

const EXPECTED_MODEL: &str = r##"use sea_orm::entity::prelude::*;
use serde::{Deserialize, Serialize};
use utoipa::ToSchema;

#[derive(Clone, Debug, PartialEq, DeriveEntityModel, Eq, Serialize, Deserialize, ToSchema)]
#[sea_orm(schema_name = "public", table_name = "Customer")]
pub struct Model {
    #[sea_orm(primary_key, auto_increment = false)]
    pub id: String,
    pub name: String,
    pub price: Option<Decimal>,
    pub active: bool,
    pub created_at: DateTimeWithTimeZone,
    pub updated_at: DateTimeWithTimeZone,
    pub is_deleted: Option<bool>,
    pub deleted_at: Option<DateTimeWithTimeZone>,
}

#[derive(Copy, Clone, Debug, DeriveRelation)]
pub enum Relation {}

impl ActiveModelBehavior for ActiveModel {}
"##;

const EXPECTED_SCHEMAS: &str = r##"use serde::{Deserialize, Serialize};
use utoipa::ToSchema;
use sea_orm::prelude::Decimal;

#[derive(Debug, Deserialize, ToSchema)]
pub struct CreateCustomerRequest {
    pub name: String,
    pub price: Option<Decimal>,
}

#[derive(Debug, Deserialize, ToSchema)]
pub struct UpdateCustomerRequest {
    pub name: String,
    pub price: Option<Decimal>,
    pub active: Option<bool>,
}

#[derive(Debug, Serialize, ToSchema)]
pub struct CustomerResponse {
    pub id: String,
    pub name: String,
    pub price: Option<Decimal>,
    pub active: bool,
    pub created_at: String,
    pub updated_at: String,
}
"##;

const EXPECTED_SERVICE: &str = r##"use sea_orm::{
    ActiveModelTrait, ColumnTrait, DatabaseConnection, EntityTrait,
    QueryFilter, QueryOrder, QuerySelect, Set, Order,
};
use uuid::Uuid;
use crate::{
    errors::AppError,
    core::query_parser::{ParsedFilters, PaginatedResponse},
    models::customer,
    modules::customer::schemas::{CreateCustomerRequest, CustomerResponse, UpdateCustomerRequest},
};

pub struct CustomerModuleService;

impl CustomerModuleService {
    pub async fn list_customers(
        filters: ParsedFilters,
        db: &DatabaseConnection,
    ) -> Result<PaginatedResponse<CustomerResponse>, AppError> {
        let mut query = customer::Entity::find()
            .filter(customer::Column::IsDeleted.ne(true));

        if let Some(word) = filters.search_word {
            query = query.filter(customer::Column::Name.ilike(format!("%{}%", word)));
        }

        let total = query.clone().count(db).await?;

        let dir = if filters.order_direction.to_lowercase() == "desc" { Order::Desc } else { Order::Asc };
        query = query.order_by(customer::Column::CreatedAt, dir);

        let offset = filters.page * filters.size;
        let records = query.limit(filters.size).offset(offset).all(db).await?;

        let items = records.into_iter().map(|p| {
            CustomerResponse {
                id: p.id,
                name: p.name,
                price: p.price,
                active: p.active,
                created_at: p.created_at.to_rfc3339(),
                updated_at: p.updated_at.to_rfc3339(),
            }
        }).collect();

        Ok(PaginatedResponse { items, total, page: filters.page, size: filters.size })
    }

    pub async fn get_customer_by_id(id: &str, db: &DatabaseConnection) -> Result<CustomerResponse, AppError> {
        let p = customer::Entity::find_by_id(id.to_string())
            .filter(customer::Column::IsDeleted.ne(true))
            .one(db).await?
            .ok_or_else(|| AppError::NotFound("Registro não encontrado".to_string()))?;

        Ok(CustomerResponse {
            id: p.id,
            name: p.name,
            price: p.price,
            active: p.active,
            created_at: p.created_at.to_rfc3339(),
            updated_at: p.updated_at.to_rfc3339(),
        })
    }

    pub async fn create_customer(payload: CreateCustomerRequest, db: &DatabaseConnection) -> Result<CustomerResponse, AppError> {
        let new_id = Uuid::new_v4().to_string();
        let active_model = customer::ActiveModel {
            id: Set(new_id),
            name: Set(payload.name),
            price: Set(payload.price),
            active: Set(true),
            is_deleted: Set(Some(false)),
            deleted_at: Set(None),
            created_at: Set(chrono::Utc::now().into()),
            updated_at: Set(chrono::Utc::now().into()),
        };

        let p = active_model.insert(db).await?;

        Ok(CustomerResponse {
            id: p.id,
            name: p.name,
            price: p.price,
            active: p.active,
            created_at: p.created_at.to_rfc3339(),
            updated_at: p.updated_at.to_rfc3339(),
        })
    }

    pub async fn update_customer(id: &str, payload: UpdateCustomerRequest, db: &DatabaseConnection) -> Result<CustomerResponse, AppError> {
        let p = customer::Entity::find_by_id(id.to_string())
            .filter(customer::Column::IsDeleted.ne(true))
            .one(db).await?
            .ok_or_else(|| AppError::NotFound("Registro não encontrado".to_string()))?;

        let mut active_model: customer::ActiveModel = p.into();
        active_model.name = Set(payload.name);
        active_model.price = Set(payload.price);
        if let Some(act) = payload.active { active_model.active = Set(act); }
        active_model.updated_at = Set(chrono::Utc::now().into());

        let updated = active_model.update(db).await?;

        Ok(CustomerResponse {
            id: updated.id,
            name: updated.name,
            price: updated.price,
            active: updated.active,
            created_at: updated.created_at.to_rfc3339(),
            updated_at: updated.updated_at.to_rfc3339(),
        })
    }

    pub async fn delete_customer(id: &str, db: &DatabaseConnection) -> Result<(), AppError> {
        let p = customer::Entity::find_by_id(id.to_string())
            .filter(customer::Column::IsDeleted.ne(true))
            .one(db).await?
            .ok_or_else(|| AppError::NotFound("Registro não encontrado".to_string()))?;

        let mut active_model: customer::ActiveModel = p.into();
        active_model.active = Set(false);
        active_model.is_deleted = Set(Some(true));
        active_model.deleted_at = Set(Some(chrono::Utc::now().into()));
        active_model.update(db).await?;

        Ok(())
    }
}
"##;

const EXPECTED_CONTROLLER: &str = r##"use axum::{
    extract::{Path, Query, State},
    http::StatusCode,
    response::IntoResponse,
    Json,
};
use sea_orm::DatabaseConnection;
use crate::{
    errors::{AppError, AppJson},
    infra::cache::Cache,
    core::query_parser::{FilterParams, QueryValidator, PaginatedResponse},
    modules::customer::schemas::{CreateCustomerRequest, CustomerResponse, UpdateCustomerRequest},
    modules::customer::service::CustomerModuleService,
};

pub async fn list_customers_handler(
    State((db, _, _)): State<(DatabaseConnection, Cache, crate::config::AppConfig)>,
    Query(params): Query<FilterParams>,
) -> Result<Json<PaginatedResponse<CustomerResponse>>, AppError> {
    let parsed_filters = QueryValidator::validate_and_parse(&params, &["name"])?;
    let items = CustomerModuleService::list_customers(parsed_filters, &db).await?;
    Ok(Json(items))
}

pub async fn get_customer_handler(
    State((db, _, _)): State<(DatabaseConnection, Cache, crate::config::AppConfig)>,
    Path(id): Path<String>,
) -> Result<Json<CustomerResponse>, AppError> {
    let item = CustomerModuleService::get_customer_by_id(&id, &db).await?;
    Ok(Json(item))
}

pub async fn create_customer_handler(
    State((db, _, _)): State<(DatabaseConnection, Cache, crate::config::AppConfig)>,
    AppJson(payload): AppJson<CreateCustomerRequest>,
) -> Result<impl IntoResponse, AppError> {
    let created = CustomerModuleService::create_customer(payload, &db).await?;
    Ok((StatusCode::CREATED, Json(created)))
}

pub async fn update_customer_handler(
    State((db, _, _)): State<(DatabaseConnection, Cache, crate::config::AppConfig)>,
    Path(id): Path<String>,
    AppJson(payload): AppJson<UpdateCustomerRequest>,
) -> Result<Json<CustomerResponse>, AppError> {
    let updated = CustomerModuleService::update_customer(&id, payload, &db).await?;
    Ok(Json(updated))
}

pub async fn delete_customer_handler(
    State((db, _, _)): State<(DatabaseConnection, Cache, crate::config::AppConfig)>,
    Path(id): Path<String>,
) -> Result<impl IntoResponse, AppError> {
    CustomerModuleService::delete_customer(&id, &db).await?;
    Ok(StatusCode::NO_CONTENT)
}
"##;

const EXPECTED_ROUTES: &str = r##"use axum::{
    middleware::from_fn_with_state,
    routing::{get, post, put, delete},
    Router,
};
use sea_orm::DatabaseConnection;
use crate::{
    infra::cache::Cache,
    config::AppConfig,
    middleware::auth::auth_middleware,
    modules::customer::controller::{
        create_customer_handler, delete_customer_handler, get_customer_handler, list_customers_handler, update_customer_handler,
    },
};

pub fn router(db: DatabaseConnection, cache: Cache, config: AppConfig) -> Router {
    let state = (db.clone(), cache.clone(), config.clone());

    let secure_routes = Router::new()
        .route("/all", get(crate::auth_route!(db, "customer", "view", list_customers_handler)))
        .route("/", post(crate::auth_route!(db, "customer", "create", create_customer_handler)))
        .route("/:id", get(crate::auth_route!(db, "customer", "view", get_customer_handler)))
        .route("/:id", put(crate::auth_route!(db, "customer", "create", update_customer_handler)))
        .route("/:id", delete(crate::auth_route!(db, "customer", "delete", delete_customer_handler)))
        .layer(from_fn_with_state((cache.clone(), config.clone()), auth_middleware))
        .with_state(state);

    Router::new().nest("/v1/customer", secure_routes)
}
"##;

#[test]
fn fields_are_read_from_the_command_line() {
    let fields = parse_fields(&args(&[
        "name:string",
        "price:Decimal",
        "bad",
        "x:y:z",
        "count:INT",
        "flag:bool",
        "ratio:float",
        "due:date",
        "notes:text",
        "title:string:notnull",
        "code:int:NOTNULL",
    ]));
    let got: Vec<(String, String, bool)> =
        fields.into_iter().map(|f| (f.name, f.rust_type, f.required)).collect();
    let want: Vec<(String, String, bool)> = vec![
        ("name", "String", false),
        ("price", "Decimal", false),
        ("count", "i32", false),
        ("flag", "bool", false),
        ("ratio", "f64", false),
        ("due", "DateTimeWithTimeZone", false),
        ("notes", "String", false),
        ("title", "String", true),
    ]
    .into_iter()
    .map(|(a, b, c)| (a.to_string(), b.to_string(), c))
    .collect();
    assert_eq!(got, want);
    assert_eq!(rust_type_of("int"), "i32");
    assert_eq!(rust_type_of("INT"), "String");
}

#[test]
fn slugs_and_paths() {
    assert_eq!(entity_slug("ProductCategory"), "productcategory");
    assert_eq!(model_path("customer"), "src/models/customer.rs");
    assert_eq!(module_dir("customer"), "src/modules/customer");
    assert_eq!(module_file_path("customer", "service"), "src/modules/customer/service.rs");
}

#[test]
fn generated_model() {
    assert_eq!(generate_model_text("Customer", "customer", &sample_fields()), EXPECTED_MODEL);
}

#[test]
fn generated_schemas() {
    assert_eq!(generate_schemas_text("Customer", "customer", &sample_fields()), EXPECTED_SCHEMAS);
}

#[test]
fn generated_service() {
    assert_eq!(generate_service_text("Customer", "customer", &sample_fields()), EXPECTED_SERVICE);
}

#[test]
fn generated_controller() {
    assert_eq!(generate_controller_text("Customer", "customer"), EXPECTED_CONTROLLER);
}

#[test]
fn generated_routes() {
    assert_eq!(generate_routes_text("Customer", "customer"), EXPECTED_ROUTES);
}

#[test]
fn models_are_registered_once() {
    let first = register_model("pub mod role;\n", "customer").unwrap();
    assert_eq!(first, "pub mod role;\npub mod customer;\n");
    assert_eq!(register_model(&first, "customer"), None);
    assert_eq!(register_model("", "x").unwrap(), "pub mod x;\n");
}

#[test]
fn modules_are_registered_once() {
    let registry = "pub mod auth;\r\n\nuse axum::Router;\n\npub fn app_router() -> Router {\n    Router::new()\n        .merge(auth::router())\n}\n";
    let first = register_module(registry, "customer").unwrap();
    assert_eq!(
        first,
        "pub mod customer;\npub mod auth;\n\nuse axum::Router;\n\npub fn app_router() -> Router {\n    Router::new()\n        .merge(customer::router(db.clone(), cache.clone(), config.clone()))\n        .merge(auth::router())\n}"
    );
    assert_eq!(register_module(&first, "customer"), None);
    // Without an application router only the declaration is added.
    assert_eq!(register_module("", "x").unwrap(), "pub mod x;");
}

#[test]
fn features_are_seeded_once() {
    let routine = "pub async fn bootstrap_database(db: &DatabaseConnection) -> Result<(), DbErr> {\n    let features_data = vec![\n        (\"user\", \"Gestão de Usuários\"),\n        (\"product\", \"Gestão de Produtos\"),\n    ];\n\n    let features = vec![\"user\", \"product\"];\n    Ok(())\n}\n";
    let first = register_feature(routine, "category", "Category").unwrap();
    assert_eq!(
        first,
        "pub async fn bootstrap_database(db: &DatabaseConnection) -> Result<(), DbErr> {\n    let features_data = vec![\n        (\"category\", \"Gestão de Category\"),\n        (\"user\", \"Gestão de Usuários\"),\n        (\"product\", \"Gestão de Produtos\"),\n    ];\n\n    let features = vec![\"category\", \"user\", \"product\"];\n    Ok(())\n}"
    );
    assert_eq!(register_feature(&first, "category", "Category"), None);
    assert_eq!(register_feature(routine, "user", "User"), None);
}

#[test]
fn generated_service_handles_every_field() {
    let fields = parse_fields(&args(&["title:string:notnull", "stock:int", "due:date"]));
    let service = generate_service_text("Item", "item", &fields);
    for name in ["title", "stock", "due"] {
        assert!(service.contains(&format!("                {}: p.{},\n", name, name)));
        assert!(service.contains(&format!("            {}: p.{},\n", name, name)));
        assert!(service.contains(&format!("            {}: Set(payload.{}),\n", name, name)));
        assert!(service.contains(&format!("        active_model.{} = Set(payload.{});\n", name, name)));
    }
    let model = generate_model_text("Item", "item", &fields);
    assert!(model.contains("    pub title: String,\n"));
    assert!(model.contains("    pub stock: Option<i32>,\n"));
    assert!(model.contains("    pub due: Option<DateTimeWithTimeZone>,\n"));
}
