use backend_rust::errors::{
    handle_from_request_result, map_rejection, AppError, ErrorKind, JsonRejectionKind,
};

fn is_success(status: u16) -> bool {
    (200..300).contains(&status)
}

#[test]
fn test_app_error_messages_and_responses() {
    let e1 = AppError::BadRequest("bad".to_string());
    assert!(!e1.message().is_empty());
    assert!(!is_success(e1.status_code()));

    let e2 = AppError::Unauthorized("unauth".to_string());
    assert!(!e2.message().is_empty());
    assert!(!is_success(e2.status_code()));

    let e3 = AppError::Forbidden("forbid".to_string());
    assert!(!e3.message().is_empty());
    assert!(!is_success(e3.status_code()));

    let e4 = AppError::NotFound("notfound".to_string());
    assert!(!e4.message().is_empty());
    assert!(!is_success(e4.status_code()));

    let e5 = AppError::Conflict("conflict".to_string());
    assert!(!e5.message().is_empty());
    assert!(!is_success(e5.status_code()));

    let e6 = AppError::Internal("internal".to_string());
    assert!(!e6.message().is_empty());
    assert!(!is_success(e6.status_code()));
}

#[test]
fn status_codes_and_names_of_each_kind() {
    let cases = [
        (AppError::BadRequest("a".to_string()), 400, "BadRequestError"),
        (AppError::Unauthorized("a".to_string()), 401, "UnauthorizedError"),
        (AppError::Forbidden("a".to_string()), 403, "ForbiddenError"),
        (AppError::NotFound("a".to_string()), 404, "NotFoundError"),
        (AppError::Conflict("a".to_string()), 409, "ConflictError"),
        (AppError::Internal("a".to_string()), 500, "InternalServerError"),
    ];
    for (e, code, name) in cases.iter() {
        assert_eq!(e.status_code(), *code);
        assert_eq!(e.error_name(), *name);
        let body = e.to_error_response();
        assert!(!body.status);
        assert_eq!(body.message, "a");
        assert_eq!(body.error, *name);
        assert_eq!(e.is_internal(), *code == 500);
    }
}

#[test]
fn message_is_the_one_given() {
    let e = AppError::new(ErrorKind::Conflict, "já existe".to_string());
    assert_eq!(e.kind(), ErrorKind::Conflict);
    assert_eq!(e.message(), "já existe");
    let e = AppError::with_text(ErrorKind::NotFound, "sumiu");
    assert_eq!(e.kind(), ErrorKind::NotFound);
    assert_eq!(e.message(), "sumiu");
}

#[test]
fn test_from_conversions() {
    let db_err = sea_orm::DbErr::Custom("db error".to_string());
    let app_err = AppError::database(&db_err.to_string());
    assert!(app_err.message().contains("db error"));

    let bcrypt_err = bcrypt::BcryptError::InvalidCost("1".to_string());
    let app_err = AppError::crypto(&bcrypt_err.to_string());
    assert!(app_err.message().contains("Erro de criptografia"));

    let jwt_err =
        jsonwebtoken::errors::Error::from(jsonwebtoken::errors::ErrorKind::ExpiredSignature);
    let app_err = AppError::invalid_token(&jwt_err.to_string());
    assert!(app_err.message().contains("Token JWT inválido ou expirado"));
}

#[test]
fn errors_from_outside_failures() {
    let e = AppError::database("db error");
    assert_eq!(e.kind(), ErrorKind::Internal);
    assert_eq!(e.message(), "Erro no banco de dados: db error");
    assert!(e.message().contains("db error"));

    let e = AppError::crypto("Invalid cost: 1");
    assert_eq!(e.kind(), ErrorKind::Internal);
    assert!(e.message().contains("Erro de criptografia"));

    let e = AppError::invalid_token("ExpiredSignature");
    assert_eq!(e.kind(), ErrorKind::Unauthorized);
    assert!(e.message().contains("Token JWT inválido ou expirado"));
    assert_eq!(e.message(), "Token JWT inválido ou expirado: ExpiredSignature");
}

#[test]
fn json_rejections_are_bad_requests() {
    let e = map_rejection(JsonRejectionKind::MissingJsonContentType);
    assert_eq!(e.kind(), ErrorKind::BadRequest);
    assert!(e.message().contains("Content-Type"));

    let e = map_rejection(JsonRejectionKind::JsonSyntaxError("EOF".to_string()));
    assert!(e.message().contains("sintaxe"));
    assert_eq!(e.message(), "Erro de sintaxe no JSON: EOF");

    let e = map_rejection(JsonRejectionKind::JsonDataError("invalid type".to_string()));
    assert!(e.message().contains("validação"));

    let e = map_rejection(JsonRejectionKind::BytesRejection("Forced bytes error".to_string()));
    assert!(e.message().contains("Falha ao ler o corpo da requisição:"));

    let e = map_rejection(JsonRejectionKind::Other);
    assert_eq!(e.message(), "Falha ao desserializar o corpo da requisição");
    assert_eq!(e.status_code(), 400);
}

#[test]
fn request_bodies_pass_or_are_refused() {
    let ok: Result<i32, JsonRejectionKind> = Ok(7);
    match handle_from_request_result(ok) {
        Ok(v) => assert_eq!(v.0, 7),
        Err(_) => panic!("expected a value"),
    }
    let bad: Result<i32, JsonRejectionKind> = Err(JsonRejectionKind::MissingJsonContentType);
    match handle_from_request_result(bad) {
        Ok(_) => panic!("expected error"),
        Err(e) => {
            assert_eq!(e.kind(), ErrorKind::BadRequest);
            assert_eq!(e.message(), "Cabeçalho Content-Type esperado");
        },
    }
}
