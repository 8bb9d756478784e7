use vstd::prelude::*;

use crate::text::concat2;

verus! {

/// The class of an application error; it decides the HTTP status.
#[derive(Clone, Copy, PartialEq, Eq, Debug, Structural)]
pub enum ErrorKind {
    BadRequest,
    Unauthorized,
    Forbidden,
    NotFound,
    Conflict,
    Internal,
}

/// An error of the application, with the message shown to the client.
#[derive(Debug, Clone)]
pub enum AppError {
    BadRequest(String),
    Unauthorized(String),
    Forbidden(String),
    NotFound(String),
    Conflict(String),
    Internal(String),
}

/// The body of an error response.
#[derive(Debug, Clone)]
pub struct ErrorResponse {
    pub status: bool,
    pub message: String,
    pub error: String,
}

/// A request body that was read and deserialized as JSON.
pub struct AppJson<T>(pub T);

impl View for AppError {
    type V = (ErrorKind, Seq<char>);

    open spec fn view(&self) -> (ErrorKind, Seq<char>) {
        match self {
            AppError::BadRequest(m) => (ErrorKind::BadRequest, m@),
            AppError::Unauthorized(m) => (ErrorKind::Unauthorized, m@),
            AppError::Forbidden(m) => (ErrorKind::Forbidden, m@),
            AppError::NotFound(m) => (ErrorKind::NotFound, m@),
            AppError::Conflict(m) => (ErrorKind::Conflict, m@),
            AppError::Internal(m) => (ErrorKind::Internal, m@),
        }
    }
}

/// The HTTP status code of each kind of error.
pub open spec fn status_of(kind: ErrorKind) -> u16 {
    match kind {
        ErrorKind::BadRequest => 400,
        ErrorKind::Unauthorized => 401,
        ErrorKind::Forbidden => 403,
        ErrorKind::NotFound => 404,
        ErrorKind::Conflict => 409,
        ErrorKind::Internal => 500,
    }
}

/// The name of each kind of error in a response body.
pub open spec fn name_of(kind: ErrorKind) -> Seq<char> {
    match kind {
        ErrorKind::BadRequest => "BadRequestError"@,
        ErrorKind::Unauthorized => "UnauthorizedError"@,
        ErrorKind::Forbidden => "ForbiddenError"@,
        ErrorKind::NotFound => "NotFoundError"@,
        ErrorKind::Conflict => "ConflictError"@,
        ErrorKind::Internal => "InternalServerError"@,
    }
}

impl AppError {
    /// An error of the given kind with the given message.
    pub fn new(kind: ErrorKind, message: String) -> (r: AppError)
        ensures
            r@ == (kind, message@),
    {
        match kind {
            ErrorKind::BadRequest => AppError::BadRequest(message),
            ErrorKind::Unauthorized => AppError::Unauthorized(message),
            ErrorKind::Forbidden => AppError::Forbidden(message),
            ErrorKind::NotFound => AppError::NotFound(message),
            ErrorKind::Conflict => AppError::Conflict(message),
            ErrorKind::Internal => AppError::Internal(message),
        }
    }

    /// An error of the given kind whose message is the given text.
    pub fn with_text(kind: ErrorKind, message: &str) -> (r: AppError)
        ensures
            r@ == (kind, message@),
    {
        AppError::new(kind, String::from_str(message))
    }

    /// The message carried by the error.
    pub fn message(&self) -> (r: String)
        ensures
            r@ == self@.1,
    {
        match self {
            AppError::BadRequest(msg) => msg.clone(),
            AppError::Unauthorized(msg) => msg.clone(),
            AppError::Forbidden(msg) => msg.clone(),
            AppError::NotFound(msg) => msg.clone(),
            AppError::Conflict(msg) => msg.clone(),
            AppError::Internal(msg) => msg.clone(),
        }
    }

    /// The kind of the error.
    pub fn kind(&self) -> (r: ErrorKind)
        ensures
            r == self@.0,
    {
        match self {
            AppError::BadRequest(_) => ErrorKind::BadRequest,
            AppError::Unauthorized(_) => ErrorKind::Unauthorized,
            AppError::Forbidden(_) => ErrorKind::Forbidden,
            AppError::NotFound(_) => ErrorKind::NotFound,
            AppError::Conflict(_) => ErrorKind::Conflict,
            AppError::Internal(_) => ErrorKind::Internal,
        }
    }

    /// The HTTP status code of the response to this error; never a success
    /// code.
    pub fn status_code(&self) -> (r: u16)
        ensures
            r == status_of(self@.0),
            400 <= r <= 599,
    {
        match self {
            AppError::BadRequest(_) => 400,
            AppError::Unauthorized(_) => 401,
            AppError::Forbidden(_) => 403,
            AppError::NotFound(_) => 404,
            AppError::Conflict(_) => 409,
            AppError::Internal(_) => 500,
        }
    }

    /// The error name written in the response body.
    pub fn error_name(&self) -> (r: String)
        ensures
            r@ == name_of(self@.0),
    {
        match self {
            AppError::BadRequest(_) => String::from_str("BadRequestError"),
            AppError::Unauthorized(_) => String::from_str("UnauthorizedError"),
            AppError::Forbidden(_) => String::from_str("ForbiddenError"),
            AppError::NotFound(_) => String::from_str("NotFoundError"),
            AppError::Conflict(_) => String::from_str("ConflictError"),
            AppError::Internal(_) => String::from_str("InternalServerError"),
        }
    }

    /// Whether the error is a server-side failure (status 500), the one kind
    /// that is logged when it is answered.
    pub fn is_internal(&self) -> (r: bool)
        ensures
            r == (self@.0 == ErrorKind::Internal),
    {
        match self {
            AppError::Internal(_) => true,
            _ => false,
        }
    }

    /// The body of the response to this error.
    pub fn to_error_response(&self) -> (r: ErrorResponse)
        ensures
            r.status == false,
            r.message@ == self@.1,
            r.error@ == name_of(self@.0),
    {
        ErrorResponse { status: false, message: self.message(), error: self.error_name() }
    }

    /// The error for a failed database operation, given the text of the
    /// database error.
    pub fn database(detail: &str) -> (r: AppError)
        ensures
            r@ == (ErrorKind::Internal, "Erro no banco de dados: "@ + detail@),
    {
        AppError::Internal(concat2("Erro no banco de dados: ", detail))
    }

    /// The error for a failed password hashing or check, given the text of
    /// the hashing error.
    pub fn crypto(detail: &str) -> (r: AppError)
        ensures
            r@ == (ErrorKind::Internal, "Erro de criptografia: "@ + detail@),
    {
        AppError::Internal(concat2("Erro de criptografia: ", detail))
    }

    /// The error for a token that failed verification, given the text of the
    /// token error.
    pub fn invalid_token(detail: &str) -> (r: AppError)
        ensures
            r@ == (ErrorKind::Unauthorized, "Token JWT inválido ou expirado: "@ + detail@),
    {
        AppError::Unauthorized(concat2("Token JWT inválido ou expirado: ", detail))
    }
}

/// Why a JSON request body was refused, with the text of the underlying
/// error where there is one.
#[derive(Debug, Clone)]
pub enum JsonRejectionKind {
    MissingJsonContentType,
    BytesRejection(String),
    JsonSyntaxError(String),
    JsonDataError(String),
    Other,
}

/// The message for each reason a JSON body is refused.
pub open spec fn rejection_message(r: JsonRejectionKind) -> Seq<char> {
    match r {
        JsonRejectionKind::MissingJsonContentType => "Cabeçalho Content-Type esperado"@,
        JsonRejectionKind::BytesRejection(e) => "Falha ao ler o corpo da requisição: "@ + e@,
        JsonRejectionKind::JsonSyntaxError(e) => "Erro de sintaxe no JSON: "@ + e@,
        JsonRejectionKind::JsonDataError(e) => "Erro de validação do JSON: "@ + e@,
        JsonRejectionKind::Other => "Falha ao desserializar o corpo da requisição"@,
    }
}

/// A refused JSON body is answered with a bad request.
pub fn map_rejection(rejection: JsonRejectionKind) -> (r: AppError)
    ensures
        r@ == (ErrorKind::BadRequest, rejection_message(rejection)),
{
    let msg = match &rejection {
        JsonRejectionKind::MissingJsonContentType => String::from_str(
            "Cabeçalho Content-Type esperado",
        ),
        JsonRejectionKind::BytesRejection(e) => concat2(
            "Falha ao ler o corpo da requisição: ",
            e.as_str(),
        ),
        JsonRejectionKind::JsonSyntaxError(e) => concat2("Erro de sintaxe no JSON: ", e.as_str()),
        JsonRejectionKind::JsonDataError(e) => concat2("Erro de validação do JSON: ", e.as_str()),
        JsonRejectionKind::Other => String::from_str(
            "Falha ao desserializar o corpo da requisição",
        ),
    };
    AppError::BadRequest(msg)
}

/// The outcome of reading a JSON body: the value, or the refusal answered as
/// a bad request.
pub fn handle_from_request_result<T>(res: Result<T, JsonRejectionKind>) -> (r: Result<
    AppJson<T>,
    AppError,
>)
    ensures
        match res {
            Ok(v) => r matches Ok(j) && j.0 == v,
            Err(e) => r matches Err(a) && a@ == (ErrorKind::BadRequest, rejection_message(e)),
        },
{
    match res {
        Ok(value) => Ok(AppJson(value)),
        Err(rejection) => Err(map_rejection(rejection)),
    }
}

} // verus!
