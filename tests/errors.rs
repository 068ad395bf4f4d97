use labmedical::error::DiagnosticRecord;
use labmedical::ApiError;

#[test]
fn responses_of_each_kind() {
    let cases = vec![
        (ApiError::Database("pool timed out".to_string()), 500, "ERR_INTERNAL_SERVER", "Error interno del servidor"),
        (ApiError::Auth("contrasena incorrecta".to_string()), 401, "ERR_UNAUTHORIZED", "Credenciales inválidas"),
        (ApiError::NotFound("Producto".to_string()), 404, "ERR_NOT_FOUND", "Recurso no encontrado"),
        (ApiError::Internal("SELECT * FROM admins".to_string()), 500, "ERR_INTERNAL_SERVER", "Error interno del servidor"),
        (ApiError::Unauthorized, 401, "ERR_UNAUTHORIZED", "No autorizado"),
        (ApiError::RateLimitExceeded, 429, "ERR_RATE_LIMIT", "Demasiadas solicitudes, intente en unos minutos"),
        (ApiError::InvalidRuc, 400, "ERR_INVALID_RUC", "El RUC proporcionado no es valido"),
        (ApiError::BadRequest("Falta archivo".to_string()), 400, "ERR_BAD_REQUEST", "Falta archivo"),
    ];
    for (e, status, code, message) in cases {
        let r = e.to_response();
        assert_eq!(r.status, status);
        assert_eq!(r.code, code);
        assert_eq!(r.message, message);
    }
}

#[test]
fn validation_echoes_caller_context() {
    let r = ApiError::Validation("email: email invalido".to_string()).to_response();
    assert_eq!(r.status, 400);
    assert_eq!(r.code, "ERR_VALIDATION");
    assert_eq!(r.message, "Error de validación: email: email invalido");
}

#[test]
fn internal_detail_goes_to_diagnostics_only() {
    let e = ApiError::Database("relation \"quotes\" does not exist".to_string());
    assert!(!e.to_response().message.contains("quotes"));
    assert_eq!(
        e.diagnostic(),
        Some(DiagnosticRecord {
            error_type: "database".to_string(),
            details: "relation \"quotes\" does not exist".to_string(),
        })
    );
    assert_eq!(ApiError::NotFound("x".to_string()).diagnostic(), None);
    assert_eq!(ApiError::Auth("token expirado".to_string()).diagnostic().unwrap().error_type, "auth");
}
