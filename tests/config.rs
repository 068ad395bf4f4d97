use labmedical::config::{parse_origins, parse_port, Config, ConfigVars};
use labmedical::email::EmailService;

fn vars() -> ConfigVars {
    ConfigVars {
        database_url: Some("postgres://localhost/db".to_string()),
        port: None,
        jwt_secret: Some("secreto".to_string()),
        aws_access_key_id: Some("AKIA".to_string()),
        aws_secret_access_key: Some("clave-aws".to_string()),
        aws_region: None,
        aws_s3_bucket: Some("bucket".to_string()),
        email_api_key: Some("re_key".to_string()),
        email_from: Some("from@example.com".to_string()),
        email_to: Some("to@example.com".to_string()),
        cors_origin: None,
    }
}

#[test]
fn config_defaults() {
    let c = Config::from_vars(vars()).unwrap();
    assert_eq!(c.port, 3000);
    assert_eq!(c.aws_region, "us-east-1");
    assert_eq!(c.cors_origin, vec!["http://localhost:4321".to_string()]);
}

#[test]
fn config_missing_and_bad_values() {
    let mut v = vars();
    v.database_url = None;
    assert_eq!(Config::from_vars(v).unwrap_err(), "DATABASE_URL must be set");
    let mut v = vars();
    v.email_to = None;
    assert_eq!(Config::from_vars(v).unwrap_err(), "EMAIL_TO must be set");
    let mut v = vars();
    v.jwt_secret = None;
    v.email_to = None;
    assert_eq!(Config::from_vars(v).unwrap_err(), "JWT_SECRET must be set");
    let mut v = vars();
    v.port = Some("x".to_string());
    v.aws_s3_bucket = None;
    assert_eq!(Config::from_vars(v).unwrap_err(), "PORT must be a valid number");
    let mut v = vars();
    v.aws_s3_bucket = None;
    assert_eq!(Config::from_vars(v).unwrap_err(), "AWS_S3_BUCKET must be set");
    let mut v = vars();
    v.port = Some("70000".to_string());
    assert_eq!(Config::from_vars(v).unwrap_err(), "PORT must be a valid number");
    let mut v = vars();
    v.port = Some("8080".to_string());
    v.cors_origin = Some("https://a.pe, https://b.pe ,".to_string());
    let c = Config::from_vars(v).unwrap();
    assert_eq!(c.port, 8080);
    assert_eq!(c.cors_origin, vec!["https://a.pe".to_string(), "https://b.pe".to_string(), String::new()]);
}

#[test]
fn ports_parse_like_std() {
    for s in ["0", "80", "+443", "65535", "00080", "65536", "", "+", "-1", "8 0", "１"] {
        assert_eq!(parse_port(s), s.parse::<u16>().ok(), "{}", s);
    }
    assert_eq!(parse_origins("a"), vec!["a".to_string()]);
    assert_eq!(parse_origins("\u{3000}a\u{a0}\t,b"), vec!["a".to_string(), "b".to_string()]);
}

#[test]
fn quote_notification_fields() {
    let mut v = vars();
    v.email_from = Some("ventas@example.com".to_string());
    let c = Config::from_vars(v).unwrap();
    let s = EmailService::new(&c);
    assert_eq!(s.from(), "ventas@example.com");
    assert_eq!(s.to(), "to@example.com");
    assert_eq!(s.api_key(), "re_key");
    let n = s.quote_notification("Clinica Sur", "Ana", "ana@example.com", None, "20100047218", "A, B", Some("Hola"));
    assert_eq!(n.subject, "Cotización - Clinica Sur (RUC: 20100047218)");
    assert_eq!(n.phone, "No proporcionado");
    assert_eq!(n.message, "Hola");
    let n = s.quote_notification("X", "Y", "z@example.com", Some("999"), "1", "", None);
    assert_eq!(n.phone, "999");
    assert_eq!(n.message, "Ninguno");
}
