use labmedical::storage::{check_upload_size, key_from_url, new_upload_key, object_url, upload_target, MAX_UPLOAD_BYTES};
use labmedical::ApiError;

#[test]
fn allowed_upload_types() {
    let t = upload_target("image/jpeg").unwrap();
    assert_eq!((t.extension, t.folder), ("jpg", "images"));
    let t = upload_target("image/webp").unwrap();
    assert_eq!((t.extension, t.folder), ("webp", "images"));
    let t = upload_target("application/pdf").unwrap();
    assert_eq!((t.extension, t.folder), ("pdf", "documents"));
    assert_eq!(
        upload_target("image/png"),
        Err(ApiError::BadRequest("Tipo de archivo no permitido. Solo se aceptan: JPEG, WebP y PDF".to_string()))
    );
    assert!(matches!(upload_target("text/html"), Err(ApiError::BadRequest(_))));
}

#[test]
fn upload_size_limit() {
    assert!(check_upload_size(MAX_UPLOAD_BYTES).is_ok());
    assert_eq!(
        check_upload_size(MAX_UPLOAD_BYTES + 1),
        Err(ApiError::BadRequest("Archivo muy grande (max 10MB)".to_string()))
    );
}

#[test]
fn upload_keys_are_random_and_shaped() {
    let a = new_upload_key("image/webp").unwrap();
    let b = new_upload_key("image/webp").unwrap();
    assert_ne!(a, b);
    assert!(a.starts_with("products/images/"));
    assert!(a.ends_with(".webp"));
    assert_eq!(a.len(), "products/images/".len() + 36 + ".webp".len());
    assert!(new_upload_key("application/zip").is_err());
}

#[test]
fn key_is_read_back_from_url() {
    let url = object_url("bucket", "products/images/x.jpg");
    assert_eq!(url, "https://bucket.s3.amazonaws.com/products/images/x.jpg");
    assert_eq!(key_from_url("bucket", &url).unwrap(), "products/images/x.jpg");
    assert_eq!(key_from_url("otro", &url), Err(ApiError::BadRequest("URL de S3 inválida".to_string())));
    let twice = "https://b.s3.amazonaws.com/k1/b.s3.amazonaws.com/k2";
    assert_eq!(key_from_url("b", twice).unwrap(), "k1/");
}
