use sprintly::api_error::ApiError;
use sprintly::response::ApiResponse;

fn status_and_body(e: ApiError) -> (u16, bool, u16, String) {
    let code = e.status_code();
    let b = e.into_response_body();
    (code, b.success, b.status_code, b.message)
}

#[test]
fn error_statuses() {
    assert_eq!(status_and_body(ApiError::Unauthorized("u".into())), (401, false, 401, "u".to_string()));
    assert_eq!(status_and_body(ApiError::NotFound("n".into())), (404, false, 404, "n".to_string()));
    assert_eq!(status_and_body(ApiError::BadRequest("b".into())), (400, false, 400, "b".to_string()));
    assert_eq!(
        status_and_body(ApiError::InternalServerError("i".into())),
        (500, false, 500, "i".to_string())
    );
    assert_eq!(status_and_body(ApiError::Conflict("c".into())), (409, false, 409, "c".to_string()));
    assert_eq!(status_and_body(ApiError::Forbidden("f".into())), (403, false, 403, "f".to_string()));
}

#[test]
fn response_new_keeps_fields() {
    let r = ApiResponse::new(false, 409, "User is already registered".to_string(), None::<u8>);
    assert!(!r.success);
    assert_eq!(r.status_code, 409);
    assert_eq!(r.message, "User is already registered");
    assert_eq!(r.data, None);
}

#[test]
fn response_sent_status_and_body() {
    let (status, body) = ApiResponse::new(false, 201, "Created".to_string(), Some(5u32)).into_response_parts();
    assert_eq!(status, 201);
    assert!(body.success);
    assert_eq!(body.status_code, 201);
    assert_eq!(body.message, "Created");
    assert_eq!(body.data, Some(5));

    let (status, body) = ApiResponse::new(true, 42, "odd".to_string(), None::<u32>).into_response_parts();
    assert_eq!(status, 200);
    assert_eq!(body.status_code, 200);

    let (status, _) = ApiResponse::new(true, 999, "m".to_string(), None::<u32>).into_response_parts();
    assert_eq!(status, 999);
    let (status, _) = ApiResponse::new(true, 1000, "m".to_string(), None::<u32>).into_response_parts();
    assert_eq!(status, 200);
    let (status, _) = ApiResponse::new(true, 100, "m".to_string(), None::<u32>).into_response_parts();
    assert_eq!(status, 100);
    let (status, _) = ApiResponse::new(true, 99, "m".to_string(), None::<u32>).into_response_parts();
    assert_eq!(status, 200);
}
