use speconn::context::SpeconnContext;
use speconn::context_key::{
    delete_value, get_request_id, get_user, get_value, request_id_key, set_request_id, set_user,
    set_value, user_id_key, user_key, ContextKey,
};
use speconn::str_map::StrMap;

fn client_ctx(timeout: Option<u32>) -> SpeconnContext {
    SpeconnContext::new(
        StrMap::new(),
        "/test".to_string(),
        Some("localhost:8001".to_string()),
        Some("client:123".to_string()),
        timeout,
    )
}

#[test]
fn test_context_fields() {
    let mut headers = StrMap::new();
    headers.insert("Authorization".to_string(), "Bearer token".to_string());
    headers.insert("X-Custom".to_string(), "value".to_string());
    headers.insert("CONTENT-TYPE".to_string(), "application/json".to_string());

    let ctx = SpeconnContext::new(
        headers,
        "/test.Service/Method".to_string(),
        Some("localhost:8001".to_string()),
        Some("192.168.1.100:54321".to_string()),
        Some(5000),
    );

    assert_eq!(ctx.method_name, "/test.Service/Method");
    assert_eq!(ctx.local_addr, Some("localhost:8001".to_string()));
    assert_eq!(ctx.remote_addr, Some("192.168.1.100:54321".to_string()));

    assert_eq!(ctx.headers.get("authorization"), Some(&"Bearer token".to_string()));
    assert_eq!(ctx.headers.get("x-custom"), Some(&"value".to_string()));
    assert_eq!(ctx.headers.get("content-type"), Some(&"application/json".to_string()));
}

#[test]
fn test_response_headers() {
    let mut ctx = client_ctx(None);

    ctx.set_response_header("X-Custom", "value1").unwrap();
    assert_eq!(ctx.response_headers.get("x-custom"), Some(&"value1".to_string()));

    ctx.set_response_header("X-Custom", "value2").unwrap();
    assert_eq!(ctx.response_headers.get("x-custom"), Some(&"value2".to_string()));

    ctx.add_response_header("X-Multi", "v1").unwrap();
    ctx.add_response_header("X-Multi", "v2").unwrap();
    assert_eq!(ctx.response_headers.get("x-multi"), Some(&"v1, v2".to_string()));

    ctx.mark_headers_sent();

    let result = ctx.set_response_header("X-Another", "value3");
    assert!(result.is_err());
    assert_eq!(result.unwrap_err(), "headers already sent".to_string());
}

#[test]
fn test_response_trailers() {
    let mut ctx = client_ctx(None);

    ctx.set_response_trailer("X-Total-Count", "100");
    ctx.set_response_trailer("X-Request-Id", "abc-123");

    assert_eq!(ctx.response_trailers.get("x-total-count"), Some(&"100".to_string()));
    assert_eq!(ctx.response_trailers.get("x-request-id"), Some(&"abc-123".to_string()));
}

#[test]
fn test_no_timeout() {
    let ctx = client_ctx(None);
    assert!(!ctx.is_cancelled());
}

#[test]
fn test_context_key_typed() {
    let mut ctx = client_ctx(None);

    let test_key = ContextKey::new("test".to_string(), "default".to_string());

    set_value(&mut ctx, &test_key, "value1".to_string());
    let value = get_value(&ctx, &test_key);
    assert_eq!(value, "value1".to_string());

    delete_value(&mut ctx, &test_key);
    let default_value = get_value(&ctx, &test_key);
    assert_eq!(default_value, "default".to_string());

    let int_key = ContextKey::new("int-test".to_string(), 0);
    set_value(&mut ctx, &int_key, 42);
    let int_value = get_value(&ctx, &int_key);
    assert_eq!(int_value, 42);
}

#[test]
fn test_predefined_keys() {
    let mut ctx = client_ctx(None);

    set_user(&mut ctx, "alice".to_string());
    let user = get_user(&ctx);
    assert_eq!(user, "alice".to_string());

    let user_key = user_key();
    let user2 = get_value(&ctx, &user_key);
    assert_eq!(user2, "alice".to_string());

    set_user(&mut ctx, "bob".to_string());
    let user3 = get_user(&ctx);
    assert_eq!(user3, "bob".to_string());
}

#[test]
fn test_headers_normalization() {
    let mut headers = StrMap::new();
    headers.insert("Authorization".to_string(), "Bearer token".to_string());
    headers.insert("CONTENT-TYPE".to_string(), "application/json".to_string());
    headers.insert("X-Custom-Header".to_string(), "value".to_string());

    let ctx = SpeconnContext::new(
        headers,
        "/test".to_string(),
        Some("localhost:8001".to_string()),
        Some("client:123".to_string()),
        None,
    );

    assert_eq!(ctx.headers.get("authorization"), Some(&"Bearer token".to_string()));
    assert_eq!(ctx.headers.get("content-type"), Some(&"application/json".to_string()));
    assert_eq!(ctx.headers.get("x-custom-header"), Some(&"value".to_string()));
}

#[test]
fn test_cleanup() {
    let mut ctx = client_ctx(Some(1000));

    ctx.cleanup();

    assert!(ctx.is_cancelled());
}

#[test]
fn context_deadline_follows_timeout() {
    assert_eq!(client_ctx(Some(1000)).deadline_ms(), Some(1000));
    assert_eq!(client_ctx(Some(0)).deadline_ms(), None);
    assert_eq!(client_ctx(None).deadline_ms(), None);
}

#[test]
fn add_header_refused_after_sent_leaves_headers() {
    let mut ctx = client_ctx(None);
    ctx.add_response_header("X-A", "1").unwrap();
    ctx.mark_headers_sent();
    assert!(ctx.headers_sent());
    assert_eq!(ctx.add_response_header("X-A", "2"), Err("headers already sent".to_string()));
    assert_eq!(ctx.response_headers.get("x-a"), Some(&"1".to_string()));
    assert_eq!(ctx.response_headers.len(), 1);
}

#[test]
fn later_header_with_same_lowercase_name_wins() {
    let mut headers = StrMap::new();
    headers.insert("X-Key".to_string(), "first".to_string());
    headers.insert("x-key".to_string(), "second".to_string());
    let ctx = SpeconnContext::new(headers, "/m".to_string(), None, None, None);
    assert_eq!(ctx.headers.get("x-key"), Some(&"second".to_string()));
    assert_eq!(ctx.headers.len(), 1);
}

#[test]
fn get_after_set_and_delete_on_context_keys() {
    let mut ctx = client_ctx(None);
    let id_key = user_id_key();
    assert_eq!(get_value(&ctx, &id_key), 0);
    set_value(&mut ctx, &id_key, 7i64);
    assert_eq!(get_value(&ctx, &id_key), 7);
    delete_value(&mut ctx, &id_key);
    assert_eq!(get_value(&ctx, &id_key), 0);
}

#[test]
fn value_of_other_type_reads_as_default() {
    let mut ctx = client_ctx(None);
    set_user(&mut ctx, "carol".to_string());
    let as_number = ContextKey::new("user".to_string(), -1i64);
    assert_eq!(get_value(&ctx, &as_number), -1);
    let flag = ContextKey::new("user-id".to_string(), false);
    set_value(&mut ctx, &ContextKey::new("user-id".to_string(), 0i64), 5i64);
    assert_eq!(get_value(&ctx, &flag), false);
    assert_eq!(get_user(&ctx), "carol".to_string());
}

#[test]
fn request_id_round_trip() {
    let mut ctx = client_ctx(None);
    assert_eq!(get_request_id(&ctx), "".to_string());
    set_request_id(&mut ctx, "req-9".to_string());
    assert_eq!(get_request_id(&ctx), "req-9".to_string());
    assert_eq!(get_value(&ctx, &request_id_key()), "req-9".to_string());
    let k = request_id_key();
    assert_eq!(k.id, "request-id");
    assert_eq!(k.default_value, "");
}
