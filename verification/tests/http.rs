use sdkwork_github::error::{
    map_service_error, ApiProblem, ServiceError, STATUS_BAD_GATEWAY, STATUS_BAD_REQUEST,
    STATUS_INTERNAL_SERVER_ERROR, STATUS_NOT_FOUND, STATUS_SERVICE_UNAVAILABLE, STATUS_UNAUTHORIZED,
};
use sdkwork_github::http::{
    label_color, normalize_page, oauth_callback_location, resolve_scope, resolve_scope_with_user,
    RequestPrincipal, REPOSITORIES, TRACKER_ROADMAP_ITEM_DETAIL,
};

#[test]
fn paging_defaults_and_bounds() {
    assert_eq!(normalize_page(None, None), (1, 20));
    assert_eq!(normalize_page(Some(0), Some(0)), (1, 1));
    assert_eq!(normalize_page(Some(5), Some(500)), (5, 100));
    assert_eq!(normalize_page(Some(2), Some(50)), (2, 50));
    let (p, s) = normalize_page(Some(0), Some(1000));
    assert_eq!(normalize_page(Some(p), Some(s)), (p, s));
}

fn principal(org: Option<&str>) -> RequestPrincipal {
    RequestPrincipal { tenant_id: "100001".into(), organization_id: org.map(|o| o.into()), user_id: "user-test".into() }
}

fn problem(r: Result<(String, String), ApiProblem>) -> (u16, String) {
    let p = r.unwrap_err();
    (p.status, p.detail)
}

#[test]
fn request_scope() {
    let caller = principal(Some("0"));
    assert_eq!(resolve_scope(Some(&caller), None, None).unwrap(), ("100001".to_owned(), "0".to_owned()));
    assert_eq!(resolve_scope(Some(&caller), Some("200"), Some("7")).unwrap(), ("200".to_owned(), "7".to_owned()));
    assert_eq!(resolve_scope(Some(&caller), Some("  "), Some("")).unwrap(), ("100001".to_owned(), "0".to_owned()));
    assert_eq!(problem(resolve_scope(None, Some("1"), Some("2"))), (STATUS_UNAUTHORIZED, "authenticated principal is required".to_owned()));
    let no_org = principal(None);
    assert_eq!(problem(resolve_scope(Some(&no_org), None, Some(" "))), (STATUS_BAD_REQUEST, "organization_id is required".to_owned()));
    assert_eq!(resolve_scope(Some(&no_org), None, Some("9")).unwrap().1, "9");
    let (t, o, u) = resolve_scope_with_user(Some(&caller), None, None).unwrap();
    assert_eq!((t.as_str(), o.as_str(), u.as_str()), ("100001", "0", "user-test"));
}

#[test]
fn service_errors_map_to_statuses() {
    let cases = [
        (ServiceError::Validation("v".into()), STATUS_BAD_REQUEST),
        (ServiceError::Configuration("c".into()), STATUS_SERVICE_UNAVAILABLE),
        (ServiceError::Integration("i".into()), STATUS_BAD_GATEWAY),
        (ServiceError::Repository("r".into()), STATUS_INTERNAL_SERVER_ERROR),
        (ServiceError::NotFound("n".into()), STATUS_NOT_FOUND),
    ];
    for (error, status) in cases {
        let message = match &error {
            ServiceError::Validation(m) | ServiceError::Configuration(m) | ServiceError::Integration(m) | ServiceError::Repository(m) | ServiceError::NotFound(m) => m.clone(),
        };
        let p = map_service_error(error);
        assert_eq!(p.status, status);
        assert_eq!(p.detail, message);
    }
}

#[test]
fn oauth_begin_requires_oauth_configuration() {
    let p = map_service_error(ServiceError::Configuration("SDKWORK_GITHUB_OAUTH_CLIENT_ID is not configured".into()));
    assert_eq!(p.status, 503);
}

#[test]
fn oauth_callback_redirects() {
    assert_eq!(oauth_callback_location(None, None), "http://127.0.0.1:5175/integration?linked=1");
    assert_eq!(oauth_callback_location(Some("https://app.example/i".into()), None), "https://app.example/i?linked=1");
    let error = ServiceError::Validation("oauth state is invalid or expired".into());
    assert_eq!(
        oauth_callback_location(None, Some(&error)),
        "http://127.0.0.1:5175/integration?linked=0&error=validation%20error%3A%20oauth%20state%20is%20invalid%20or%20expired"
    );
    let error = ServiceError::Integration("ü~-_.".into());
    assert_eq!(oauth_callback_location(Some("x".into()), Some(&error)), "x?linked=0&error=integration%20error%3A%20%C3%BC~-_.");
    assert_eq!(error.to_display_string(), "integration error: ü~-_.");
}

#[test]
fn paths_and_label_color() {
    assert_eq!(REPOSITORIES, "/app/v3/api/github/repositories");
    assert_eq!(TRACKER_ROADMAP_ITEM_DETAIL, "/app/v3/api/github/tracker/roadmaps/:roadmap_id/items/:item_id");
    assert_eq!(label_color(None), "6e7681");
    assert_eq!(label_color(Some("ff0000")), "ff0000");
}
