use ztwebui::error::{classify_entity_status, classify_status, ApiError, EntityKind};

#[test]
fn not_found_maps_to_entity_not_found() {
    let e = classify_entity_status(404, EntityKind::Network, "missing");
    assert_eq!(
        e,
        Some(ApiError::EntityNotFound(
            EntityKind::Network,
            "missing".to_string()
        ))
    );
}

#[test]
fn unauthorized_maps_to_unauthorized() {
    let e = classify_entity_status(401, EntityKind::Member, "m1");
    assert_eq!(e, Some(ApiError::Unauthorized));
    let e = classify_status(401);
    assert_eq!(e, Some(ApiError::Unauthorized));
}

#[test]
fn success_statuses_are_no_error() {
    assert_eq!(classify_entity_status(200, EntityKind::Peer, "p"), None);
    assert_eq!(classify_entity_status(299, EntityKind::Peer, "p"), None);
    assert_eq!(classify_status(204), None);
}

#[test]
fn other_statuses_are_upstream_errors() {
    let e = classify_entity_status(500, EntityKind::Network, "n1");
    assert_eq!(
        e,
        Some(ApiError::UpstreamError(
            "remote controller returned status 500".to_string()
        ))
    );
    let e = classify_status(404);
    assert_eq!(
        e,
        Some(ApiError::UpstreamError(
            "remote controller returned status 404".to_string()
        ))
    );
}

#[test]
fn http_status_mapping() {
    assert_eq!(ApiError::Unauthorized.http_status(), 401);
    assert_eq!(
        ApiError::EntityNotFound(EntityKind::Member, "m".to_string()).http_status(),
        404
    );
    assert_eq!(
        ApiError::UpstreamError("x".to_string()).http_status(),
        500
    );
    assert_eq!(ApiError::LocalIoError("x".to_string()).http_status(), 500);
}
