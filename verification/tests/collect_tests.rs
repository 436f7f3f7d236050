use ztwebui::collect::collect_all;
use ztwebui::error::ApiError;

#[test]
fn all_ok_collects_in_order() {
    let results: Vec<Result<u32, ApiError>> = vec![Ok(1), Ok(2), Ok(3)];
    assert_eq!(collect_all(results), Ok(vec![1, 2, 3]));
}

#[test]
fn empty_collects_to_empty() {
    let results: Vec<Result<u32, ApiError>> = vec![];
    assert_eq!(collect_all(results), Ok(vec![]));
}

#[test]
fn one_failure_fails_the_whole_collection() {
    let results: Vec<Result<&str, ApiError>> = vec![
        Ok("A"),
        Err(ApiError::UpstreamError("boom".to_string())),
        Ok("C"),
    ];
    assert_eq!(
        collect_all(results),
        Err(ApiError::UpstreamError("boom".to_string()))
    );
}

#[test]
fn first_error_in_order_wins() {
    let results: Vec<Result<u8, ApiError>> = vec![
        Ok(0),
        Err(ApiError::Unauthorized),
        Err(ApiError::UpstreamError("later".to_string())),
    ];
    assert_eq!(collect_all(results), Err(ApiError::Unauthorized));
}
