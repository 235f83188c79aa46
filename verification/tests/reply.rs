use redirector::reply::{Reply, Status};

#[test]
fn status_codes() {
    assert_eq!(Status::Success.code(), 200);
    assert_eq!(Status::BadRequest.code(), 400);
    assert_eq!(Status::Unauthorized.code(), 401);
    assert_eq!(Status::NotFound.code(), 404);
    assert_eq!(Status::BadGateway.code(), 502);
}

#[test]
fn plain_reply_has_no_headers_and_the_text_as_body() {
    let reply = Reply::plain(Status::NotFound, "gone \u{2014} sorry");
    assert_eq!(reply.status, Status::NotFound);
    assert!(reply.headers.is_empty());
    assert_eq!(reply.body, "gone \u{2014} sorry".as_bytes().to_vec());
}

#[test]
fn fixed_replies() {
    assert_eq!(Reply::not_found(), Reply::plain(Status::NotFound, "Not Found"));
    assert_eq!(Reply::no_url(), Reply::plain(Status::NotFound, "No URL has been set"));
    assert_eq!(Reply::unreadable_body(), Reply::plain(Status::BadRequest, "Failed to read request body"));
    assert_eq!(Reply::invalid_body(), Reply::plain(Status::BadRequest, "Request body is not valid UTF-8"));
    assert_eq!(Reply::updated(), Reply::plain(Status::Success, "URL updated successfully"));
}

#[test]
fn unauthorized_reply_carries_the_challenge() {
    let reply = Reply::unauthorized();
    assert_eq!(reply.status, Status::Unauthorized);
    assert_eq!(reply.headers, vec![("www-authenticate".to_string(), "Bearer".to_string())]);
    assert_eq!(reply.body, b"Unauthorized: Valid password required to update URL".to_vec());
}

#[test]
fn bad_gateway_reply_embeds_the_cause() {
    let reply = Reply::bad_gateway("connection refused");
    assert_eq!(reply.status, Status::BadGateway);
    assert!(reply.headers.is_empty());
    assert_eq!(reply.body, b"Error proxying request: connection refused".to_vec());
}

#[test]
fn content_reply_sets_type_and_disables_caching() {
    let reply = Reply::content(vec![1, 2, 3]);
    assert_eq!(reply.status, Status::Success);
    assert_eq!(reply.headers.len(), 4);
    assert_eq!(reply.headers[0], ("content-type".to_string(), "image/svg+xml".to_string()));
    assert_eq!(reply.headers[1], ("cache-control".to_string(), "no-cache, no-store, must-revalidate".to_string()));
    assert_eq!(reply.headers[2], ("pragma".to_string(), "no-cache".to_string()));
    assert_eq!(reply.headers[3], ("expires".to_string(), "0".to_string()));
    assert_eq!(reply.body, vec![1, 2, 3]);
}
