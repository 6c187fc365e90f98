use rose_core::routes::handler_404;

#[test]
fn unmatched_route_is_404() {
    let reply = handler_404();
    assert_eq!(reply.status, 404);
    assert_eq!(reply.body, "nothing to see here");
}
