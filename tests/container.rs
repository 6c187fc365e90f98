use rose_core::error::RoseError;
use rose_core::routes::container::{
    containers, ApiContainerSummary, ContainerState, ContainerSummary, ContainersListResponse,
};

fn full_record(names: Option<Vec<String>>) -> ContainerSummary {
    ContainerSummary {
        id: Some(String::from("abc123")),
        names,
        image: Some(String::from("nginx:latest")),
        state: Some(ContainerState::Running),
        status: Some(String::from("Up 5 minutes")),
        created: Some(1700000000),
    }
}

#[test]
fn name_loses_leading_separator() {
    let api = ApiContainerSummary::from(full_record(Some(vec![String::from("/web-1")])));
    assert_eq!(api.name, "web-1");
}

#[test]
fn name_without_separator_is_kept() {
    let api = ApiContainerSummary::from(full_record(Some(vec![String::from("web-1")])));
    assert_eq!(api.name, "web-1");
}

#[test]
fn empty_or_absent_names_give_unknown() {
    assert_eq!(ApiContainerSummary::from(full_record(Some(vec![]))).name, "unknown");
    assert_eq!(ApiContainerSummary::from(full_record(None)).name, "unknown");
}

#[test]
fn only_one_separator_is_stripped_and_first_name_wins() {
    let names = vec![String::from("//web-1"), String::from("/other")];
    assert_eq!(ApiContainerSummary::from(full_record(Some(names))).name, "/web-1");
    assert_eq!(ApiContainerSummary::from(full_record(Some(vec![String::from("/")]))).name, "");
}

#[test]
fn missing_created_alone_defaults_to_zero() {
    let mut record = full_record(Some(vec![String::from("/web-1")]));
    record.created = None;
    let api = ApiContainerSummary::from(record);
    assert_eq!(api.created, 0);
    assert_eq!(api.id, "abc123");
    assert_eq!(api.name, "web-1");
    assert_eq!(api.image, "nginx:latest");
    assert_eq!(api.state, ContainerState::Running);
    assert_eq!(api.status, "Up 5 minutes");
}

#[test]
fn all_fields_missing_take_defaults() {
    let record = ContainerSummary {
        id: None,
        names: None,
        image: None,
        state: None,
        status: None,
        created: None,
    };
    let api = ApiContainerSummary::from(record);
    assert_eq!(api.id, "");
    assert_eq!(api.name, "unknown");
    assert_eq!(api.image, "");
    assert_eq!(api.state, ContainerState::Empty);
    assert_eq!(api.status, "");
    assert_eq!(api.created, 0);
}

#[test]
fn listing_keeps_daemon_order_and_counts() {
    let daemon = vec![
        full_record(Some(vec![String::from("/b")])),
        full_record(Some(vec![String::from("/a")])),
        full_record(Some(vec![String::from("/b")])),
    ];
    let listing = match containers(Ok(daemon)) {
        Ok(l) => l,
        Err(_) => panic!("listing failed"),
    };
    assert_eq!(listing.count, 3);
    assert_eq!(listing.items.len(), 3);
    let names: Vec<&str> = listing.items.iter().map(|i| i.name.as_str()).collect();
    assert_eq!(names, vec!["b", "a", "b"]);
}

#[test]
fn empty_listing_has_count_zero() {
    let listing = match containers(Ok(vec![])) {
        Ok(l) => l,
        Err(_) => panic!("listing failed"),
    };
    assert_eq!(listing.count, 0);
    assert!(listing.items.is_empty());
    let direct = ContainersListResponse::new(vec![]);
    assert_eq!(direct.count, 0);
}

#[test]
fn listing_failure_gives_503_and_no_items() {
    let err = bollard::errors::Error::IOError {
        err: std::io::Error::other("daemon gone"),
    };
    let outcome = containers(Err(err));
    match outcome {
        Ok(_) => panic!("a failed listing must not give items"),
        Err(e) => {
            assert!(matches!(e, RoseError::Docker(_)));
            let reply = e.into_response();
            assert_eq!(reply.status, 503);
            assert_eq!(reply.body, "{\"error\":\"Docker unavailable\"}");
        }
    }
}
