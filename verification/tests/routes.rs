use general_api::routes::{
    cross_origin_policy, listen_address, CrossOriginPolicy, Endpoint, ListenAddress, Service,
    LISTEN_PORT,
};

#[test]
fn endpoint_paths() {
    assert_eq!(Endpoint::Hello.path(), "/api/hello");
    assert_eq!(Endpoint::Organizations.path(), "/api/organizations");
    assert_eq!(Endpoint::Notifications.path(), "/api/notifications");
}

#[test]
fn endpoint_paths_are_distinct() {
    let all = [Endpoint::Hello, Endpoint::Organizations, Endpoint::Notifications];
    for (i, a) in all.iter().enumerate() {
        for (j, b) in all.iter().enumerate() {
            assert_eq!(a.path() == b.path(), i == j);
        }
    }
}

#[test]
fn greeting_service_has_one_endpoint() {
    assert_eq!(Service::Greeting.endpoints(), vec![Endpoint::Hello]);
}

#[test]
fn feed_service_has_two_endpoints_in_order() {
    assert_eq!(
        Service::Feed.endpoints(),
        vec![Endpoint::Organizations, Endpoint::Notifications]
    );
}

#[test]
fn an_unknown_path_is_in_no_table() {
    for service in [Service::Greeting, Service::Feed] {
        for endpoint in service.endpoints() {
            assert_ne!(endpoint.path(), "/api/unknown");
            assert_ne!(endpoint.path(), "/");
            assert_ne!(endpoint.path(), "/api/hello/");
        }
    }
}

#[test]
fn every_endpoint_is_in_its_service_table_only() {
    for endpoint in [Endpoint::Hello, Endpoint::Organizations, Endpoint::Notifications] {
        for service in [Service::Greeting, Service::Feed] {
            let listed = service.endpoints().iter().filter(|e| **e == endpoint).count();
            assert_eq!(listed, if endpoint.service() == service { 1 } else { 0 });
        }
    }
}

#[test]
fn listens_on_every_interface_port_8000() {
    assert_eq!(LISTEN_PORT, 8000);
    assert_eq!(listen_address(), ListenAddress { a: 0, b: 0, c: 0, d: 0, port: 8000 });
}

#[test]
fn cross_origin_policy_allows_everything() {
    assert_eq!(
        cross_origin_policy(),
        CrossOriginPolicy { any_origin: true, any_method: true, any_header: true }
    );
}
