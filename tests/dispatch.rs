use lambda_http_local::{first_listen_addr, is_lambda, ListenAddrError, RUNTIME_API_VAR};

#[test]
fn unmanaged_local_build_serves_locally() {
    assert!(!is_lambda(false, true));
}

#[test]
fn runtime_variable_selects_lambda() {
    assert!(is_lambda(true, true));
}

#[test]
fn build_without_local_server_always_uses_lambda() {
    assert!(is_lambda(false, false));
    assert!(is_lambda(true, false));
}

#[test]
fn runtime_variable_name() {
    assert_eq!(RUNTIME_API_VAR, "AWS_LAMBDA_RUNTIME_API");
}

#[test]
fn first_resolved_address_wins() {
    let resolved = vec!["127.0.0.1:3000".to_string(), "[::1]:3000".to_string()];
    assert_eq!(first_listen_addr(Some(resolved)), Ok("127.0.0.1:3000".to_string()));
}

#[test]
fn single_resolved_address() {
    assert_eq!(first_listen_addr(Some(vec![8080u16])), Ok(8080u16));
}

#[test]
fn failed_resolution_is_fatal() {
    assert_eq!(first_listen_addr::<u16>(None), Err(ListenAddrError::ResolveFailed));
}

#[test]
fn empty_resolution_is_fatal() {
    assert_eq!(first_listen_addr::<u16>(Some(Vec::new())), Err(ListenAddrError::NoAddresses));
}

#[test]
fn error_messages() {
    assert_eq!(ListenAddrError::ResolveFailed.message(), "listen_addr.to_socket_addrs() failed");
    assert_eq!(
        ListenAddrError::NoAddresses.message(),
        "listen_addr.to_socket_addrs() resolved to no addresses"
    );
}
