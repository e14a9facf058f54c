use vss_ffi::{convert_error, KeyValue, KeyVersion, RemoteError, RemoteErrorKind, VssError, VssItem};

#[test]
fn test_error_types() {
    let connection_err = VssError::ConnectionError {
        error_details: "Test connection error".to_string(),
    };
    let store_err = VssError::StoreError {
        error_details: "Test store error".to_string(),
    };
    let get_err = VssError::GetError {
        error_details: "Test get error".to_string(),
    };

    assert!(connection_err.message().contains("Test connection error"));
    assert!(store_err.message().contains("Test store error"));
    assert!(get_err.message().contains("Test get error"));
}

#[test]
fn test_types_creation() {
    let item = VssItem {
        key: "test-key".to_string(),
        value: vec![1, 2, 3, 4],
        version: 1,
    };
    assert_eq!(item.key, "test-key");
    assert_eq!(item.value, vec![1, 2, 3, 4]);
    assert_eq!(item.version, 1);

    let kv = KeyValue {
        key: "kv-key".to_string(),
        value: vec![5, 6, 7, 8],
    };
    assert_eq!(kv.key, "kv-key");
    assert_eq!(kv.value, vec![5, 6, 7, 8]);

    let key_version = KeyVersion {
        key: "version-key".to_string(),
        version: 42,
    };
    assert_eq!(key_version.key, "version-key");
    assert_eq!(key_version.version, 42);
}

#[test]
fn error_messages_carry_heading_and_details() {
    let cases = vec![
        (VssError::ConnectionError { error_details: "x".to_string() }, "Connection error: x"),
        (VssError::AuthError { error_details: "x".to_string() }, "Authentication error: x"),
        (VssError::StoreError { error_details: "x".to_string() }, "Store error: x"),
        (VssError::GetError { error_details: "x".to_string() }, "Get error: x"),
        (VssError::ListError { error_details: "x".to_string() }, "List error: x"),
        (VssError::PutError { error_details: "x".to_string() }, "Put error: x"),
        (VssError::DeleteError { error_details: "x".to_string() }, "Delete error: x"),
        (VssError::InvalidData { error_details: "x".to_string() }, "Invalid data: x"),
        (VssError::NetworkError { error_details: "x".to_string() }, "Network error: x"),
        (VssError::UnknownError { error_details: "x".to_string() }, "Unknown error: x"),
    ];
    for (err, expected) in cases {
        assert_eq!(err.message(), expected);
    }
}

#[test]
fn remote_errors_map_one_to_one() {
    match convert_error(RemoteError::NoSuchKey("k".to_string())) {
        VssError::GetError { error_details } => assert_eq!(error_details, "Not found: k"),
        _ => panic!("no such key must map to a read error"),
    }
    match convert_error(RemoteError::InternalServer("down".to_string())) {
        VssError::NetworkError { error_details } => assert_eq!(error_details, "down"),
        _ => panic!("server errors must map to network errors"),
    }
    match convert_error(RemoteError::InvalidRequest("bad".to_string())) {
        VssError::InvalidData { error_details } => assert_eq!(error_details, "bad"),
        _ => panic!("malformed requests must map to invalid data"),
    }
    match convert_error(RemoteError::Internal("odd".to_string())) {
        VssError::UnknownError { error_details } => assert_eq!(error_details, "odd"),
        _ => panic!("internal errors must map to unknown errors"),
    }
    match convert_error(RemoteError::Conflict("v".to_string())) {
        VssError::StoreError { error_details } => assert_eq!(error_details, "Conflict: v"),
        _ => panic!("conflicts must map to store errors"),
    }
    match convert_error(RemoteError::Auth("no".to_string())) {
        VssError::AuthError { error_details } => assert_eq!(error_details, "no"),
        _ => panic!("auth failures must map to auth errors"),
    }
}

#[test]
fn remote_error_kinds() {
    assert_eq!(RemoteError::NoSuchKey(String::new()).kind(), RemoteErrorKind::NoSuchKey);
    assert_eq!(RemoteError::Conflict(String::new()).kind(), RemoteErrorKind::Conflict);
    assert_eq!(RemoteError::InternalServer(String::new()).kind(), RemoteErrorKind::InternalServer);
    assert_eq!(RemoteError::Internal(String::new()).kind(), RemoteErrorKind::Internal);
    assert_eq!(RemoteError::Auth(String::new()).kind(), RemoteErrorKind::Auth);
    assert_eq!(RemoteError::InvalidRequest(String::new()).kind(), RemoteErrorKind::InvalidRequest);
}
