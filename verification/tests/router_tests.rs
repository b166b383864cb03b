use codex_config::router::{route_read, route_write, ExecutionMode, FileAddress, FileOperation};

fn address() -> FileAddress {
    FileAddress {
        scope: "workspace".to_string(),
        kind: "agents".to_string(),
        workspace_id: Some("ws-1".to_string()),
    }
}

fn operation_parts(op: FileOperation) -> (String, String, Option<String>, Option<String>, Option<String>) {
    match op {
        FileOperation::LocalRead { address } => {
            (address.scope, address.kind, address.workspace_id, None, None)
        }
        FileOperation::LocalWrite { address, content } => {
            (address.scope, address.kind, address.workspace_id, Some(content), None)
        }
        FileOperation::RemoteCall { operation, address, content } => {
            (address.scope, address.kind, address.workspace_id, content, Some(operation))
        }
    }
}

#[test]
fn local_and_remote_reads_carry_the_same_address() {
    let local = operation_parts(route_read(&ExecutionMode::Local, address()));
    let remote = operation_parts(route_read(&ExecutionMode::Remote, address()));
    assert_eq!(local.0, remote.0);
    assert_eq!(local.1, remote.1);
    assert_eq!(local.2, remote.2);
    assert_eq!(local.3, None);
    assert_eq!(remote.3, None);
    assert_eq!(local.4, None);
    assert_eq!(remote.4, Some("file_read".to_string()));
}

#[test]
fn local_and_remote_writes_carry_the_same_address_and_content() {
    let content = "hello".to_string();
    let local = operation_parts(route_write(&ExecutionMode::Local, address(), content.clone()));
    let remote = operation_parts(route_write(&ExecutionMode::Remote, address(), content.clone()));
    assert_eq!(local.0, remote.0);
    assert_eq!(local.1, remote.1);
    assert_eq!(local.2, remote.2);
    assert_eq!(local.3, Some(content.clone()));
    assert_eq!(remote.3, Some(content));
    assert_eq!(local.4, None);
    assert_eq!(remote.4, Some("file_write".to_string()));
}

#[test]
fn read_routes_by_mode() {
    assert!(matches!(
        route_read(&ExecutionMode::Local, address()),
        FileOperation::LocalRead { .. }
    ));
    assert!(matches!(
        route_read(&ExecutionMode::Remote, address()),
        FileOperation::RemoteCall { .. }
    ));
    assert!(matches!(
        route_write(&ExecutionMode::Local, address(), String::new()),
        FileOperation::LocalWrite { .. }
    ));
    assert!(matches!(
        route_write(&ExecutionMode::Remote, address(), String::new()),
        FileOperation::RemoteCall { .. }
    ));
}
