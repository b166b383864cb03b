//! File operation router: local-vs-remote dispatch of logical file
//! operations.
//!
//! A logical address — scope, kind, optional workspace id — identifies a
//! text resource independently of where it is stored. The router does not
//! interpret the address: it only decides, from the execution mode, whether
//! the operation is served by the local file core or forwarded to the remote
//! backend under a fixed operation name, and it transports the address
//! unchanged either way.

use vstd::prelude::*;

verus! {

/// The execution mode of the current session, queried once per call.
pub enum ExecutionMode {
    Local,
    Remote,
}

/// A logical file address: scope, kind, and optional workspace id.
pub struct FileAddress {
    pub scope: String,
    pub kind: String,
    pub workspace_id: Option<String>,
}

/// The mathematical content of an address.
pub open spec fn address_model(a: FileAddress) -> (Seq<char>, Seq<char>, Option<Seq<char>>) {
    (
        a.scope@,
        a.kind@,
        match a.workspace_id {
            Some(w) => Some(w@),
            None => None::<Seq<char>>,
        },
    )
}

/// The one dispatch decision the router makes for an operation.
pub enum FileOperation {
    LocalRead { address: FileAddress },
    LocalWrite { address: FileAddress, content: String },
    RemoteCall { operation: String, address: FileAddress, content: Option<String> },
}

/// The address an operation carries to its backend.
pub open spec fn operation_address(op: FileOperation) -> (Seq<char>, Seq<char>, Option<Seq<char>>) {
    match op {
        FileOperation::LocalRead { address } => address_model(address),
        FileOperation::LocalWrite { address, content } => address_model(address),
        FileOperation::RemoteCall { operation, address, content } => address_model(address),
    }
}

/// The content an operation carries to its backend, if any.
pub open spec fn operation_content(op: FileOperation) -> Option<Seq<char>> {
    match op {
        FileOperation::LocalRead { address } => None,
        FileOperation::LocalWrite { address, content } => Some(content@),
        FileOperation::RemoteCall { operation, address, content } => match content {
            Some(c) => Some(c@),
            None => None,
        },
    }
}

/// Dispatches a read. Law: whatever the mode, the operation carries the
/// caller's address unchanged, so local and remote calls are
/// indistinguishable to the caller but for the backend that serves them.
pub fn route_read(mode: &ExecutionMode, address: FileAddress) -> (r: FileOperation)
    ensures
        operation_address(r) == address_model(address),
        operation_content(r) is None,
        *mode is Local ==> r matches FileOperation::LocalRead { address: a },
        *mode is Remote ==> (r matches FileOperation::RemoteCall { operation, address: a, content }
            && operation@ == "file_read"@ && content is None),
{
    match mode {
        ExecutionMode::Local => FileOperation::LocalRead { address },
        ExecutionMode::Remote => FileOperation::RemoteCall {
            operation: String::from_str("file_read"),
            address,
            content: None,
        },
    }
}

/// Dispatches a write. Law: whatever the mode, the operation carries the
/// caller's address and content unchanged.
pub fn route_write(mode: &ExecutionMode, address: FileAddress, content: String) -> (r:
    FileOperation)
    ensures
        operation_address(r) == address_model(address),
        operation_content(r) == Some(content@),
        *mode is Local ==> r matches FileOperation::LocalWrite { address: a, content: c },
        *mode is Remote ==> (r matches FileOperation::RemoteCall {
            operation,
            address: a,
            content: c,
        } && operation@ == "file_write"@),
{
    match mode {
        ExecutionMode::Local => FileOperation::LocalWrite { address, content },
        ExecutionMode::Remote => FileOperation::RemoteCall {
            operation: String::from_str("file_write"),
            address,
            content: Some(content),
        },
    }
}

} // verus!
