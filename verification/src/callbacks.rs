//! The notifications the library hands to the frontend.
use vstd::prelude::*;

use crate::session::{tego_file_transfer_id, tego_message_id, SessionHandle, UserHandle, UserType};

verus! {

#[derive(Debug, Clone, Copy, PartialEq, Eq, Structural)]
pub enum UserStatus {
    Unset,
    Online,
    Offline,
}

#[derive(Debug, Clone, Copy, PartialEq, Eq, Structural)]
pub enum FileTransferDirection {
    Sending,
    Receiving,
}

#[derive(Debug, Clone, Copy, PartialEq, Eq, Structural)]
pub enum FileTransferResponse {
    Accept,
    Reject,
}

#[derive(Debug, Clone, Copy, PartialEq, Eq, Structural)]
pub enum FileTransferResult {
    Success,
    Failure,
    Cancelled,
    Rejected,
    BadHash,
    NetworkError,
    FilesystemError,
}

/// The kind of tor provider a session was started with.
#[derive(Debug, Clone, Copy, PartialEq, Eq, Structural)]
pub enum TorConfigType {
    BundledTor,
}

#[derive(Debug)]
pub enum CallbackData {
    TorProviderInitialized { tor_config_type: TorConfigType, version: Option<String> },
    TorBootstrapStatusChanged { progress: u32, tag: String },
    TorBootstrapComplete,
    TorLogReceived { line: String },
    SessionBegan { session_handle: SessionHandle, users: Vec<(UserHandle, UserType, String)> },
    UserAdded { session_handle: SessionHandle, user_handle: UserHandle, user_type: UserType },
    UserRemoved { session_handle: SessionHandle, user_handle: UserHandle },
    UserStatusChanged { session_handle: SessionHandle, user_handle: UserHandle, status: UserStatus },
    ChatRequestReceived { session_handle: SessionHandle, user_handle: UserHandle, message: String },
    ChatRequestResponseReceived { session_handle: SessionHandle, user_handle: UserHandle, accepted_request: bool },
    MessageReceived {
        session_handle: SessionHandle,
        user_handle: UserHandle,
        /// milliseconds since 1970-01-01T00:00:00 utc
        timestamp: u64,
        message_id: tego_message_id,
        message: String,
    },
    MessageAcknowledged { session_handle: SessionHandle, user_handle: UserHandle, message_id: tego_message_id, accepted: bool },
    FileTransferRequestReceived {
        session_handle: SessionHandle,
        user_handle: UserHandle,
        file_transfer_id: tego_file_transfer_id,
        file_name: String,
        file_size: u64,
    },
    FileTransferRequestAcknowledged {
        session_handle: SessionHandle,
        user_handle: UserHandle,
        file_transfer_id: tego_file_transfer_id,
        accepted: bool,
    },
    FileTransferRequestResponseReceived {
        session_handle: SessionHandle,
        user_handle: UserHandle,
        file_transfer_id: tego_file_transfer_id,
        response: FileTransferResponse,
    },
    FileTransferProgress {
        session_handle: SessionHandle,
        user_handle: UserHandle,
        file_transfer_id: tego_file_transfer_id,
        direction: FileTransferDirection,
        bytes_complete: u64,
        bytes_total: u64,
    },
    FileTransferComplete {
        session_handle: SessionHandle,
        user_handle: UserHandle,
        file_transfer_id: tego_file_transfer_id,
        direction: FileTransferDirection,
        result: FileTransferResult,
    },
}

/// The value the C interface gives a user type.
pub fn user_type_code(user_type: UserType) -> (c: i32)
    ensures
        c == match user_type {
            UserType::Owner => 0i32,
            UserType::Allowed => 1i32,
            UserType::Requesting => 2i32,
            UserType::Blocked => 3i32,
            UserType::Pending => 4i32,
            UserType::Rejected => 5i32,
        },
{
    match user_type {
        UserType::Owner => 0,
        UserType::Allowed => 1,
        UserType::Requesting => 2,
        UserType::Blocked => 3,
        UserType::Pending => 4,
        UserType::Rejected => 5,
    }
}

/// The value the C interface gives a user status.
pub fn user_status_code(status: UserStatus) -> (c: i32)
    ensures
        c == match status {
            UserStatus::Unset => 0i32,
            UserStatus::Online => 1i32,
            UserStatus::Offline => 2i32,
        },
{
    match status {
        UserStatus::Unset => 0,
        UserStatus::Online => 1,
        UserStatus::Offline => 2,
    }
}

/// The value the C interface gives a file transfer direction.
pub fn direction_code(direction: FileTransferDirection) -> (c: i32)
    ensures
        c == match direction {
            FileTransferDirection::Sending => 0i32,
            FileTransferDirection::Receiving => 1i32,
        },
{
    match direction {
        FileTransferDirection::Sending => 0,
        FileTransferDirection::Receiving => 1,
    }
}

/// The value the C interface gives a file transfer result.
pub fn transfer_result_code(result: FileTransferResult) -> (c: i32)
    ensures
        c == match result {
            FileTransferResult::Success => 0i32,
            FileTransferResult::Failure => 1i32,
            FileTransferResult::Cancelled => 2i32,
            FileTransferResult::Rejected => 3i32,
            FileTransferResult::BadHash => 4i32,
            FileTransferResult::NetworkError => 5i32,
            FileTransferResult::FilesystemError => 6i32,
        },
{
    match result {
        FileTransferResult::Success => 0,
        FileTransferResult::Failure => 1,
        FileTransferResult::Cancelled => 2,
        FileTransferResult::Rejected => 3,
        FileTransferResult::BadHash => 4,
        FileTransferResult::NetworkError => 5,
        FileTransferResult::FilesystemError => 6,
    }
}

/// The value the C interface gives a response to a file transfer request.
pub fn response_code(response: FileTransferResponse) -> (c: i32)
    ensures
        c == match response {
            FileTransferResponse::Accept => 0i32,
            FileTransferResponse::Reject => 1i32,
        },
{
    match response {
        FileTransferResponse::Accept => 0,
        FileTransferResponse::Reject => 1,
    }
}

/// The value the C interface gives a kind of tor configuration.
pub fn tor_config_type_code(tor_config_type: TorConfigType) -> (c: i32)
    ensures
        c == 0i32,
{
    match tor_config_type {
        TorConfigType::BundledTor => 0,
    }
}

} // verus!
