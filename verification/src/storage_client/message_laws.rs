//! What is said of each failure of this node: the message gives the values that the failure is
//! about, and a failure that is passed on keeps its message.

use crate::path;
use crate::storage_client::commands::{Failure, SendError};
use crate::storage_client::network::{RegistrationError, SessionError};
use crate::storage_client::storage::{DeleteError, RetrieveError, ScanError, StoreError};
use crate::text;
use vstd::prelude::*;

verus! {

/// A chunk that was not stored is told with its identifier, its file, or the sizes it is about.
pub proof fn store_failure_gives_its_values(e: StoreError, r: String)
    requires
        call_ensures(StoreError::message, (&e,), r),
    ensures
        match e {
            StoreError::AlreadyExists { chunk_id } => r@ == "Chunk "@ + chunk_id@
                + " already exists. Delete first to overwrite."@,
            StoreError::LimitReached { size, used, max } => {
                let available = if used <= max {
                    (max - used) as nat
                } else {
                    0
                };
                r@ == "Insufficient storage space. Required: "@ + text::decimal(size as nat) + ", Available: "@
                    + text::decimal(available) + ". Current usage: "@ + text::decimal(used as nat) + "/"@
                    + text::decimal(max as nat)
            },
            StoreError::NoParent { chunk_path } => r@
                == "Invalid chunk path, cannot determine parent directory: "@ + path::shown_path(chunk_path@),
            StoreError::CreateDirectory { directory } => r@ == "Failed to create directory for chunk: "@
                + path::shown_path(directory@),
            StoreError::CreateFile { chunk_path } => r@ == "Failed to create file for chunk: "@ + path::shown_path(
                chunk_path@,
            ),
            StoreError::Stream => r@ == "Error streaming chunk data from source"@,
            StoreError::Write { chunk_path } => r@ == "Failed to write data to chunk file: "@ + path::shown_path(
                chunk_path@,
            ),
            StoreError::Sync { chunk_path } => r@ == "Failed to sync chunk file: "@ + path::shown_path(chunk_path@),
            StoreError::SizeMismatch { chunk_id, expected, written } => r@ == "Size mismatch for chunk "@ + chunk_id@
                + ": Expected "@ + text::decimal(expected as nat) + ", wrote "@ + text::decimal(written as nat)
                + ". Chunk deleted."@,
            StoreError::RemoveMismatched { chunk_path } => r@ == "Failed to delete mismatched chunk file: "@
                + path::shown_path(chunk_path@),
        },
{
}

/// A chunk that could not be opened or deleted, and a directory that could not be scanned, is told.
pub proof fn chunk_is_named(a: RetrieveError, b: DeleteError, c: ScanError, x: String, y: String, z: String)
    requires
        call_ensures(RetrieveError::message, (&a,), x),
        call_ensures(DeleteError::message, (&b,), y),
        call_ensures(ScanError::message, (&c,), z),
    ensures
        match a {
            RetrieveError::NotFound { chunk_id, chunk_path } => x@ == "Chunk "@ + chunk_id@ + " not found at "@
                + path::shown_path(chunk_path@),
            RetrieveError::Open { chunk_id, chunk_path } => x@ == "Chunk "@ + chunk_id@
                + " not found or unreadable at "@ + path::shown_path(chunk_path@),
        },
        match b {
            DeleteError::Metadata { chunk_id, reason } => y@ == "Error deleting chunk "@ + chunk_id@ + ": "@
                + reason@,
            DeleteError::Remove { chunk_path } => y@ == "Failed to delete chunk file: "@ + path::shown_path(
                chunk_path@,
            ),
        },
        match c {
            ScanError::Create { storage_path } => z@ == "Failed to create base storage directory: "@
                + path::shown_path(storage_path@),
            ScanError::Read { storage_path } => z@ == "Failed to read base storage directory: "@ + path::shown_path(
                storage_path@,
            ),
            ScanError::ReadSubdirectory { directory } => z@ == "Failed to read subdirectory: "@ + path::shown_path(
                directory@,
            ),
        },
{
}

/// The backend is told why a command failed: the failure of the chunk in its own words.
pub proof fn failed_command_gives_its_values(e: Failure, sent: SendError, r: String, x: String)
    requires
        call_ensures(Failure::message, (&e,), r),
        call_ensures(SendError::message, (&sent,), x),
    ensures
        match e {
            Failure::DownloadStatus { status } => r@ == "Download failed with status: "@ + status.shown@,
            Failure::DownloadRequest { reason } => r@ == "Download request failed: "@ + reason@,
            Failure::Store(inner) => forall|told: String| #[trigger]
                call_ensures(StoreError::message, (&inner,), told) ==> told@ == r@,
            Failure::Retrieve(inner) => forall|told: String| #[trigger]
                call_ensures(RetrieveError::message, (&inner,), told) ==> told@ == r@,
            Failure::Read { reason } => r@ == "Failed to read chunk: "@ + reason@,
            Failure::UploadRequest { reason } => r@ == "Upload failed: "@ + reason@,
            Failure::UploadStatus { status } => r@ == "Upload failed with status: "@ + status.shown@,
            Failure::Delete(inner) => forall|told: String| #[trigger]
                call_ensures(DeleteError::message, (&inner,), told) ==> told@ == r@,
            Failure::NotFound { chunk_id } => r@ == "Chunk "@ + chunk_id@ + " not found"@,
        },
        sent is CommandResult ==> x@ == "Failed to send command result"@,
        sent is StatusReport ==> x@ == "Failed to send status report"@,
{
}

/// Why a connection or a registration failed is told, with what it is about.
pub proof fn failed_connection_gives_its_values(e: SessionError, refused: RegistrationError, r: String, x: String)
    requires
        call_ensures(SessionError::message, (&e,), r),
        call_ensures(RegistrationError::message, (&refused,), x),
    ensures
        match e {
            SessionError::Connect { backend_ws_url } => r@ == "Failed to connect to backend WebSocket: "@
                + backend_ws_url@,
            SessionError::SendAuth => r@ == "Failed to send authentication message"@,
            SessionError::AuthNotJson => r@ == "Failed to parse auth response JSON"@,
            SessionError::AuthFailed { shown } => r@ == "Authentication failed: "@ + shown@,
            SessionError::AuthOtherMessage { shown } => r@ == "Unexpected message type during auth: "@ + shown@,
            SessionError::AuthReceive => r@ == "Error waiting for auth response"@,
            SessionError::AuthClosed => r@ == "Connection closed by peer before auth response"@,
            SessionError::AuthTimedOut => r@ == "Timed out waiting for auth response after "@ + text::decimal(10)
                + " seconds"@,
            SessionError::Receive { reason } => r@ == reason@,
            SessionError::Send { reason } => r@ == reason@,
        },
        match refused {
            RegistrationError::Send => x@ == "Failed to send registration request to backend"@,
            RegistrationError::Refused { status } => x@ == "Registration failed with status: "@ + status.shown@,
            RegistrationError::Parse => x@ == "Failed to parse registration response JSON"@,
            RegistrationError::Save => x@ == "Failed to save updated config after registration"@,
        },
{
}

} // verus!
