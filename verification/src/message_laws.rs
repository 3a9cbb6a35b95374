//! What is said of each failure: the message gives the values that the failure is about, and a
//! failure that is passed on keeps its message.

use crate::commands::Refusal;
use crate::config::{LoadError, SaveError, ValidationError};
use crate::disk::DiskSpaceError;
use crate::network::{HandlerGone, NotConfigured, SessionError};
use crate::path;
use crate::setup::SetupError;
use crate::startup::StartError;
use crate::storage::{DeleteError, ExistsError, RetrieveError, StoreError};
use crate::text;
use crate::webrtc::{AnswerError, CandidateError, ChannelError};
use vstd::prelude::*;

verus! {

/// A chunk that does not fit is told with its size and with the room there was; one that could not
/// be written is told with its identifier and the reason.
pub proof fn store_failure_gives_its_values(e: StoreError, r: String)
    requires
        call_ensures(StoreError::message, (&e,), r),
    ensures
        match e {
            StoreError::IdLength => r@ == "Invalid chunk_id: empty or too long"@,
            StoreError::IdTraversal => r@ == "Invalid chunk_id: contains path traversal characters"@,
            StoreError::TooLarge { size } => r@ == "Chunk too large: "@ + text::decimal(size as nat) + " bytes"@,
            StoreError::LimitReached { size, used, max } => {
                let available = if used <= max {
                    (max - used) as nat
                } else {
                    0
                };
                r@ == "Insufficient configured storage space. Required: "@ + text::decimal(size as nat)
                    + ", Available within limit: "@ + text::decimal(available) + ". Current used: "@ + text::decimal(
                    used as nat,
                ) + "/"@ + text::decimal(max as nat)
            },
            StoreError::DiskFull { size, available } => r@ == "Insufficient disk space. Required: "@ + text::decimal(
                size as nat,
            ) + ", Available: "@ + text::decimal(available as nat),
            StoreError::DiskUnknown { error } => forall|told: String| #[trigger]
                call_ensures(DiskSpaceError::message, (&error,), told) ==> told@ == r@,
            StoreError::AlreadyExists { chunk_id } => r@ == "Chunk "@ + chunk_id@ + " already exists"@,
            StoreError::Finalize { reason } => r@ == "Failed to finalize chunk write: "@ + reason@,
            StoreError::Write { chunk_id, reason } => r@ == "Failed to write chunk "@ + chunk_id@ + " to disk: "@
                + reason@,
        },
{
}

/// A chunk that could not be read, deleted or found is told by its identifier or its file.
pub proof fn chunk_is_named(a: RetrieveError, b: DeleteError, c: ExistsError, x: String, y: String, z: String)
    requires
        call_ensures(RetrieveError::message, (&a,), x),
        call_ensures(DeleteError::message, (&b,), y),
        call_ensures(ExistsError::message, (&c,), z),
    ensures
        match a {
            RetrieveError::NotFound { chunk_id } => x@ == "Chunk "@ + chunk_id@ + " not found"@,
            RetrieveError::Read { chunk_id } => x@ == "Failed to read chunk "@ + chunk_id@ + " from disk"@,
        },
        match b {
            DeleteError::Metadata { chunk_id, reason } => y@ == "Error getting metadata for chunk "@ + chunk_id@
                + " to delete: "@ + reason@,
            DeleteError::Remove { chunk_path } => y@ == "Failed to delete chunk file: "@ + path::shown_path(
                chunk_path@,
            ),
        },
        z@ == "Error checking existence of chunk "@ + c.chunk_id@ + ": "@ + c.reason@,
{
}

/// The path whose free space is not known is told.
pub proof fn path_is_named(e: DiskSpaceError, r: String)
    requires
        call_ensures(DiskSpaceError::message, (&e,), r),
    ensures
        match e {
            DiskSpaceError::NotResolved { storage_path } => r@
                == "Failed to canonicalize storage path for disk space check: "@ + path::shown_path(storage_path@)
                + ". Ensure it exists."@,
            DiskSpaceError::NoDisk { storage_path } => r@
                == "Could not find a disk corresponding to the storage path: "@ + path::shown_path(storage_path@)
                + ". Please check path and mounts."@,
        },
{
}

/// The backend is told why a command was refused: the failure of the chunk in its own words, and
/// otherwise the identifier or the two sizes that it is about.
pub proof fn refusal_gives_its_values(e: Refusal, r: String)
    requires
        call_ensures(Refusal::message, (&e,), r),
    ensures
        match e {
            Refusal::NotAUuid => r@ == "Invalid chunk_id: not a valid UUID"@,
            Refusal::Collision { chunk_id } => r@ == "Chunk ID collision: "@ + chunk_id@ + " already exists"@,
            Refusal::SizeMismatch { expected, got } => r@ == "Binary data size mismatch: expected "@
                + text::decimal(expected as nat) + ", got "@ + text::decimal(got as nat),
            Refusal::NoData => r@ == "No binary data provided for STORE_CHUNK command"@,
            Refusal::Store(inner) => forall|told: String| #[trigger]
                call_ensures(StoreError::message, (&inner,), told) ==> told@ == r@,
            Refusal::Retrieve(inner) => forall|told: String| #[trigger]
                call_ensures(RetrieveError::message, (&inner,), told) ==> told@ == r@,
            Refusal::Delete(inner) => forall|told: String| #[trigger]
                call_ensures(DeleteError::message, (&inner,), told) ==> told@ == r@,
        },
{
}

/// A peer is told why its request failed: the failure of the chunk in its own words.
pub proof fn peer_is_told_why(e: ChannelError, r: String)
    requires
        call_ensures(ChannelError::message, (&e,), r),
    ensures
        match e {
            ChannelError::NoUpload { chunk_id } => r@ == "Cannot finalize: No upload session for chunk_id: "@
                + chunk_id@,
            ChannelError::Store(inner) => forall|told: String| #[trigger]
                call_ensures(StoreError::message, (&inner,), told) ==> told@ == r@,
            ChannelError::Retrieve(inner) => forall|told: String| #[trigger]
                call_ensures(RetrieveError::message, (&inner,), told) ==> told@ == r@,
            ChannelError::Delete(inner) => forall|told: String| #[trigger]
                call_ensures(DeleteError::message, (&inner,), told) ==> told@ == r@,
            ChannelError::Exists(inner) => forall|told: String| #[trigger]
                call_ensures(ExistsError::message, (&inner,), told) ==> told@ == r@,
            ChannelError::Send { reason } => r@ == reason@,
        },
{
}

/// The reasons of the connection to a peer are told as they are.
pub proof fn reason_is_told_as_it_is(a: AnswerError, b: CandidateError, x: String, y: String)
    requires
        call_ensures(AnswerError::message, (&a,), x),
        call_ensures(CandidateError::message, (&b,), y),
    ensures
        a matches AnswerError::Failed { reason } ==> x@ == reason@,
        a is NoLocalDescription ==> x@ == "Local description not available"@,
        b matches CandidateError::Unreadable { reason } ==> y@ == reason@,
        b matches CandidateError::Refused { reason } ==> y@ == reason@,
{
}

/// The rule that a configuration breaks is told, with the value that breaks it.
pub proof fn broken_rule_is_told(e: ValidationError, amount: &str, r: String)
    requires
        call_ensures(ValidationError::message, (&e, amount), r),
    ensures
        match e {
            ValidationError::PathNotAbsolute { storage_path } => r@
                == "storage_path must be an absolute path. Current: "@ + path::shown_path(storage_path@),
            ValidationError::ZeroStorage => r@ == "max_storage_gib must be greater than 0"@,
            ValidationError::TooMuchStorage { .. } => r@ == "max_storage_gib is too large: "@ + amount@
                + " GiB (maximum allowed: "@ + text::decimal(1048576) + " GiB)"@,
            ValidationError::PathTraversal => r@ == "storage_path contains invalid path traversal sequences"@,
            ValidationError::NodeIdTooLong => r@ == "node_id is too long (max 255 characters)"@,
            ValidationError::NodeIdCharacters => r@
                == "node_id contains invalid characters (only alphanumeric, hyphens, and underscores allowed)"@,
            ValidationError::AuthTokenTooLong => r@ == "auth_token is too long (max 1024 characters)"@,
        },
{
}

/// What went wrong with the configuration file is told; a broken rule in its own words.
pub proof fn configuration_failure_is_told(
    a: LoadError,
    amount: &str,
    b: SaveError,
    c: SetupError,
    x: String,
    y: String,
    z: String,
)
    requires
        call_ensures(LoadError::message, (&a, amount), x),
        call_ensures(SaveError::message, (&b,), y),
        call_ensures(SetupError::message, (&c,), z),
    ensures
        match a {
            LoadError::Missing => x@
                == "Configuration file does not exist. Please run the setup command to create it."@,
            LoadError::Read => x@ == "Failed to read config file"@,
            LoadError::Parse => x@ == "Failed to parse config file"@,
            LoadError::Invalid(inner) => forall|told: String| #[trigger]
                call_ensures(ValidationError::message, (&inner, amount), told) ==> told@ == x@,
        },
        match b {
            SaveError::CreateDirectory => y@ == "Failed to create config directory"@,
            SaveError::Serialize => y@ == "Failed to serialize config to TOML"@,
            SaveError::Write => y@ == "Failed to write config file"@,
        },
        match c {
            SetupError::NotPositive => z@ == "Maximum storage must be greater than 0"@,
            SetupError::NotANumber => z@ == "Invalid number format for maximum storage"@,
            SetupError::Save(_) => z@ == "Failed to save configuration"@,
        },
{
}

/// Why a node did not start is told.
pub proof fn failed_start_is_told(e: StartError, r: String)
    requires
        call_ensures(StartError::message, (&e,), r),
    ensures
        match e {
            StartError::CreateDirectory { storage_path } => r@ == "Failed to create storage directory: "@
                + path::shown_path(storage_path@),
            StartError::NotEnoughSpace { .. } => r@ == "Not enough disk space to meet configured max_storage_gib."@,
            StartError::SpaceUnknown { .. } => r@ == "Failed to verify available disk space."@,
            StartError::Scan => r@ == "Failed to initialize storage state"@,
        },
{
}

/// Why a connection ended is told, with the address, the answer or the reason that it is about.
pub proof fn failed_connection_gives_its_values(
    e: SessionError,
    gone: HandlerGone,
    unset: NotConfigured,
    r: String,
    x: String,
    y: String,
)
    requires
        call_ensures(SessionError::message, (&e,), r),
        call_ensures(HandlerGone::message, (&gone,), x),
        call_ensures(NotConfigured::message, (&unset,), y),
    ensures
        match e {
            SessionError::NoTls => r@ == "Failed to build native TLS connector"@,
            SessionError::Connect { ws_url } => r@ == "Failed to connect to WebSocket: "@ + ws_url@,
            SessionError::SendAuth => r@ == "Failed to send authentication message"@,
            SessionError::AuthNotJson => r@ == "Failed to parse auth response as JSON"@,
            SessionError::AuthFailed { reason } => r@ == "Authentication failed: "@ + reason@,
            SessionError::AuthUnexpected { reply } => r@ == "Unexpected auth response: "@ + reply@,
            SessionError::AuthOtherMessage { shown } => r@ == "Unexpected message during auth: "@ + shown@,
            SessionError::AuthClosed => r@ == "Connection closed by peer before auth response"@,
            SessionError::AuthTimedOut => r@ == "Timed out waiting for auth response"@,
            SessionError::Receive { reason } => r@ == reason@,
            SessionError::Send { reason } => r@ == reason@,
        },
        x@ == "Command handler channel is closed."@,
        y@ == "Node is not configured with an ID and auth token."@,
{
}

} // verus!
