//! The start of a node: what must hold before it connects.

use crate::disk::DiskSpaceError;
use crate::path;
use crate::storage::StorageState;
use crate::text;
use vstd::prelude::*;
use vstd::string::*;

verus! {

/// Why a node does not start.
#[derive(Debug)]
pub enum StartError {
    /// The storage directory could not be created.
    CreateDirectory { storage_path: String },
    /// The disk has less room than the node may use.
    NotEnoughSpace { available: u64, required: u64 },
    /// It is not known how much room the disk has.
    SpaceUnknown { error: DiskSpaceError },
    /// The storage directory could not be scanned.
    Scan,
}

impl StartError {
    /// The text of `message`.
    pub open spec fn text(self) -> Seq<char> {
        match self {
            StartError::CreateDirectory { storage_path } =>
                "Failed to create storage directory: "@ + path::shown_path(storage_path@),
            StartError::NotEnoughSpace { .. } => "Not enough disk space to meet configured max_storage_gib."@,
            StartError::SpaceUnknown { .. } => "Failed to verify available disk space."@,
            StartError::Scan => "Failed to initialize storage state"@,
        }
    }

    /// The message to show for this error.
    pub fn message(&self) -> (r: String)
        ensures
            r@ == self.text(),
    {
        match self {
            StartError::CreateDirectory { storage_path } => text::concat2(
                "Failed to create storage directory: ",
                path::show_path(storage_path.as_str()).as_str(),
            ),
            StartError::NotEnoughSpace { .. } =>
                "Not enough disk space to meet configured max_storage_gib.".to_owned(),
            StartError::SpaceUnknown { .. } => "Failed to verify available disk space.".to_owned(),
            StartError::Scan => "Failed to initialize storage state".to_owned(),
        }
    }
}

/// What comes next in starting a node.
#[derive(Debug)]
pub enum StartStage {
    /// Create the storage directory and those above it, where they do not exist.
    CreateDirectory,
    /// Ask for the free space on the disk that holds the storage directory.
    MeasureDisk,
    /// Scan the storage directory.
    Scan,
    /// Connect to the backend, with these counters.
    Serve { state: StorageState },
    /// Nothing: the node does not start.
    Failed(StartError),
}

/// The outcome of a stage of starting a node.
#[derive(Debug)]
pub enum StartReply {
    /// For `CreateDirectory`: whether it was done.
    Created(bool),
    /// For `MeasureDisk`.
    Space(Result<u64, DiskSpaceError>),
    /// For `Scan`: the counters, where the directory could be scanned.
    Scanned(Option<StorageState>),
}

/// The start of a node with this storage directory, which may come to hold this many bytes.
#[derive(Debug)]
pub struct Startup {
    pub storage_path: String,
    pub required_bytes: u64,
    pub stage: StartStage,
}

impl Startup {
    /// Begins to start a node. The directory comes first: the disk can only be found by a path
    /// that exists.
    pub fn begin(storage_path: String, required_bytes: u64) -> (startup: Startup)
        ensures
            startup == (Startup { storage_path, required_bytes, stage: StartStage::CreateDirectory }),
    {
        Startup { storage_path, required_bytes, stage: StartStage::CreateDirectory }
    }

    /// `reply` is an outcome of the stage.
    pub open spec fn expects(self, reply: StartReply) -> bool {
        match self.stage {
            StartStage::CreateDirectory => reply is Created,
            StartStage::MeasureDisk => reply is Space,
            StartStage::Scan => reply is Scanned,
            StartStage::Serve { .. } => false,
            StartStage::Failed(_) => false,
        }
    }

    /// The stage after `reply`.
    pub open spec fn stage_after(self, reply: StartReply) -> StartStage {
        match (self.stage, reply) {
            (StartStage::CreateDirectory, StartReply::Created(true)) => StartStage::MeasureDisk,
            (StartStage::CreateDirectory, StartReply::Created(false)) =>
                StartStage::Failed(StartError::CreateDirectory { storage_path: self.storage_path }),
            (StartStage::MeasureDisk, StartReply::Space(Ok(available))) => if available < self.required_bytes {
                StartStage::Failed(StartError::NotEnoughSpace { available, required: self.required_bytes })
            } else {
                StartStage::Scan
            },
            (StartStage::MeasureDisk, StartReply::Space(Err(error))) =>
                StartStage::Failed(StartError::SpaceUnknown { error }),
            (StartStage::Scan, StartReply::Scanned(Some(state))) => StartStage::Serve { state },
            (StartStage::Scan, StartReply::Scanned(None)) => StartStage::Failed(StartError::Scan),
            (stage, _) => stage,
        }
    }

    /// Goes on with the outcome of the stage.
    pub fn resume(self, reply: StartReply) -> (next: Startup)
        requires
            self.expects(reply),
        ensures
            next == (Startup { stage: self.stage_after(reply), ..self }),
    {
        let Startup { storage_path, required_bytes, stage } = self;
        let stage = match (stage, reply) {
            (StartStage::CreateDirectory, StartReply::Created(done)) => if done {
                StartStage::MeasureDisk
            } else {
                StartStage::Failed(StartError::CreateDirectory { storage_path: storage_path.clone() })
            },
            (StartStage::MeasureDisk, StartReply::Space(space)) => match space {
                Ok(available) => if available < required_bytes {
                    StartStage::Failed(StartError::NotEnoughSpace { available, required: required_bytes })
                } else {
                    StartStage::Scan
                },
                Err(error) => StartStage::Failed(StartError::SpaceUnknown { error }),
            },
            (StartStage::Scan, StartReply::Scanned(scanned)) => match scanned {
                Some(state) => StartStage::Serve { state },
                None => StartStage::Failed(StartError::Scan),
            },
            (stage, _) => stage,
        };
        Startup { storage_path, required_bytes, stage }
    }
}

/// The stages a start went through: `starts[i]` was answered `replies[i]`.
pub open spec fn is_start(starts: Seq<Startup>, replies: Seq<StartReply>) -> bool {
    &&& starts.len() == replies.len() + 1
    &&& starts[0].stage is CreateDirectory
    &&& forall|i: int|
        0 <= i < replies.len() ==> #[trigger] starts[i].expects(replies[i]) && starts[i + 1] == (Startup {
            stage: starts[i].stage_after(replies[i]),
            ..starts[i]
        })
}

/// A node connects only when its directory was created, its disk has room for all it may store,
/// and its directory was scanned, in this order.
pub proof fn start_is_checked(starts: Seq<Startup>, replies: Seq<StartReply>, i: int)
    requires
        is_start(starts, replies),
        0 <= i < starts.len(),
        starts[i].stage is Serve,
    ensures
        i == 3,
        replies[0] == StartReply::Created(true),
        replies[1] matches StartReply::Space(Ok(available)) && available >= starts[0].required_bytes,
        replies[2] matches StartReply::Scanned(Some(state)) && starts[i].stage == (StartStage::Serve { state }),
{
    assert(starts.len() > 1 && starts[0].expects(replies[0]));
    if i >= 2 {
        assert(starts[1].expects(replies[1]));
    }
    if i >= 3 {
        assert(starts[2].expects(replies[2]));
    }
    if i > 3 {
        assert(starts[3].expects(replies[3]));
    }
}

} // verus!
