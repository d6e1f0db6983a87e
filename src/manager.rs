use vstd::prelude::*;

verus! {

/// Where the installation of the web frontend stands.
#[derive(Clone, Copy, Debug, PartialEq, Eq, Structural)]
pub enum InitStage {
    Start,
    CheckingDir,
    RemovingFolder,
    Fetching,
    Downloading,
    Unzipping,
    RemovingZip,
    Finished,
}

/// What the frontend manager reports back.
#[derive(Debug, PartialEq, Eq)]
pub enum InitEvent {
    Begin,
    /// Whether the frontend directory is already there.
    DirExists { exists: bool },
    /// The requested operation ended, or failed with the given cause.
    Completed { outcome: Result<(), String> },
}

/// What the frontend manager is asked to do next.
#[derive(Debug, PartialEq, Eq)]
pub enum InitAction {
    CheckDir,
    RemoveFolder,
    FetchRelease,
    DownloadRelease,
    UnzipRelease,
    RemoveZipFile,
    /// The installation is over: it succeeded, or failed with this cause.
    Finish { outcome: Result<(), String> },
}

pub open spec fn init_accepts(stage: InitStage, event: InitEvent) -> bool {
    match stage {
        InitStage::Start => event is Begin,
        InitStage::CheckingDir => event is DirExists,
        InitStage::Finished => false,
        _ => event is Completed,
    }
}

/// One transition of the installation: an existing folder is removed first
/// (whatever comes of that), then the newest release is fetched, downloaded,
/// unpacked and its archive removed; the first of these four that fails ends
/// the installation with its cause.
pub open spec fn init_transition(stage: InitStage, event: InitEvent) -> (InitStage, InitAction) {
    match (stage, event) {
        (InitStage::Start, _) => (InitStage::CheckingDir, InitAction::CheckDir),
        (InitStage::CheckingDir, InitEvent::DirExists { exists }) => if exists {
            (InitStage::RemovingFolder, InitAction::RemoveFolder)
        } else {
            (InitStage::Fetching, InitAction::FetchRelease)
        },
        (InitStage::RemovingFolder, _) => (InitStage::Fetching, InitAction::FetchRelease),
        (_, InitEvent::Completed { outcome: Err(cause) }) => (
            InitStage::Finished,
            InitAction::Finish { outcome: Err(cause) },
        ),
        (InitStage::Fetching, _) => (InitStage::Downloading, InitAction::DownloadRelease),
        (InitStage::Downloading, _) => (InitStage::Unzipping, InitAction::UnzipRelease),
        (InitStage::Unzipping, _) => (InitStage::RemovingZip, InitAction::RemoveZipFile),
        (_, _) => (InitStage::Finished, InitAction::Finish { outcome: Ok(()) }),
    }
}

/// Drives the installation of the web frontend, one manager operation at a
/// time.
#[derive(Debug)]
pub struct Executor {
    pub stage: InitStage,
}

impl Executor {
    pub fn new() -> (r: Executor)
        ensures
            r.stage == InitStage::Start,
    {
        Executor { stage: InitStage::Start }
    }

    /// Whether `event` is what the installation waits for.
    pub fn accepts(&self, event: &InitEvent) -> (r: bool)
        ensures
            r == init_accepts(self.stage, *event),
    {
        match self.stage {
            InitStage::Start => matches!(event, InitEvent::Begin),
            InitStage::CheckingDir => matches!(event, InitEvent::DirExists { .. }),
            InitStage::Finished => false,
            _ => matches!(event, InitEvent::Completed { .. }),
        }
    }

    /// Advances the installation by one event.
    pub fn step(&mut self, event: InitEvent) -> (r: InitAction)
        requires
            init_accepts(old(self).stage, event),
        ensures
            (final(self).stage, r) == init_transition(old(self).stage, event),
    {
        let (stage, action) = match (self.stage, event) {
            (InitStage::Start, _) => (InitStage::CheckingDir, InitAction::CheckDir),
            (InitStage::CheckingDir, InitEvent::DirExists { exists }) => if exists {
                (InitStage::RemovingFolder, InitAction::RemoveFolder)
            } else {
                (InitStage::Fetching, InitAction::FetchRelease)
            },
            (InitStage::RemovingFolder, _) => (InitStage::Fetching, InitAction::FetchRelease),
            (_, InitEvent::Completed { outcome: Err(cause) }) => (
                InitStage::Finished,
                InitAction::Finish { outcome: Err(cause) },
            ),
            (InitStage::Fetching, _) => (InitStage::Downloading, InitAction::DownloadRelease),
            (InitStage::Downloading, _) => (InitStage::Unzipping, InitAction::UnzipRelease),
            (InitStage::Unzipping, _) => (InitStage::RemovingZip, InitAction::RemoveZipFile),
            (_, _) => (InitStage::Finished, InitAction::Finish { outcome: Ok(()) }),
        };
        self.stage = stage;
        action
    }
}

} // verus!
