//! The command-line selection, and the one task that each selection stands for.
use vstd::prelude::*;

verus! {

/// The parsed command line: a command, or none.
#[derive(Debug, Clone, PartialEq, Eq)]
pub struct Cli {
    pub command: Option<Commands>,
}

/// The top-level commands.
#[derive(Debug, Clone, PartialEq, Eq)]
pub enum Commands {
    /// Manage versions
    Version { action: Option<VersionAction> },
    /// Manage the tunnel service
    Service { action: Option<ServiceAction> },
}

/// What to do about versions.
#[derive(Debug, Clone, PartialEq, Eq)]
pub enum VersionAction {
    /// Show the installed version
    Current,
    /// List the available versions
    List,
    /// Install a specific version
    Install { version: String },
}

/// What to do with the service.
#[derive(Debug, Clone, Copy, PartialEq, Eq, Structural)]
pub enum ServiceAction {
    Start,
    Stop,
    Status,
}

/// The single task that a command line asks for.
#[derive(Debug, Clone, PartialEq, Eq)]
pub enum Task {
    ShowHelp,
    ShowCurrentVersion,
    ListReleases,
    ShowInstallUrls { version: String },
    StartService,
    StopService,
    ShowServiceStatus,
}

/// The task of a command line. A group given without an action does its
/// default: the installed version, or the service's status.
pub open spec fn task_of(cli: Cli) -> Task {
    match cli.command {
        None => Task::ShowHelp,
        Some(Commands::Version { action }) => match action {
            None => Task::ShowCurrentVersion,
            Some(VersionAction::Current) => Task::ShowCurrentVersion,
            Some(VersionAction::List) => Task::ListReleases,
            Some(VersionAction::Install { version }) => Task::ShowInstallUrls { version },
        },
        Some(Commands::Service { action }) => match action {
            Some(ServiceAction::Start) => Task::StartService,
            Some(ServiceAction::Stop) => Task::StopService,
            Some(ServiceAction::Status) => Task::ShowServiceStatus,
            None => Task::ShowServiceStatus,
        },
    }
}

impl Cli {
    /// The task that this command line asks for.
    pub fn task(&self) -> (r: Task)
        ensures
            r == task_of(*self),
    {
        match &self.command {
            None => Task::ShowHelp,
            Some(Commands::Version { action }) => match action {
                None => Task::ShowCurrentVersion,
                Some(VersionAction::Current) => Task::ShowCurrentVersion,
                Some(VersionAction::List) => Task::ListReleases,
                Some(VersionAction::Install { version }) => Task::ShowInstallUrls {
                    version: version.clone(),
                },
            },
            Some(Commands::Service { action }) => match action {
                Some(ServiceAction::Start) => Task::StartService,
                Some(ServiceAction::Stop) => Task::StopService,
                Some(ServiceAction::Status) => Task::ShowServiceStatus,
                None => Task::ShowServiceStatus,
            },
        }
    }
}

} // verus!
