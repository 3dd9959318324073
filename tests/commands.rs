use cvm::commands::{Cli, Commands, ServiceAction, Task, VersionAction};

fn version(action: Option<VersionAction>) -> Cli {
    Cli { command: Some(Commands::Version { action }) }
}

fn service(action: Option<ServiceAction>) -> Cli {
    Cli { command: Some(Commands::Service { action }) }
}

#[test]
fn no_command_shows_help() {
    assert_eq!(Cli { command: None }.task(), Task::ShowHelp);
}

#[test]
fn version_tasks() {
    assert_eq!(version(None).task(), Task::ShowCurrentVersion);
    assert_eq!(version(Some(VersionAction::Current)).task(), Task::ShowCurrentVersion);
    assert_eq!(version(Some(VersionAction::List)).task(), Task::ListReleases);
    assert_eq!(
        version(Some(VersionAction::Install { version: "2024.1.5".to_string() })).task(),
        Task::ShowInstallUrls { version: "2024.1.5".to_string() }
    );
}

#[test]
fn service_tasks() {
    assert_eq!(service(None).task(), Task::ShowServiceStatus);
    assert_eq!(service(Some(ServiceAction::Start)).task(), Task::StartService);
    assert_eq!(service(Some(ServiceAction::Stop)).task(), Task::StopService);
    assert_eq!(service(Some(ServiceAction::Status)).task(), Task::ShowServiceStatus);
}
