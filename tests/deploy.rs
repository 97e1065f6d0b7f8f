use pwp::cargo_toml::CargoToml;
use pwp::connection::{AuthMethod, ParameterError};
use pwp::deploy::{Action, Deployment, DeploymentPlan, Event, RunError, Step};
use pwp::pwp_arguments::PWPArgs;
use pwp::remote::StepOutcome;

fn args() -> PWPArgs {
    PWPArgs {
        input: "./".to_string(),
        host: "example.org".to_string(),
        username: "u".to_string(),
        port: 22,
        auth_file: None,
        password: Some("secret".to_string()),
        binary_name: None,
        service_name: None,
        build: false,
        install_service: false,
        working_directory: None,
        build_command: "cargo build --release".to_string(),
        increment_version: false,
        create_tag: false,
    }
}

fn package() -> CargoToml {
    CargoToml { name: "demo".to_string(), description: None, version: "0.1.0".to_string() }
}

fn plan(service: Option<&str>, install: bool) -> DeploymentPlan {
    let mut a = args();
    a.service_name = service.map(|s| s.to_string());
    a.install_service = install;
    a.deployment_plan(&package())
}

/// Runs a deployment to its end, answering each action with `respond`, and
/// returns the steps performed and the actions asked for.
fn drive(plan: DeploymentPlan, respond: impl Fn(&Action) -> Event) -> (Deployment, Vec<Step>, Vec<Action>) {
    let mut d = Deployment::new(plan);
    let mut steps = Vec::new();
    let mut actions = Vec::new();
    while !d.is_finished() {
        let action = d.next_action();
        steps.push(d.step);
        let event = respond(&action);
        actions.push(action);
        d.advance(event);
    }
    assert_eq!(d.next_action(), Action::Finish);
    (d, steps, actions)
}

fn all_succeed(action: &Action) -> Event {
    match action {
        Action::Connect => Event::Connected { authenticated: true },
        Action::Run(_) => Event::CommandOutput(String::new()),
        Action::Upload { .. } | Action::UploadText { .. } => Event::Transferred,
        Action::Finish => panic!("no action after the end"),
    }
}

#[test]
fn plan_resolves_defaults() {
    let p = plan(Some("myapp"), true);
    assert_eq!(p.binary_name, "demo");
    assert_eq!(p.local_path, "./target/release/demo");
    assert_eq!(p.remote_dir, "/home/u/.local/bin/");
    assert_eq!(p.remote_path, "/home/u/.local/bin/demo");
    assert_eq!(p.service_name.as_deref(), Some("myapp"));
    assert!(p.install_service);
    assert_eq!(p.working_directory, "/home/u/.local/demo");
    assert_eq!(p.description, "myapp");
}

#[test]
fn plan_takes_given_values() {
    let mut a = args();
    a.binary_name = Some("server".to_string());
    a.working_directory = Some("/srv/server".to_string());
    a.service_name = Some("srv".to_string());
    let mut pkg = package();
    pkg.description = Some("The server".to_string());
    let p = a.deployment_plan(&pkg);
    assert_eq!(p.binary_name, "server");
    assert_eq!(p.local_path, "./target/release/server");
    assert_eq!(p.remote_path, "/home/u/.local/bin/server");
    assert_eq!(p.working_directory, "/srv/server");
    assert_eq!(p.description, "The server");
}

#[test]
fn password_authentication() {
    let c = args().connection_parameters().unwrap();
    assert_eq!(c.host, "example.org");
    assert_eq!(c.port, 22);
    assert_eq!(c.username, "u");
    assert_eq!(c.auth, AuthMethod::Password("secret".to_string()));
}

#[test]
fn key_file_authentication() {
    let mut a = args();
    a.auth_file = Some("/home/me/.ssh/id_ed25519".to_string());
    a.password = None;
    let c = a.connection_parameters().unwrap();
    assert_eq!(
        c.auth,
        AuthMethod::KeyFile { path: "/home/me/.ssh/id_ed25519".to_string(), passphrase: None }
    );
}

#[test]
fn no_authentication_is_refused() {
    let mut a = args();
    a.password = None;
    assert!(matches!(a.connection_parameters(), Err(ParameterError::NoAuthMethod)));
}

#[test]
fn unauthenticated_connection_ends_the_run() {
    let (d, steps, _) = drive(plan(None, false), |a| match a {
        Action::Connect => Event::Connected { authenticated: false },
        other => all_succeed(other),
    });
    assert_eq!(steps, vec![Step::Connect]);
    assert_eq!(d.fatal, Some(RunError::Auth(String::new())));
    assert!(!d.succeeded());
}

#[test]
fn rejected_credentials_end_the_run() {
    let (d, steps, _) = drive(plan(None, false), |a| match a {
        Action::Connect => Event::AuthRejected("bad password".to_string()),
        other => all_succeed(other),
    });
    assert_eq!(steps, vec![Step::Connect]);
    assert_eq!(d.fatal, Some(RunError::Auth("bad password".to_string())));
}

#[test]
fn unreachable_host_ends_the_run() {
    let (d, steps, _) = drive(plan(None, false), |a| match a {
        Action::Connect => Event::NetworkFailed("connection refused".to_string()),
        other => all_succeed(other),
    });
    assert_eq!(steps, vec![Step::Connect]);
    assert_eq!(d.fatal, Some(RunError::Network("connection refused".to_string())));
}

#[test]
fn run_without_service() {
    let (d, steps, actions) = drive(plan(None, false), all_succeed);
    assert_eq!(steps, vec![Step::Connect, Step::EnsureDirectory, Step::Upload, Step::FixPermissions]);
    assert_eq!(
        actions,
        vec![
            Action::Connect,
            Action::Run("mkdir /home/u/.local/bin/".to_string()),
            Action::Upload {
                local: "./target/release/demo".to_string(),
                remote: "/home/u/.local/bin/demo".to_string(),
            },
            Action::Run("chmod +x \"/home/u/.local/bin/demo\"".to_string()),
        ]
    );
    assert!(d.succeeded());
    assert_eq!(d.reports.len(), 4);
    assert!(d.reports.iter().all(|r| r.outcome == StepOutcome::Succeeded));
}

#[test]
fn run_with_service_without_install() {
    let (d, steps, actions) = drive(plan(Some("myapp"), false), all_succeed);
    assert_eq!(
        steps,
        vec![
            Step::Connect,
            Step::EnsureDirectory,
            Step::StopService,
            Step::Upload,
            Step::FixPermissions,
            Step::StartService,
        ]
    );
    assert_eq!(actions[2], Action::Run("sudo systemctl stop myapp".to_string()));
    assert_eq!(actions[5], Action::Run("sudo systemctl start myapp".to_string()));
    assert!(d.succeeded());
}

#[test]
fn failed_upload_ends_the_run() {
    let (d, steps, _) = drive(plan(Some("myapp"), true), |a| match a {
        Action::Upload { .. } => Event::TransferFailed("Failed to read local file".to_string()),
        other => all_succeed(other),
    });
    assert_eq!(steps, vec![Step::Connect, Step::EnsureDirectory, Step::StopService, Step::Upload]);
    assert_eq!(d.fatal, Some(RunError::Transfer("Failed to read local file".to_string())));
    assert_eq!(
        d.reports.last().unwrap().outcome,
        StepOutcome::Failed("Failed to read local file".to_string())
    );
}

#[test]
fn run_with_service_install() {
    let (d, steps, actions) = drive(plan(Some("myapp"), true), all_succeed);
    assert_eq!(
        steps,
        vec![
            Step::Connect,
            Step::EnsureDirectory,
            Step::StopService,
            Step::Upload,
            Step::FixPermissions,
            Step::InstallUnit,
            Step::ReloadUnits,
            Step::EnableUnit,
            Step::StartService,
        ]
    );
    match &actions[5] {
        Action::UploadText { text, remote } => {
            assert_eq!(remote, "/etc/systemd/system/myapp.service");
            assert!(text.contains("\nDescription=myapp\n"));
            assert!(text.contains("\nWorkingDirectory=/home/u/.local/demo\n"));
            assert!(text.contains("\nExecStart=/home/u/.local/bin/demo\n"));
        }
        other => panic!("unexpected action {other:?}"),
    }
    assert_eq!(actions[6], Action::Run("sudo systemctl daemon-reload".to_string()));
    assert_eq!(actions[7], Action::Run("sudo systemctl enable myapp".to_string()));
    assert!(d.succeeded());
}

#[test]
fn failed_install_still_starts_the_service() {
    let (d, steps, _) = drive(plan(Some("myapp"), true), |a| match a {
        Action::UploadText { .. } => Event::TransferFailed("permission denied".to_string()),
        other => all_succeed(other),
    });
    assert_eq!(steps[5..], [Step::InstallUnit, Step::StartService]);
    assert!(d.succeeded());
}

#[test]
fn failed_reload_skips_enable() {
    let (_, steps, _) = drive(plan(Some("myapp"), true), |a| match a {
        Action::Run(c) if c == "sudo systemctl daemon-reload" => Event::CommandFailed("eof".to_string()),
        other => all_succeed(other),
    });
    assert_eq!(steps[5..], [Step::InstallUnit, Step::ReloadUnits, Step::StartService]);
}

#[test]
fn service_failures_do_not_stop_the_run() {
    let (d, steps, _) = drive(plan(Some("myapp"), false), |a| match a {
        Action::Run(c) if c.contains("systemctl") => Event::CommandOutput("Failed: unit not found".to_string()),
        Action::Run(c) if c.starts_with("mkdir") => Event::CommandFailed("mkdir: /x: File exists".to_string()),
        other => all_succeed(other),
    });
    assert_eq!(steps.len(), 6);
    assert!(d.succeeded());
    assert_eq!(d.reports[1].outcome, StepOutcome::AlreadySatisfied);
    assert_eq!(d.reports[2].outcome, StepOutcome::Failed("Failed: unit not found".to_string()));
    assert_eq!(d.reports[5].outcome, StepOutcome::Failed("Failed: unit not found".to_string()));
}

#[test]
fn failed_permission_fix_is_reported_only() {
    let (d, steps, _) = drive(plan(None, false), |a| match a {
        Action::Run(c) if c.starts_with("chmod") => Event::CommandFailed("closed".to_string()),
        other => all_succeed(other),
    });
    assert_eq!(steps.len(), 4);
    assert!(d.succeeded());
    assert_eq!(d.reports[3].outcome, StepOutcome::Failed("closed".to_string()));
}

#[test]
fn deploying_twice_to_the_same_directory() {
    let (first, first_steps, _) = drive(plan(None, false), all_succeed);
    let (second, second_steps, _) = drive(plan(None, false), |a| match a {
        Action::Run(c) if c.starts_with("mkdir") => {
            Event::CommandFailed("mkdir: cannot create directory '/home/u/.local/bin/': File exists".to_string())
        }
        other => all_succeed(other),
    });
    assert!(first.succeeded());
    assert!(second.succeeded());
    assert_eq!(first_steps, second_steps);
    assert_eq!(second.reports[1].outcome, StepOutcome::AlreadySatisfied);
}
