use pwp::remote::{
    classify_directory_result, classify_service_result, contains_text, is_already_exists_error,
    make_chmod_command, make_enable_command, make_mkdir_command, make_reload_command,
    make_start_command, make_stop_command, make_unit_file_path, StepOutcome,
};

#[test]
fn already_exists_message_is_recognised() {
    assert!(is_already_exists_error("mkdir: cannot create directory '/home/u/.local/bin/': File exists"));
    assert!(is_already_exists_error("File exists"));
    assert!(!is_already_exists_error("mkdir: cannot create directory: Permission denied"));
    assert!(!is_already_exists_error("File exist"));
    assert!(!is_already_exists_error(""));
}

#[test]
fn contains_text_finds_runs() {
    assert!(contains_text("abc", ""));
    assert!(contains_text("abc", "abc"));
    assert!(contains_text("xxabcxx", "bc"));
    assert!(!contains_text("ab", "abc"));
    assert!(!contains_text("acb", "ab"));
    assert!(contains_text("ünïcode", "nïc"));
}

#[test]
fn directory_results_are_classified() {
    assert_eq!(classify_directory_result(Ok(String::new())), StepOutcome::Succeeded);
    assert_eq!(
        classify_directory_result(Err("mkdir: x: File exists".to_string())),
        StepOutcome::AlreadySatisfied
    );
    assert_eq!(
        classify_directory_result(Err("channel closed".to_string())),
        StepOutcome::Failed("channel closed".to_string())
    );
}

#[test]
fn directory_step_run_twice_is_benign() {
    let first = classify_directory_result(Ok(String::new()));
    let second = classify_directory_result(Err("mkdir: cannot create directory '/d': File exists".to_string()));
    assert_eq!(first, StepOutcome::Succeeded);
    assert_eq!(second, StepOutcome::AlreadySatisfied);
}

#[test]
fn service_results_are_classified() {
    assert_eq!(classify_service_result(Ok(String::new())), StepOutcome::Succeeded);
    assert_eq!(
        classify_service_result(Ok("Unit myapp.service not loaded.".to_string())),
        StepOutcome::Failed("Unit myapp.service not loaded.".to_string())
    );
    assert_eq!(
        classify_service_result(Err("no channel".to_string())),
        StepOutcome::Failed("no channel".to_string())
    );
}

#[test]
fn commands_are_spelled_out() {
    assert_eq!(make_mkdir_command("/home/u/.local/bin/"), "mkdir /home/u/.local/bin/");
    assert_eq!(make_stop_command("myapp"), "sudo systemctl stop myapp");
    assert_eq!(make_start_command("myapp"), "sudo systemctl start myapp");
    assert_eq!(make_enable_command("myapp"), "sudo systemctl enable myapp");
    assert_eq!(make_reload_command(), "sudo systemctl daemon-reload");
    assert_eq!(make_chmod_command("/home/u/.local/bin/app"), "chmod +x \"/home/u/.local/bin/app\"");
    assert_eq!(make_unit_file_path("myapp"), "/etc/systemd/system/myapp.service");
}
