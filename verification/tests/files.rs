use periphery::build_args::EnvironmentVar;
use periphery::files::{
    env_file_contents, parse_secret_args, plan_dockerfile, plan_env_file, EnvFilePlan, Log,
    SecretArgError,
};

/// Raw passthrough: the written file bytes must equal the input text
/// byte-for-byte, no matter what the content looks like (only a trailing
/// newline is added when missing).
#[test]
fn write_env_file_passes_content_through_untouched() {
    let inputs = [
        "FOO=bar\n",
        "FOO=bar", // trailing newline added
        "KEY=\"value # not comment\"\nPASS=p@$$w0rd!\n",
        "MULTILINE='line 1\nline 2'\nESCAPED=\"a\\nb\"\n",
        "# only a comment\n",
        "THIS IS not even valid dotenv ;;;\n",
        "A=1\r\nB=2\r\n", // CRLF preserved
    ];

    for (i, input) in inputs.iter().enumerate() {
        let env_file_path = format!(".env.{i}");
        let written = match plan_env_file(input, "/tmp/env-raw-test", &env_file_path) {
            EnvFilePlan::Write(write) => write.contents,
            EnvFilePlan::UseExistingFile { .. } => panic!("input {i} should produce a file"),
        };
        let expected = if input.ends_with('\n') {
            input.to_string()
        } else {
            format!("{input}\n")
        };
        assert_eq!(written, expected, "input {i} must pass through byte-for-byte");
        assert_eq!(env_file_contents(input), expected);
    }
}

#[test]
fn env_file_plan_names_the_normalized_path_in_its_logs() {
    match plan_env_file("A=1", "/srv/stack/", "./.env") {
        EnvFilePlan::Write(write) => {
            assert_eq!(write.path, "/srv/stack/.env");
            assert_eq!(write.stage, "Write Environment File");
            assert_eq!(write.success_log.stage, "Write Environment File");
            assert_eq!(write.success_log.stdout, "Environment file written to \"/srv/stack/.env\"");
            assert!(write.success_log.success);
            assert_eq!(
                write.failure_context,
                "Failed to write environment file to \"/srv/stack/.env\""
            );
        }
        EnvFilePlan::UseExistingFile { .. } => panic!("environment is not empty"),
    }
}

#[test]
fn empty_environment_uses_an_existing_file() {
    match plan_env_file("", "/srv/stack", "conf//app.env") {
        EnvFilePlan::UseExistingFile { path } => assert_eq!(path, "/srv/stack/conf/app.env"),
        EnvFilePlan::Write(_) => panic!("nothing to write"),
    }
}

#[test]
fn empty_dockerfile_is_refused() {
    let err = plan_dockerfile("/build", "Dockerfile", "").unwrap_err();
    assert_eq!(err.message(), "UI Defined dockerfile is empty");
    assert_eq!(err.stage(), "Write Dockerfile");
}

#[test]
fn dockerfile_plan_holds_the_contents_verbatim() {
    let write = plan_dockerfile("/build", "./docker/Dockerfile", "FROM alpine\nRUN true").unwrap();
    assert_eq!(write.path, "/build/docker/Dockerfile");
    assert_eq!(write.contents, "FROM alpine\nRUN true");
    assert_eq!(write.success_log.stdout, "Dockerfile contents written to \"/build/docker/Dockerfile\"");
    assert_eq!(
        write.failure_context,
        "Failed to write dockerfile contents to \"/build/docker/Dockerfile\""
    );
}

#[test]
fn log_constructors_set_output_and_success() {
    let ok = Log::simple("Stage", "done".to_string());
    assert_eq!((ok.stage.as_str(), ok.stdout.as_str(), ok.stderr.as_str(), ok.success), ("Stage", "done", "", true));
    let err = Log::error("Stage", "boom".to_string());
    assert_eq!((err.stage.as_str(), err.stdout.as_str(), err.stderr.as_str(), err.success), ("Stage", "", "boom", false));
}

fn var(variable: &str, value: &str) -> EnvironmentVar {
    EnvironmentVar { variable: variable.to_string(), value: value.to_string() }
}

#[test]
fn secret_args_mount_each_secret_from_its_file() {
    let plan = parse_secret_args(&[var("TOKEN", "abc"), var("KEY", "x y")], "/build");
    assert_eq!(plan.writes.len(), 2);
    assert_eq!(plan.writes[0].path, "/build/TOKEN");
    assert_eq!(plan.writes[0].contents, "abc");
    assert_eq!(plan.writes[0].failure_context, "Failed to write build secret TOKEN to /build/TOKEN");
    assert_eq!(plan.writes[1].variable, "KEY");
    assert_eq!(
        plan.outcome.unwrap(),
        " --secret id=TOKEN,src=/build/TOKEN --secret id=KEY,src=/build/KEY"
    );
}

#[test]
fn secret_with_empty_variable_is_refused_after_earlier_writes() {
    let plan = parse_secret_args(&[var("A", "1"), var("", "2"), var("C", "3")], "/b");
    assert_eq!(plan.writes.len(), 1);
    let err = plan.outcome.unwrap_err();
    assert!(matches!(err, SecretArgError::EmptyVariable));
    assert_eq!(err.message(), "secret variable cannot be empty string");
}

#[test]
fn secret_with_equals_in_variable_is_refused() {
    let plan = parse_secret_args(&[var("A=B", "1")], "/b");
    assert!(plan.writes.is_empty());
    let err = plan.outcome.unwrap_err();
    assert_eq!(err.message(), "invalid variable A=B. variable cannot contain '='");
}

#[test]
fn no_secrets_give_no_flags() {
    let plan = parse_secret_args(&[], "/b");
    assert!(plan.writes.is_empty());
    assert_eq!(plan.outcome.unwrap(), "");
}
