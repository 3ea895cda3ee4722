use native_locator::messaging::{
    create_dispatcher, get_environment_key, get_manager_key, serialize_env_manager_message,
    serialize_exit_message, serialize_python_environment_message, EnvManager, EnvManagerMessage,
    EnvManagerType, ExitMessage, MessageDispatcher, PathText, PythonEnv, PythonEnvironment,
    PythonEnvironmentCategory, PythonEnvironmentMessage,
};

fn path(s: &str) -> PathText {
    PathText::new(String::from(s))
}

/// Splits a channel stream into frame bodies, checking on the way that each
/// header is well formed and declares exactly the byte length of its body.
fn parse_frames(stream: &str) -> Vec<String> {
    let bytes = stream.as_bytes();
    let header_prefix: &[u8] = b"Content-Length: ";
    let header_rest: &[u8] =
        b"\r\nContent-Type: application/vscode-jsonrpc; charset=utf-8\r\n\r\n";
    let mut pos = 0usize;
    let mut bodies = Vec::new();
    while pos < bytes.len() {
        assert!(bytes[pos..].starts_with(header_prefix), "missing header");
        pos += header_prefix.len();
        let mut n = 0usize;
        while pos < bytes.len() && bytes[pos].is_ascii_digit() {
            n = n * 10 + (bytes[pos] - b'0') as usize;
            pos += 1;
        }
        assert!(bytes[pos..].starts_with(header_rest), "malformed header");
        pos += header_rest.len();
        assert!(pos + n <= bytes.len(), "declared length runs past the stream");
        let body = String::from_utf8(bytes[pos..pos + n].to_vec()).unwrap();
        pos += n;
        bodies.push(body);
    }
    bodies
}

fn json(body: &str) -> serde_json::Value {
    serde_json::from_str(body).unwrap()
}

fn simple_environment(exe: &str) -> PythonEnvironment {
    PythonEnvironment::new(
        None,
        Some(path(exe)),
        PythonEnvironmentCategory::Venv,
        None,
        None,
        None,
        None,
        None,
    )
}

#[test]
fn manager_reported_once_for_equal_locations() {
    let mut d = create_dispatcher();
    d.report_environment_manager(EnvManager::new(
        path("/usr/bin/conda"),
        Some(String::from("23.1")),
        EnvManagerType::Conda,
    ));
    d.report_environment_manager(EnvManager::new(
        path("/usr/bin/conda"),
        None,
        EnvManagerType::Pyenv,
    ));
    d.report_environment_manager(EnvManager::new(
        path("/usr/bin/conda"),
        Some(String::from("23.1")),
        EnvManagerType::Conda,
    ));
    let bodies = parse_frames(&d.take_output());
    assert_eq!(bodies.len(), 1);
    let v = json(&bodies[0]);
    assert_eq!(v["method"].as_str().unwrap(), "envManager");
    assert_eq!(v["params"]["executablePath"].as_str().unwrap(), "/usr/bin/conda");
    assert_eq!(v["params"]["version"].as_str().unwrap(), "23.1");
}

#[test]
fn manager_without_text_location_is_dropped() {
    let mut d = create_dispatcher();
    d.report_environment_manager(EnvManager::new(
        PathText::unrepresentable(),
        None,
        EnvManagerType::Conda,
    ));
    assert_eq!(d.take_output(), "");
}

#[test]
fn environment_reported_once_and_manager_once() {
    let mut d = create_dispatcher();
    let env = PythonEnvironment::new(
        None,
        Some(path("/usr/bin/python3")),
        PythonEnvironmentCategory::System,
        Some(String::from("3.11")),
        None,
        None,
        Some(EnvManager::new(path("/opt/conda/bin/conda"), None, EnvManagerType::Conda)),
        None,
    );
    d.report_environment(env.clone());
    d.report_environment(env);
    let bodies = parse_frames(&d.take_output());
    assert_eq!(bodies.len(), 2);
    assert_eq!(json(&bodies[0])["method"].as_str().unwrap(), "pythonEnvironment");
    assert_eq!(json(&bodies[1])["method"].as_str().unwrap(), "envManager");
}

#[test]
fn environment_without_identity_emits_nothing() {
    let mut d = create_dispatcher();
    let e = PythonEnvironment::new(
        Some(String::from("anonymous")),
        None,
        PythonEnvironmentCategory::System,
        None,
        None,
        None,
        None,
        None,
    );
    d.report_environment(e);
    assert_eq!(d.take_output(), "");
}

#[test]
fn probe_lookup_consistent_with_reports() {
    let mut d = create_dispatcher();
    let probe = PythonEnv::new(path("/usr/bin/python3"));
    assert!(!d.was_environment_reported(&probe));
    d.report_environment(simple_environment("/usr/bin/python3"));
    assert!(d.was_environment_reported(&probe));
    assert!(!d.was_environment_reported(&PythonEnv::new(path("/other/python"))));
    assert!(!d.was_environment_reported(&PythonEnv::new(PathText::unrepresentable())));
}

#[test]
fn exit_emits_one_envelope_per_call() {
    let mut d = create_dispatcher();
    d.exit();
    d.exit();
    let out = d.take_output();
    let expected_one = "Content-Length: 33\r\nContent-Type: application/vscode-jsonrpc; \
                        charset=utf-8\r\n\r\n{\"jsonrpc\":\"2.0\",\"method\":\"exit\"}";
    assert_eq!(out, format!("{}{}", expected_one, expected_one));
    let bodies = parse_frames(&out);
    assert_eq!(bodies.len(), 2);
    assert_eq!(bodies[0], "{\"jsonrpc\":\"2.0\",\"method\":\"exit\"}");
}

#[test]
fn scenario_conda_manager_then_environment() {
    let mut d = create_dispatcher();
    let manager = || EnvManager::new(path("/usr/bin/conda"), None, EnvManagerType::Conda);
    d.report_environment_manager(manager());
    d.report_environment_manager(manager());
    let first = parse_frames(&d.take_output());
    assert_eq!(first.len(), 1);
    let e = PythonEnvironment::new(
        None,
        Some(path("/opt/env/bin/python")),
        PythonEnvironmentCategory::Conda,
        None,
        None,
        None,
        Some(manager()),
        None,
    );
    d.report_environment(e);
    let second = parse_frames(&d.take_output());
    assert_eq!(second.len(), 1);
    assert_eq!(json(&second[0])["method"].as_str().unwrap(), "pythonEnvironment");
}

#[test]
fn declared_length_counts_bytes_not_characters() {
    let mut d = create_dispatcher();
    let mut e = simple_environment("/home/café/bin/python");
    e.name = Some(String::from("par défaut"));
    d.report_environment(e);
    let out = d.take_output();
    let bodies = parse_frames(&out);
    assert_eq!(bodies.len(), 1);
    let v = json(&bodies[0]);
    assert_eq!(v["params"]["name"].as_str().unwrap(), "par défaut");
    assert_eq!(v["params"]["pythonExecutablePath"].as_str().unwrap(), "/home/café/bin/python");
    assert!(bodies[0].len() > bodies[0].chars().count());
}

#[test]
fn strings_are_escaped_in_bodies() {
    let mut d = create_dispatcher();
    let mut e = simple_environment("/usr/bin/python3");
    e.name = Some(String::from("a\"b\\c\nd\te\u{1}f"));
    d.report_environment(e);
    let bodies = parse_frames(&d.take_output());
    let v = json(&bodies[0]);
    assert_eq!(v["params"]["name"].as_str().unwrap(), "a\"b\\c\nd\te\u{1}f");
    assert!(bodies[0].contains("\\\"b"));
    assert!(bodies[0].contains("\\\\c"));
    assert!(bodies[0].contains("\\n"));
    assert!(bodies[0].contains("\\t"));
    assert!(bodies[0].contains("\\u0001"));
}

#[test]
fn manager_message_exact_text() {
    let msg = EnvManagerMessage::new(EnvManager::new(
        path("/usr/bin/conda"),
        None,
        EnvManagerType::Conda,
    ));
    let body = serialize_env_manager_message(&msg);
    assert_eq!(
        body,
        "{\"jsonrpc\":\"2.0\",\"method\":\"envManager\",\"params\":\
         {\"executablePath\":\"/usr/bin/conda\",\"tool\":\"conda\"}}"
    );
    let with_version = EnvManagerMessage::new(EnvManager::new(
        path("/usr/bin/pyenv"),
        Some(String::from("2.3.0")),
        EnvManagerType::Pyenv,
    ));
    let body2 = serialize_env_manager_message(&with_version);
    assert_eq!(
        body2,
        "{\"jsonrpc\":\"2.0\",\"method\":\"envManager\",\"params\":\
         {\"executablePath\":\"/usr/bin/pyenv\",\"tool\":\"pyenv\",\"version\":\"2.3.0\"}}"
    );
}

#[test]
fn environment_message_exact_text() {
    let e = PythonEnvironment::new(
        Some(String::from("base")),
        Some(path("/opt/conda/bin/python")),
        PythonEnvironmentCategory::Conda,
        Some(String::from("3.10")),
        Some(path("/opt/conda")),
        Some(path("/opt/conda")),
        Some(EnvManager::new(path("/opt/conda/bin/conda"), None, EnvManagerType::Conda)),
        Some(vec![String::from("/opt/conda/bin/python"), String::from("-I")]),
    );
    let msg = PythonEnvironmentMessage::new(e);
    let body = serialize_python_environment_message(&msg);
    assert_eq!(
        body,
        "{\"jsonrpc\":\"2.0\",\"method\":\"pythonEnvironment\",\"params\":{\
         \"category\":\"conda\",\
         \"name\":\"base\",\
         \"pythonExecutablePath\":\"/opt/conda/bin/python\",\
         \"version\":\"3.10\",\
         \"envPath\":\"/opt/conda\",\
         \"sysPrefixPath\":\"/opt/conda\",\
         \"envManager\":{\"executablePath\":\"/opt/conda/bin/conda\",\"tool\":\"conda\"},\
         \"pythonRunCommand\":[\"/opt/conda/bin/python\",\"-I\"]}}"
    );
}

#[test]
fn exit_message_omits_params() {
    let body = serialize_exit_message(&ExitMessage::new());
    assert_eq!(body, "{\"jsonrpc\":\"2.0\",\"method\":\"exit\"}");
}

#[test]
fn pipenv_constructor_derives_run_command() {
    let e = PythonEnvironment::new_pipenv(
        Some(path("/proj/.venv/bin/python")),
        Some(String::from("3.12")),
        None,
        None,
        None,
        path("/proj"),
    );
    let msg = PythonEnvironmentMessage::new(e);
    let body = serialize_python_environment_message(&msg);
    let v = json(&body);
    assert_eq!(v["params"]["category"].as_str().unwrap(), "pipenv");
    assert_eq!(v["params"]["projectPath"].as_str().unwrap(), "/proj");
    let cmd = v["params"]["pythonRunCommand"].as_array().unwrap();
    assert_eq!(cmd.len(), 1);
    assert_eq!(cmd[0].as_str().unwrap(), "/proj/.venv/bin/python");
    assert!(v["params"].get("name").is_none());
}

#[test]
fn clones_serialize_identically() {
    let manager = EnvManager::new(
        path("/usr/bin/pyenv"),
        Some(String::from("2.3.0")),
        EnvManagerType::Pyenv,
    );
    let copied = manager.clone();
    assert_eq!(
        serialize_env_manager_message(&EnvManagerMessage::new(manager)),
        serialize_env_manager_message(&EnvManagerMessage::new(copied)),
    );
    let e = PythonEnvironment::new_pipenv(
        Some(path("/proj/.venv/bin/python")),
        None,
        None,
        None,
        None,
        path("/proj"),
    );
    let copied_env = e.clone();
    assert_eq!(
        serialize_python_environment_message(&PythonEnvironmentMessage::new(e)),
        serialize_python_environment_message(&PythonEnvironmentMessage::new(copied_env)),
    );
}

#[test]
fn manager_key_is_location_text() {
    let m = EnvManager::new(path("/usr/bin/conda"), None, EnvManagerType::Conda);
    assert_eq!(get_manager_key(&m).unwrap(), "/usr/bin/conda");
    let hidden = EnvManager::new(PathText::unrepresentable(), None, EnvManagerType::Conda);
    assert!(get_manager_key(&hidden).is_none());
}

#[test]
fn environment_key_prefers_interpreter_path() {
    let mut e = simple_environment("/usr/bin/python3");
    e.env_path = Some(path("/envs/alpha"));
    assert_eq!(get_environment_key(&e).unwrap(), "/usr/bin/python3");

    let rooted = PythonEnvironment::new(
        None,
        None,
        PythonEnvironmentCategory::Venv,
        None,
        Some(path("/envs/alpha")),
        None,
        None,
        None,
    );
    assert_eq!(get_environment_key(&rooted).unwrap(), "/envs/alpha");

    let unrepresentable_exe = PythonEnvironment::new(
        None,
        Some(PathText::unrepresentable()),
        PythonEnvironmentCategory::Venv,
        None,
        Some(path("/envs/alpha")),
        None,
        None,
        None,
    );
    assert!(get_environment_key(&unrepresentable_exe).is_none());

    let none_at_all = PythonEnvironment::new(
        None,
        None,
        PythonEnvironmentCategory::Venv,
        None,
        None,
        None,
        None,
        None,
    );
    assert!(get_environment_key(&none_at_all).is_none());
}

#[test]
fn manager_cascade_happens_even_when_environment_is_suppressed() {
    let mut d = create_dispatcher();
    d.report_environment(simple_environment("/usr/bin/python3"));
    assert_eq!(parse_frames(&d.take_output()).len(), 1);
    let mut again = simple_environment("/usr/bin/python3");
    again.env_manager = Some(EnvManager::new(path("/late/conda"), None, EnvManagerType::Conda));
    d.report_environment(again);
    let bodies = parse_frames(&d.take_output());
    assert_eq!(bodies.len(), 1);
    assert_eq!(json(&bodies[0])["method"].as_str().unwrap(), "envManager");
    assert_eq!(json(&bodies[0])["params"]["executablePath"].as_str().unwrap(), "/late/conda");
}
