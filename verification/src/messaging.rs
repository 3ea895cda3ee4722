//! Report envelopes, identity keying, and the deduplicating dispatcher.
//!
//! A manager or environment is identified by the text of one of its paths;
//! the dispatcher keeps the set of identity keys it has already announced
//! and appends one frame to its output channel for each newly seen report.
//! The JSON text of a payload puts the mandatory fields first and then each
//! present optional field, in declaration order; absent optional fields are
//! omitted rather than written as null.

use vstd::prelude::*;
use vstd::string::StringExecFns;
use crate::json::{
    envelope_json, envelope_json_no_params, json_string_array, json_string_of, push_json_string,
    push_json_string_array,
};
use crate::wire::{frame_message, frame_text};

verus! {

/// A filesystem path as it reaches the reporting layer: its UTF-8 text, or
/// nothing when the path has no textual representation. A path without text
/// carries no identity and can never be deduplicated or serialized.
#[derive(Debug)]
pub struct PathText {
    pub text: Option<String>,
}

impl PathText {
    /// A path with the given UTF-8 text.
    pub fn new(text: String) -> (r: Self)
        ensures
            r.text == Some(text),
    {
        PathText { text: Some(text) }
    }

    /// A path that cannot be represented as UTF-8 text.
    pub fn unrepresentable() -> (r: Self)
        ensures
            r.text is None,
    {
        PathText { text: None }
    }
}

impl Clone for PathText {
    fn clone(&self) -> (r: Self)
        ensures
            r == *self,
    {
        match &self.text {
            Some(s) => PathText { text: Some(s.clone()) },
            None => PathText { text: None },
        }
    }
}

/// A discovery-side probe value: the executable path of a candidate
/// interpreter, as known before a full environment record is built.
#[derive(Debug)]
pub struct PythonEnv {
    pub executable: PathText,
}

impl PythonEnv {
    pub fn new(executable: PathText) -> (r: Self)
        ensures
            r.executable == executable,
    {
        PythonEnv { executable }
    }
}

/// The supported environment-manager tools.
#[derive(Clone, Copy, Debug)]
pub enum EnvManagerType {
    Conda,
    Pyenv,
}

/// An environment manager: its location (identity-bearing), an optional
/// version, and the tool it is.
#[derive(Debug)]
pub struct EnvManager {
    pub executable_path: PathText,
    pub version: Option<String>,
    pub tool: EnvManagerType,
}

impl EnvManager {
    pub fn new(executable_path: PathText, version: Option<String>, tool: EnvManagerType) -> (r: Self)
        ensures
            r.executable_path == executable_path,
            r.version == version,
            r.tool == tool,
    {
        Self { executable_path, version, tool }
    }
}

impl Clone for EnvManager {
    fn clone(&self) -> (r: Self)
        ensures
            r == *self,
    {
        Self {
            executable_path: self.executable_path.clone(),
            version: match &self.version {
                Some(v) => Some(v.clone()),
                None => None,
            },
            tool: self.tool,
        }
    }
}

/// The envelope announcing an environment manager.
#[derive(Debug)]
pub struct EnvManagerMessage {
    pub jsonrpc: String,
    pub method: String,
    pub params: EnvManager,
}

impl EnvManagerMessage {
    pub fn new(params: EnvManager) -> (r: Self)
        ensures
            r.jsonrpc@ == "2.0"@,
            r.method@ == "envManager"@,
            r.params == params,
    {
        Self { jsonrpc: String::from_str("2.0"), method: String::from_str("envManager"), params }
    }
}

/// The mutually exclusive categories an environment can fall in.
#[derive(Clone, Copy, Debug)]
pub enum PythonEnvironmentCategory {
    System,
    Homebrew,
    Conda,
    Pyenv,
    PyenvVirtualEnv,
    WindowsStore,
    WindowsRegistry,
    Pipenv,
    VirtualEnvWrapper,
    Venv,
    VirtualEnv,
}

/// A discovered Python environment. Its identity key is the interpreter
/// path's text if that path is present, else the environment root's text if
/// present; with neither, the value has no identity.
#[derive(Debug)]
pub struct PythonEnvironment {
    pub name: Option<String>,
    pub python_executable_path: Option<PathText>,
    pub category: PythonEnvironmentCategory,
    pub version: Option<String>,
    pub env_path: Option<PathText>,
    pub sys_prefix_path: Option<PathText>,
    pub env_manager: Option<EnvManager>,
    pub python_run_command: Option<Vec<String>>,
    /// The project path for a Pipenv environment.
    pub project_path: Option<PathText>,
}

impl PythonEnvironment {
    pub fn new(
        name: Option<String>,
        python_executable_path: Option<PathText>,
        category: PythonEnvironmentCategory,
        version: Option<String>,
        env_path: Option<PathText>,
        sys_prefix_path: Option<PathText>,
        env_manager: Option<EnvManager>,
        python_run_command: Option<Vec<String>>,
    ) -> (r: Self)
        ensures
            r.name == name,
            r.python_executable_path == python_executable_path,
            r.category == category,
            r.version == version,
            r.env_path == env_path,
            r.sys_prefix_path == sys_prefix_path,
            r.env_manager == env_manager,
            r.python_run_command == python_run_command,
            r.project_path is None,
    {
        Self {
            name,
            python_executable_path,
            category,
            version,
            env_path,
            sys_prefix_path,
            env_manager,
            python_run_command,
            project_path: None,
        }
    }

    /// A Pipenv environment: unnamed, with the run command derived from the
    /// interpreter path's text when that text exists.
    pub fn new_pipenv(
        python_executable_path: Option<PathText>,
        version: Option<String>,
        env_path: Option<PathText>,
        sys_prefix_path: Option<PathText>,
        env_manager: Option<EnvManager>,
        project_path: PathText,
    ) -> (r: Self)
        ensures
            r.name is None,
            r.python_executable_path == python_executable_path,
            r.category == PythonEnvironmentCategory::Pipenv,
            r.version == version,
            r.env_path == env_path,
            r.sys_prefix_path == sys_prefix_path,
            r.env_manager == env_manager,
            r.project_path == Some(project_path),
            match python_executable_path {
                Some(p) => match p.text {
                    Some(t) => r.python_run_command matches Some(cmd) && cmd@ == seq![t],
                    None => r.python_run_command is None,
                },
                None => r.python_run_command is None,
            },
    {
        let python_run_command: Option<Vec<String>> = match &python_executable_path {
            Some(p) => match &p.text {
                Some(t) => Some(vec![t.clone()]),
                None => None,
            },
            None => None,
        };
        Self {
            name: None,
            python_executable_path,
            category: PythonEnvironmentCategory::Pipenv,
            version,
            env_path,
            sys_prefix_path,
            env_manager,
            python_run_command,
            project_path: Some(project_path),
        }
    }
}

fn clone_opt_string(v: &Option<String>) -> (r: Option<String>)
    ensures
        r == *v,
{
    match v {
        Some(s) => Some(s.clone()),
        None => None,
    }
}

fn clone_opt_path(v: &Option<PathText>) -> (r: Option<PathText>)
    ensures
        r == *v,
{
    match v {
        Some(p) => Some(p.clone()),
        None => None,
    }
}

fn clone_string_vec(v: &Vec<String>) -> (r: Vec<String>)
    ensures
        r@ == v@,
{
    let mut r: Vec<String> = Vec::new();
    let mut i: usize = 0;
    while i < v.len()
        invariant
            i <= v@.len(),
            r@ == v@.take(i as int),
        decreases v@.len() - i,
    {
        r.push(v[i].clone());
        proof {
            assert(v@.take(i as int + 1) =~= v@.take(i as int).push(v@[i as int]));
        }
        i = i + 1;
    }
    proof {
        assert(v@.take(v@.len() as int) =~= v@);
    }
    r
}

impl Clone for PythonEnvironment {
    fn clone(&self) -> (r: Self)
        ensures
            r.name == self.name,
            r.python_executable_path == self.python_executable_path,
            r.category == self.category,
            r.version == self.version,
            r.env_path == self.env_path,
            r.sys_prefix_path == self.sys_prefix_path,
            r.env_manager == self.env_manager,
            r.project_path == self.project_path,
            match self.python_run_command {
                Some(cmd) => r.python_run_command matches Some(c) && c@ == cmd@,
                None => r.python_run_command is None,
            },
    {
        Self {
            name: clone_opt_string(&self.name),
            python_executable_path: clone_opt_path(&self.python_executable_path),
            category: self.category,
            version: clone_opt_string(&self.version),
            env_path: clone_opt_path(&self.env_path),
            sys_prefix_path: clone_opt_path(&self.sys_prefix_path),
            env_manager: match &self.env_manager {
                Some(m) => Some(m.clone()),
                None => None,
            },
            python_run_command: match &self.python_run_command {
                Some(cmd) => Some(clone_string_vec(cmd)),
                None => None,
            },
            project_path: clone_opt_path(&self.project_path),
        }
    }
}

/// The envelope announcing a Python environment.
#[derive(Debug)]
pub struct PythonEnvironmentMessage {
    pub jsonrpc: String,
    pub method: String,
    pub params: PythonEnvironment,
}

impl PythonEnvironmentMessage {
    pub fn new(params: PythonEnvironment) -> (r: Self)
        ensures
            r.jsonrpc@ == "2.0"@,
            r.method@ == "pythonEnvironment"@,
            r.params == params,
    {
        Self {
            jsonrpc: String::from_str("2.0"),
            method: String::from_str("pythonEnvironment"),
            params,
        }
    }
}

/// The termination envelope. Its params are always omitted from the wire.
#[derive(Debug)]
pub struct ExitMessage {
    pub jsonrpc: String,
    pub method: String,
    pub params: Option<()>,
}

impl ExitMessage {
    pub fn new() -> (r: Self)
        ensures
            r.jsonrpc@ == "2.0"@,
            r.method@ == "exit"@,
            r.params is None,
    {
        Self { jsonrpc: String::from_str("2.0"), method: String::from_str("exit"), params: None }
    }
}

/// The identity key of a manager: the text of its location, if any.
pub open spec fn spec_manager_key(m: EnvManager) -> Option<Seq<char>> {
    match m.executable_path.text {
        Some(s) => Some(s@),
        None => None,
    }
}

/// The identity key of an environment: the interpreter path's text if that
/// path is present (nothing when it has no text), else the environment
/// root's text if present, else nothing.
pub open spec fn spec_environment_key(e: PythonEnvironment) -> Option<Seq<char>> {
    match e.python_executable_path {
        Some(p) => match p.text {
            Some(s) => Some(s@),
            None => None,
        },
        None => match e.env_path {
            Some(p) => match p.text {
                Some(s) => Some(s@),
                None => None,
            },
            None => None,
        },
    }
}

/// Identity key of a manager, as text.
pub fn get_manager_key(manager: &EnvManager) -> (r: Option<String>)
    ensures
        match r {
            Some(s) => spec_manager_key(*manager) == Some(s@),
            None => spec_manager_key(*manager) is None,
        },
{
    match &manager.executable_path.text {
        Some(s) => Some(s.clone()),
        None => None,
    }
}

/// Identity key of an environment, as text.
pub fn get_environment_key(env: &PythonEnvironment) -> (r: Option<String>)
    ensures
        match r {
            Some(s) => spec_environment_key(*env) == Some(s@),
            None => spec_environment_key(*env) is None,
        },
{
    match &env.python_executable_path {
        Some(p) => match &p.text {
            Some(s) => Some(s.clone()),
            None => None,
        },
        None => match &env.env_path {
            Some(p) => match &p.text {
                Some(s) => Some(s.clone()),
                None => None,
            },
            None => None,
        },
    }
}

/// A manager can be serialized exactly when its location has text.
pub open spec fn manager_serializable(m: EnvManager) -> bool {
    m.executable_path.text is Some
}

/// An environment can be serialized when every path it carries has text.
pub open spec fn environment_serializable(e: PythonEnvironment) -> bool {
    &&& (e.python_executable_path matches Some(p) ==> p.text is Some)
    &&& (e.env_path matches Some(p) ==> p.text is Some)
    &&& (e.sys_prefix_path matches Some(p) ==> p.text is Some)
    &&& (e.project_path matches Some(p) ==> p.text is Some)
    &&& (e.env_manager matches Some(m) ==> manager_serializable(m))
}

/// Wire name of a manager tool.
pub open spec fn tool_name(t: EnvManagerType) -> Seq<char> {
    match t {
        EnvManagerType::Conda => "conda"@,
        EnvManagerType::Pyenv => "pyenv"@,
    }
}

/// Wire name of an environment category.
pub open spec fn category_name(c: PythonEnvironmentCategory) -> Seq<char> {
    match c {
        PythonEnvironmentCategory::System => "system"@,
        PythonEnvironmentCategory::Homebrew => "homebrew"@,
        PythonEnvironmentCategory::Conda => "conda"@,
        PythonEnvironmentCategory::Pyenv => "pyenv"@,
        PythonEnvironmentCategory::PyenvVirtualEnv => "pyenvVirtualEnv"@,
        PythonEnvironmentCategory::WindowsStore => "windowsStore"@,
        PythonEnvironmentCategory::WindowsRegistry => "windowsRegistry"@,
        PythonEnvironmentCategory::Pipenv => "pipenv"@,
        PythonEnvironmentCategory::VirtualEnvWrapper => "virtualEnvWrapper"@,
        PythonEnvironmentCategory::Venv => "venv"@,
        PythonEnvironmentCategory::VirtualEnv => "virtualEnv"@,
    }
}

/// The contribution of an optional text field: nothing when absent.
pub open spec fn opt_string_json(prefix: Seq<char>, v: Option<String>) -> Seq<char> {
    match v {
        Some(s) => prefix + json_string_of(s@),
        None => Seq::empty(),
    }
}

/// The contribution of an optional path field: nothing when the path is
/// absent or has no text.
pub open spec fn opt_path_json(prefix: Seq<char>, v: Option<PathText>) -> Seq<char> {
    match v {
        Some(p) => match p.text {
            Some(s) => prefix + json_string_of(s@),
            None => Seq::empty(),
        },
        None => Seq::empty(),
    }
}

/// The JSON params object of a manager report.
pub open spec fn manager_params_json(m: EnvManager) -> Seq<char> {
    "{\"executablePath\":"@ + (match m.executable_path.text {
        Some(s) => json_string_of(s@),
        None => Seq::empty(),
    }) + ",\"tool\":\""@ + tool_name(m.tool) + "\""@ + opt_string_json(",\"version\":"@, m.version)
        + "}"@
}

/// The JSON params object of an environment report.
pub open spec fn environment_params_json(e: PythonEnvironment) -> Seq<char> {
    "{\"category\":\""@ + category_name(e.category) + "\""@ + opt_string_json(",\"name\":"@, e.name)
        + opt_path_json(",\"pythonExecutablePath\":"@, e.python_executable_path)
        + opt_string_json(",\"version\":"@, e.version) + opt_path_json(",\"envPath\":"@, e.env_path)
        + opt_path_json(",\"sysPrefixPath\":"@, e.sys_prefix_path) + (match e.env_manager {
        Some(m) => ",\"envManager\":"@ + manager_params_json(m),
        None => Seq::empty(),
    }) + (match e.python_run_command {
        Some(cmd) => ",\"pythonRunCommand\":"@ + json_string_array(cmd.deep_view()),
        None => Seq::empty(),
    }) + opt_path_json(",\"projectPath\":"@, e.project_path) + "}"@
}

/// The body of the envelope a manager report puts on the wire.
pub open spec fn manager_report_json(m: EnvManager) -> Seq<char> {
    envelope_json("2.0"@, "envManager"@, manager_params_json(m))
}

/// The body of the envelope an environment report puts on the wire.
pub open spec fn environment_report_json(e: PythonEnvironment) -> Seq<char> {
    envelope_json("2.0"@, "pythonEnvironment"@, environment_params_json(e))
}

/// The body of the termination envelope.
pub open spec fn exit_report_json() -> Seq<char> {
    envelope_json_no_params("2.0"@, "exit"@)
}

fn push_manager_params(out: &mut String, m: &EnvManager)
    requires
        manager_serializable(*m),
    ensures
        final(out)@ == old(out)@ + manager_params_json(*m),
{
    out.append("{\"executablePath\":");
    if let Some(s) = &m.executable_path.text {
        push_json_string(out, s.as_str());
    }
    out.append(",\"tool\":\"");
    match m.tool {
        EnvManagerType::Conda => out.append("conda"),
        EnvManagerType::Pyenv => out.append("pyenv"),
    }
    out.append("\"");
    if let Some(v) = &m.version {
        out.append(",\"version\":");
        push_json_string(out, v.as_str());
    }
    out.append("}");
    proof {
        assert(out@ =~= old(out)@ + manager_params_json(*m));
    }
}

fn push_category(out: &mut String, c: PythonEnvironmentCategory)
    ensures
        final(out)@ == old(out)@ + category_name(c),
{
    match c {
        PythonEnvironmentCategory::System => out.append("system"),
        PythonEnvironmentCategory::Homebrew => out.append("homebrew"),
        PythonEnvironmentCategory::Conda => out.append("conda"),
        PythonEnvironmentCategory::Pyenv => out.append("pyenv"),
        PythonEnvironmentCategory::PyenvVirtualEnv => out.append("pyenvVirtualEnv"),
        PythonEnvironmentCategory::WindowsStore => out.append("windowsStore"),
        PythonEnvironmentCategory::WindowsRegistry => out.append("windowsRegistry"),
        PythonEnvironmentCategory::Pipenv => out.append("pipenv"),
        PythonEnvironmentCategory::VirtualEnvWrapper => out.append("virtualEnvWrapper"),
        PythonEnvironmentCategory::Venv => out.append("venv"),
        PythonEnvironmentCategory::VirtualEnv => out.append("virtualEnv"),
    }
}

fn push_opt_string(out: &mut String, prefix: &str, v: &Option<String>)
    ensures
        final(out)@ == old(out)@ + opt_string_json(prefix@, *v),
{
    if let Some(s) = v {
        out.append(prefix);
        push_json_string(out, s.as_str());
    }
}

fn push_opt_path(out: &mut String, prefix: &str, v: &Option<PathText>)
    ensures
        final(out)@ == old(out)@ + opt_path_json(prefix@, *v),
{
    if let Some(p) = v {
        if let Some(s) = &p.text {
            out.append(prefix);
            push_json_string(out, s.as_str());
        }
    }
}

fn push_opt_manager(out: &mut String, v: &Option<EnvManager>)
    requires
        *v matches Some(m) ==> manager_serializable(m),
    ensures
        final(out)@ == old(out)@ + (match *v {
            Some(m) => ",\"envManager\":"@ + manager_params_json(m),
            None => Seq::empty(),
        }),
{
    if let Some(m) = v {
        out.append(",\"envManager\":");
        push_manager_params(out, m);
    }
}

fn push_opt_run_command(out: &mut String, v: &Option<Vec<String>>)
    ensures
        final(out)@ == old(out)@ + (match *v {
            Some(cmd) => ",\"pythonRunCommand\":"@ + json_string_array(cmd.deep_view()),
            None => Seq::empty(),
        }),
{
    if let Some(cmd) = v {
        out.append(",\"pythonRunCommand\":");
        push_json_string_array(out, cmd);
    }
}

#[verifier::rlimit(100)]
fn environment_params_string(e: &PythonEnvironment) -> (r: String)
    requires
        environment_serializable(*e),
    ensures
        r@ == environment_params_json(*e),
{
    let mut out = String::new();
    out.append("{\"category\":\"");
    proof {
        assert(Seq::<char>::empty() + "{\"category\":\""@ =~= "{\"category\":\""@);
    }
    push_category(&mut out, e.category);
    out.append("\"");
    push_opt_string(&mut out, ",\"name\":", &e.name);
    push_opt_path(&mut out, ",\"pythonExecutablePath\":", &e.python_executable_path);
    push_opt_string(&mut out, ",\"version\":", &e.version);
    push_opt_path(&mut out, ",\"envPath\":", &e.env_path);
    push_opt_path(&mut out, ",\"sysPrefixPath\":", &e.sys_prefix_path);
    push_opt_manager(&mut out, &e.env_manager);
    push_opt_run_command(&mut out, &e.python_run_command);
    push_opt_path(&mut out, ",\"projectPath\":", &e.project_path);
    out.append("}");
    out
}

/// Serializes a manager envelope to its canonical compact JSON text.
pub fn serialize_env_manager_message(msg: &EnvManagerMessage) -> (r: String)
    requires
        manager_serializable(msg.params),
    ensures
        r@ == envelope_json(msg.jsonrpc@, msg.method@, manager_params_json(msg.params)),
{
    let mut out = String::new();
    out.append("{\"jsonrpc\":");
    push_json_string(&mut out, msg.jsonrpc.as_str());
    out.append(",\"method\":");
    push_json_string(&mut out, msg.method.as_str());
    out.append(",\"params\":");
    push_manager_params(&mut out, &msg.params);
    out.append("}");
    proof {
        assert(out@ =~= envelope_json(msg.jsonrpc@, msg.method@, manager_params_json(msg.params)));
    }
    out
}

/// Serializes an environment envelope to its canonical compact JSON text.
pub fn serialize_python_environment_message(msg: &PythonEnvironmentMessage) -> (r: String)
    requires
        environment_serializable(msg.params),
    ensures
        r@ == envelope_json(msg.jsonrpc@, msg.method@, environment_params_json(msg.params)),
{
    let mut out = String::new();
    out.append("{\"jsonrpc\":");
    push_json_string(&mut out, msg.jsonrpc.as_str());
    out.append(",\"method\":");
    push_json_string(&mut out, msg.method.as_str());
    out.append(",\"params\":");
    let params = environment_params_string(&msg.params);
    out.append(params.as_str());
    out.append("}");
    proof {
        assert(out@ =~= envelope_json(
            msg.jsonrpc@,
            msg.method@,
            environment_params_json(msg.params),
        ));
    }
    out
}

/// Serializes the termination envelope; its params are omitted.
pub fn serialize_exit_message(msg: &ExitMessage) -> (r: String)
    ensures
        r@ == envelope_json_no_params(msg.jsonrpc@, msg.method@),
{
    let mut out = String::new();
    out.append("{\"jsonrpc\":");
    push_json_string(&mut out, msg.jsonrpc.as_str());
    out.append(",\"method\":");
    push_json_string(&mut out, msg.method.as_str());
    out.append("}");
    proof {
        assert(out@ =~= envelope_json_no_params(msg.jsonrpc@, msg.method@));
    }
    out
}

/// Abstract dispatcher state: the identity keys already announced for
/// managers and for environments, and the text written to the output
/// channel so far.
pub struct DispatcherState {
    pub managers: Set<Seq<char>>,
    pub environments: Set<Seq<char>>,
    pub output: Seq<char>,
}

/// The set of key texts held by a sequence of key strings.
pub open spec fn string_set(v: Seq<String>) -> Set<Seq<char>> {
    Set::new(|k: Seq<char>| exists|i: int| 0 <= i < v.len() && v[i]@ == k)
}

proof fn lemma_string_set_push(v: Seq<String>, s: String)
    ensures
        string_set(v.push(s)) == string_set(v).insert(s@),
{
    assert forall|k: Seq<char>|
        string_set(v.push(s)).contains(k) implies string_set(v).insert(s@).contains(k) by {
        let i = choose|i: int| 0 <= i < v.push(s).len() && v.push(s)[i]@ == k;
        if i < v.len() {
            assert(v[i]@ == k);
        } else {
            assert(v.push(s)[i] == s);
        }
    }
    assert forall|k: Seq<char>|
        string_set(v).insert(s@).contains(k) implies string_set(v.push(s)).contains(k) by {
        if string_set(v).contains(k) {
            let i = choose|i: int| 0 <= i < v.len() && v[i]@ == k;
            assert(v.push(s)[i]@ == k);
        } else {
            assert(v.push(s)[v.len() as int]@ == k);
        }
    }
    assert(string_set(v.push(s)) =~= string_set(v).insert(s@));
}

fn contains_key(keys: &Vec<String>, key: &String) -> (r: bool)
    ensures
        r == string_set(keys@).contains(key@),
{
    let mut i: usize = 0;
    while i < keys.len()
        invariant
            i <= keys@.len(),
            forall|j: int| 0 <= j < i ==> keys@[j]@ != key@,
        decreases keys@.len() - i,
    {
        if keys[i] == *key {
            proof {
                assert(keys@[i as int]@ == key@);
            }
            return true;
        }
        i = i + 1;
    }
    proof {
        assert(!string_set(keys@).contains(key@));
    }
    false
}

/// The state after a manager report: a no-op without a key or for a key
/// already seen; otherwise the key is recorded and one manager frame is
/// appended to the output.
pub open spec fn spec_report_manager(s: DispatcherState, m: EnvManager) -> DispatcherState {
    match spec_manager_key(m) {
        None => s,
        Some(k) => if s.managers.contains(k) {
            s
        } else {
            DispatcherState {
                managers: s.managers.insert(k),
                environments: s.environments,
                output: s.output + frame_text(manager_report_json(m)),
            }
        },
    }
}

/// The state after an environment report: a no-op without a key; otherwise
/// an environment frame is appended for a newly seen key, and in either case
/// the owning manager, when present, is forwarded to manager reporting.
pub open spec fn spec_report_environment(s: DispatcherState, e: PythonEnvironment) -> DispatcherState {
    match spec_environment_key(e) {
        None => s,
        Some(k) => {
            let s1 = if s.environments.contains(k) {
                s
            } else {
                DispatcherState {
                    managers: s.managers,
                    environments: s.environments.insert(k),
                    output: s.output + frame_text(environment_report_json(e)),
                }
            };
            match e.env_manager {
                Some(m) => spec_report_manager(s1, m),
                None => s1,
            }
        },
    }
}

/// The state after a termination report: one exit frame is appended,
/// unconditionally.
pub open spec fn spec_exit(s: DispatcherState) -> DispatcherState {
    DispatcherState { output: s.output + frame_text(exit_report_json()), ..s }
}

/// A dispatcher of reports to an output channel.
pub trait MessageDispatcher: Sized {
    /// Abstract state of the dispatcher.
    spec fn state(&self) -> DispatcherState;

    /// Pure lookup: has an environment with this probe's executable path
    /// already been reported? False for an unrepresentable path.
    fn was_environment_reported(&self, env: &PythonEnv) -> (r: bool)
        ensures
            r == (match env.executable.text {
                Some(s) => self.state().environments.contains(s@),
                None => false,
            }),
    ;

    /// Reports a manager, deduplicated by its identity key.
    fn report_environment_manager(&mut self, env: EnvManager)
        ensures
            final(self).state() == spec_report_manager(old(self).state(), env),
    ;

    /// Reports an environment, deduplicated by its identity key, and always
    /// forwards its owning manager when one is present.
    fn report_environment(&mut self, env: PythonEnvironment)
        requires
            (spec_environment_key(env) is Some && !old(self).state().environments.contains(
                spec_environment_key(env).unwrap(),
            )) ==> environment_serializable(env),
        ensures
            final(self).state() == spec_report_environment(old(self).state(), env),
    ;

    /// Emits one termination envelope; never deduplicated.
    fn exit(&mut self)
        ensures
            final(self).state() == spec_exit(old(self).state()),
    ;
}

/// The dispatcher: two growing sets of identity keys and the output channel
/// text not yet handed to the writer.
pub struct JsonRpcDispatcher {
    reported_managers: Vec<String>,
    reported_environments: Vec<String>,
    output: String,
}

impl View for JsonRpcDispatcher {
    type V = DispatcherState;

    closed spec fn view(&self) -> DispatcherState {
        DispatcherState {
            managers: string_set(self.reported_managers@),
            environments: string_set(self.reported_environments@),
            output: self.output@,
        }
    }
}

impl JsonRpcDispatcher {
    /// Hands over everything written to the channel since the last call and
    /// leaves the channel empty; the key sets are untouched.
    pub fn take_output(&mut self) -> (r: String)
        ensures
            r@ == old(self)@.output,
            final(self)@ == (DispatcherState { output: Seq::<char>::empty(), ..old(self)@ }),
    {
        let r = self.output.clone();
        self.output = String::new();
        r
    }
}

impl MessageDispatcher for JsonRpcDispatcher {
    open spec fn state(&self) -> DispatcherState {
        self@
    }

    fn was_environment_reported(&self, env: &PythonEnv) -> (r: bool) {
        match &env.executable.text {
            Some(key) => contains_key(&self.reported_environments, key),
            None => false,
        }
    }

    fn report_environment_manager(&mut self, env: EnvManager) {
        match get_manager_key(&env) {
            Some(key) => {
                if !contains_key(&self.reported_managers, &key) {
                    proof {
                        lemma_string_set_push(self.reported_managers@, key);
                    }
                    self.reported_managers.push(key);
                    let msg = EnvManagerMessage::new(env);
                    let body = serialize_env_manager_message(&msg);
                    let frame = frame_message(body.as_str());
                    self.output.append(frame.as_str());
                    proof {
                        assert(self@ == spec_report_manager(old(self)@, env));
                    }
                }
            },
            None => {},
        }
    }

    fn report_environment(&mut self, env: PythonEnvironment) {
        match get_environment_key(&env) {
            Some(key) => {
                let seen = contains_key(&self.reported_environments, &key);
                let msg = PythonEnvironmentMessage::new(env);
                if !seen {
                    proof {
                        lemma_string_set_push(self.reported_environments@, key);
                    }
                    self.reported_environments.push(key);
                    let body = serialize_python_environment_message(&msg);
                    let frame = frame_message(body.as_str());
                    self.output.append(frame.as_str());
                }
                if let Some(manager) = msg.params.env_manager {
                    self.report_environment_manager(manager);
                }
                proof {
                    assert(self@ == spec_report_environment(old(self)@, env));
                }
            },
            None => {},
        }
    }

    fn exit(&mut self) {
        let msg = ExitMessage::new();
        let body = serialize_exit_message(&msg);
        let frame = frame_message(body.as_str());
        self.output.append(frame.as_str());
        proof {
            assert(self@ == spec_exit(old(self)@));
        }
    }
}

/// A fresh dispatcher: nothing reported, nothing written.
pub fn create_dispatcher() -> (r: JsonRpcDispatcher)
    ensures
        r@ == (DispatcherState {
            managers: Set::<Seq<char>>::empty(),
            environments: Set::<Seq<char>>::empty(),
            output: Seq::<char>::empty(),
        }),
{
    let r = JsonRpcDispatcher {
        reported_managers: Vec::new(),
        reported_environments: Vec::new(),
        output: String::new(),
    };
    proof {
        assert(string_set(Seq::<String>::empty()) =~= Set::<Seq<char>>::empty());
        assert(r@.managers =~= Set::<Seq<char>>::empty());
        assert(r@.environments =~= Set::<Seq<char>>::empty());
    }
    r
}

/// The state after a sequence of manager reports, first report first.
pub open spec fn run_report_managers(s: DispatcherState, ms: Seq<EnvManager>) -> DispatcherState
    decreases ms.len(),
{
    if ms.len() == 0 {
        s
    } else {
        run_report_managers(spec_report_manager(s, ms[0]), ms.drop_first())
    }
}

proof fn lemma_seen_manager_is_silent(s: DispatcherState, ms: Seq<EnvManager>, k: Seq<char>)
    requires
        forall|i: int| 0 <= i < ms.len() ==> spec_manager_key(ms[i]) == Some(k),
        s.managers.contains(k),
    ensures
        run_report_managers(s, ms) == s,
    decreases ms.len(),
{
    if ms.len() > 0 {
        assert(spec_manager_key(ms[0]) == Some(k));
        assert(spec_report_manager(s, ms[0]) == s);
        assert forall|i: int| 0 <= i < ms.drop_first().len() implies spec_manager_key(
            ms.drop_first()[i],
        ) == Some(k) by {
            assert(ms.drop_first()[i] == ms[i + 1]);
        }
        lemma_seen_manager_is_silent(s, ms.drop_first(), k);
    }
}

/// Law: over any sequence of manager reports whose values all carry the same
/// identity key, starting from a state where that key is unseen, exactly one
/// manager envelope is emitted — the first report's — and only that key is
/// added to the manager set.
pub proof fn lemma_manager_reported_once(s: DispatcherState, ms: Seq<EnvManager>, k: Seq<char>)
    requires
        ms.len() > 0,
        forall|i: int| 0 <= i < ms.len() ==> spec_manager_key(ms[i]) == Some(k),
        !s.managers.contains(k),
    ensures
        run_report_managers(s, ms).output == s.output + frame_text(manager_report_json(ms[0])),
        run_report_managers(s, ms).managers == s.managers.insert(k),
        run_report_managers(s, ms).environments == s.environments,
{
    let s1 = spec_report_manager(s, ms[0]);
    assert(s1.managers.contains(k));
    assert forall|i: int| 0 <= i < ms.drop_first().len() implies spec_manager_key(
        ms.drop_first()[i],
    ) == Some(k) by {
        assert(ms.drop_first()[i] == ms[i + 1]);
    }
    lemma_seen_manager_is_silent(s1, ms.drop_first(), k);
}

/// Law: an environment with no identity key is dropped silently; the state,
/// including the output channel, does not change.
pub proof fn lemma_unidentified_environment_is_dropped(s: DispatcherState, e: PythonEnvironment)
    requires
        spec_environment_key(e) is None,
    ensures
        spec_report_environment(s, e) == s,
{
}

/// Law: reporting the same environment a second time changes nothing: the
/// environment envelope and any manager envelope are emitted at most once
/// across the two calls, even though the owning manager is forwarded both
/// times.
pub proof fn lemma_report_environment_idempotent(s: DispatcherState, e: PythonEnvironment)
    ensures
        spec_report_environment(spec_report_environment(s, e), e) == spec_report_environment(s, e),
{
    match spec_environment_key(e) {
        None => {},
        Some(k) => {
            let s1 = if s.environments.contains(k) {
                s
            } else {
                DispatcherState {
                    managers: s.managers,
                    environments: s.environments.insert(k),
                    output: s.output + frame_text(environment_report_json(e)),
                }
            };
            assert(s1.environments.contains(k));
            match e.env_manager {
                None => {},
                Some(m) => {
                    let t = spec_report_manager(s1, m);
                    assert(t.environments == s1.environments);
                    match spec_manager_key(m) {
                        None => {},
                        Some(mk) => {
                            assert(t.managers.contains(mk));
                            assert(spec_report_manager(t, m) == t);
                        },
                    }
                },
            }
        },
    }
}

/// Law: the first report of an environment whose identity key is unseen
/// appends exactly one environment frame, followed by exactly one manager
/// frame when the owning manager is present with an unseen key of its own,
/// and records the environment's key.
pub proof fn lemma_first_environment_report(s: DispatcherState, e: PythonEnvironment, k: Seq<char>)
    requires
        spec_environment_key(e) == Some(k),
        !s.environments.contains(k),
    ensures
        spec_report_environment(s, e).output == (match e.env_manager {
            Some(m) => if spec_manager_key(m) is Some && !s.managers.contains(
                spec_manager_key(m).unwrap(),
            ) {
                s.output + frame_text(environment_report_json(e)) + frame_text(
                    manager_report_json(m),
                )
            } else {
                s.output + frame_text(environment_report_json(e))
            },
            None => s.output + frame_text(environment_report_json(e)),
        }),
        spec_report_environment(s, e).environments == s.environments.insert(k),
{
}

/// Law: an environment report with identity key `k` always leaves `k` in the
/// environment key set, so a later probe lookup for the same path answers
/// true.
pub proof fn lemma_report_marks_environment(s: DispatcherState, e: PythonEnvironment, k: Seq<char>)
    requires
        spec_environment_key(e) == Some(k),
    ensures
        spec_report_environment(s, e).environments.contains(k),
{
}

proof fn lemma_prefix_append(a: Seq<char>, b: Seq<char>)
    ensures
        a.is_prefix_of(a + b),
{
    assert(a =~= (a + b).subrange(0, a.len() as int));
}

/// Law: a manager report never shrinks the state: the key sets only grow,
/// the environment set is untouched, and everything already written stays a
/// prefix of the output.
pub proof fn lemma_report_manager_grows(s: DispatcherState, m: EnvManager)
    ensures
        s.managers.subset_of(spec_report_manager(s, m).managers),
        spec_report_manager(s, m).environments == s.environments,
        s.output.is_prefix_of(spec_report_manager(s, m).output),
{
    assert(s.output =~= s.output.subrange(0, s.output.len() as int));
    match spec_manager_key(m) {
        None => {},
        Some(k) => {
            if !s.managers.contains(k) {
                lemma_prefix_append(s.output, frame_text(manager_report_json(m)));
            }
        },
    }
}

/// Law: an environment report never shrinks the state: the key sets only
/// grow and everything already written stays a prefix of the output.
pub proof fn lemma_report_environment_grows(s: DispatcherState, e: PythonEnvironment)
    ensures
        s.managers.subset_of(spec_report_environment(s, e).managers),
        s.environments.subset_of(spec_report_environment(s, e).environments),
        s.output.is_prefix_of(spec_report_environment(s, e).output),
{
    assert(s.output =~= s.output.subrange(0, s.output.len() as int));
    match spec_environment_key(e) {
        None => {},
        Some(k) => {
            let s1 = if s.environments.contains(k) {
                s
            } else {
                DispatcherState {
                    managers: s.managers,
                    environments: s.environments.insert(k),
                    output: s.output + frame_text(environment_report_json(e)),
                }
            };
            lemma_prefix_append(s.output, frame_text(environment_report_json(e)));
            match e.env_manager {
                None => {},
                Some(m) => {
                    lemma_report_manager_grows(s1, m);
                    match spec_manager_key(m) {
                        None => {},
                        Some(mk) => {
                            if !s1.managers.contains(mk) {
                                assert(s.output =~= (s1.output + frame_text(
                                    manager_report_json(m),
                                )).subrange(0, s.output.len() as int));
                            }
                        },
                    }
                },
            }
        },
    }
}

/// Law: termination never touches the key sets, and everything already
/// written stays a prefix of the output.
pub proof fn lemma_exit_grows(s: DispatcherState)
    ensures
        spec_exit(s).managers == s.managers,
        spec_exit(s).environments == s.environments,
        s.output.is_prefix_of(spec_exit(s).output),
{
    lemma_prefix_append(s.output, frame_text(exit_report_json()));
}

/// Law: termination is never deduplicated: every call appends one more
/// termination frame, so two calls append two.
pub proof fn lemma_exit_emits_each_call(s: DispatcherState)
    ensures
        spec_exit(s).output == s.output + frame_text(exit_report_json()),
        spec_exit(spec_exit(s)).output == s.output + frame_text(exit_report_json()) + frame_text(
            exit_report_json(),
        ),
{
}

} // verus!
