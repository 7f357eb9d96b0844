//! The files Periphery writes for a deployment or a build (environment
//! file, Dockerfile, build secrets), planned here and written by the
//! caller: where each goes, what it holds, and what is logged.
use vstd::prelude::*;

use crate::build_args::EnvironmentVar;
use crate::text::contains_char;

verus! {

// ---------------------------------------------------------------------
// Paths (std::path)
// ---------------------------------------------------------------------

/// What `Path::join` makes of `base` and `rest`.
pub uninterp spec fn path_joined(base: Seq<char>, rest: Seq<char>) -> Seq<char>;

/// What collecting the components of a path makes of it (repeated
/// separators and `.` components dropped).
pub uninterp spec fn path_normalized(path: Seq<char>) -> Seq<char>;

/// The `Debug` form of a path (quoted, with escapes).
pub uninterp spec fn path_debug(path: Seq<char>) -> Seq<char>;

/// Calls `Path::join` on `base` and `rest`, and returns the joined path
/// as a string. The contract only names the result (`path_joined`): the
/// same arguments give the same path.
#[verifier::external_body]
fn join_path(base: &str, rest: &str) -> (joined: String)
    ensures
        joined@ == path_joined(base@, rest@),
{
    std::path::Path::new(base).join(rest).to_string_lossy().into_owned()
}

/// Calls `Path::components` on `path` and collects them back into a
/// `PathBuf`, returned as a string. The contract only names the result
/// (`path_normalized`), a function of `path` alone.
#[verifier::external_body]
fn normalize_path(path: &str) -> (normalized: String)
    ensures
        normalized@ == path_normalized(path@),
{
    std::path::Path::new(path).components().collect::<std::path::PathBuf>().to_string_lossy().into_owned()
}

/// Formats `path` with `<Path as Debug>::fmt`. The contract only names
/// the result (`path_debug`), a function of `path` alone.
#[verifier::external_body]
fn debug_path(path: &str) -> (debug: String)
    ensures
        debug@ == path_debug(path@),
{
    format!("{:?}", std::path::Path::new(path))
}

// ---------------------------------------------------------------------
// Logs
// ---------------------------------------------------------------------

/// One stage of an operation's log.
#[derive(Debug)]
pub struct Log {
    pub stage: String,
    pub stdout: String,
    pub stderr: String,
    pub success: bool,
}

impl Log {
    /// A successful stage with `message` as its output.
    pub fn simple(stage: &str, message: String) -> (log: Log)
        ensures
            log.stage@ == stage@,
            log.stdout == message,
            log.stderr@ == Seq::<char>::empty(),
            log.success,
    {
        Log { stage: String::from_str(stage), stdout: message, stderr: String::new(), success: true }
    }

    /// A failed stage with `message` as its error output.
    pub fn error(stage: &str, message: String) -> (log: Log)
        ensures
            log.stage@ == stage@,
            log.stdout@ == Seq::<char>::empty(),
            log.stderr == message,
            !log.success,
    {
        Log { stage: String::from_str(stage), stdout: String::new(), stderr: message, success: false }
    }
}

/// A file to write, what to log when it is written, and the context of
/// the error when it is not.
#[derive(Debug)]
pub struct FileWrite {
    pub path: String,
    pub contents: String,
    pub stage: String,
    pub success_log: Log,
    pub failure_context: String,
}

/// A file write whose log lines name the file by its `Debug` form.
pub open spec fn file_write_spec(
    w: FileWrite,
    path: Seq<char>,
    contents: Seq<char>,
    stage: Seq<char>,
    success_prefix: Seq<char>,
    failure_prefix: Seq<char>,
) -> bool {
    &&& w.path@ == path
    &&& w.contents@ == contents
    &&& w.stage@ == stage
    &&& w.success_log.stage@ == stage
    &&& w.success_log.stdout@ == success_prefix + path_debug(path)
    &&& w.success_log.stderr@ == Seq::<char>::empty()
    &&& w.success_log.success
    &&& w.failure_context@ == failure_prefix + path_debug(path)
}

fn file_write(
    path: String,
    contents: String,
    stage: &str,
    success_prefix: &str,
    failure_prefix: &str,
) -> (w: FileWrite)
    ensures
        file_write_spec(w, path@, contents@, stage@, success_prefix@, failure_prefix@),
{
    let debug = debug_path(path.as_str());
    let mut success = String::from_str(success_prefix);
    success.append(debug.as_str());
    let mut failure_context = String::from_str(failure_prefix);
    failure_context.append(debug.as_str());
    FileWrite {
        path,
        contents,
        stage: String::from_str(stage),
        success_log: Log::simple(stage, success),
        failure_context,
    }
}

// ---------------------------------------------------------------------
// Environment file
// ---------------------------------------------------------------------

/// The file holds the environment text verbatim, with a newline added
/// when it does not end in one.
pub open spec fn env_file_text(environment: Seq<char>) -> Seq<char> {
    if environment.len() > 0 && environment.last() == '\n' {
        environment
    } else {
        environment.push('\n')
    }
}

/// The contents of the environment file for `environment`.
pub fn env_file_contents(environment: &str) -> (contents: String)
    ensures
        contents@ == env_file_text(environment@),
{
    let n = environment.unicode_len();
    let mut contents = String::from_str(environment);
    if n > 0 && environment.get_char(n - 1) == '\n' {
        contents
    } else {
        contents.append("\n");
        proof {
            reveal_strlit("\n");
        }
        contents
    }
}

/// What to do for an environment file.
pub enum EnvFilePlan {
    /// No environment text is given: the file at `path` is used when it
    /// already exists on the host as a file (written by the user), else
    /// there is no environment file.
    UseExistingFile { path: String },
    /// Write the environment file.
    Write(FileWrite),
}

pub open spec fn env_file_path(folder: Seq<char>, env_file_path: Seq<char>) -> Seq<char> {
    path_normalized(path_joined(folder, env_file_path))
}

/// Plans the environment file `env_file_path` (relative to `folder`) for
/// the raw environment text `environment`, which is passed through
/// untouched: the consumer (docker compose, or a shell sourcing the
/// file) is the sole judge of its syntax.
pub fn plan_env_file(environment: &str, folder: &str, env_file_path: &str) -> (plan: EnvFilePlan)
    ensures
        match plan {
            EnvFilePlan::UseExistingFile { path } => environment@.len() == 0 && path@
                == crate::files::env_file_path(folder@, env_file_path@),
            EnvFilePlan::Write(w) => environment@.len() > 0 && file_write_spec(
                w,
                crate::files::env_file_path(folder@, env_file_path@),
                env_file_text(environment@),
                "Write Environment File"@,
                "Environment file written to "@,
                "Failed to write environment file to "@,
            ),
        },
{
    let joined = join_path(folder, env_file_path);
    let path = normalize_path(joined.as_str());
    if environment.unicode_len() == 0 {
        return EnvFilePlan::UseExistingFile { path };
    }
    let contents = env_file_contents(environment);
    EnvFilePlan::Write(
        file_write(
            path,
            contents,
            "Write Environment File",
            "Environment file written to ",
            "Failed to write environment file to ",
        ),
    )
}

/// The environment file holds the environment text byte for byte, with
/// at most a newline added at its end; text that already ends in a
/// newline (LF or CRLF) is written as it is.
pub proof fn lemma_env_file_passes_text_through(environment: Seq<char>)
    ensures
        env_file_text(environment).subrange(0, environment.len() as int) == environment,
        env_file_text(environment).len() <= environment.len() + 1,
        env_file_text(environment).last() == '\n',
        environment.len() > 0 && environment.last() == '\n' ==> env_file_text(environment)
            == environment,
        env_file_text(env_file_text(environment)) == env_file_text(environment),
{
    assert(environment.push('\n').subrange(0, environment.len() as int) =~= environment);
    assert(environment.subrange(0, environment.len() as int) =~= environment);
}

// ---------------------------------------------------------------------
// Dockerfile
// ---------------------------------------------------------------------

/// The Dockerfile defined in the UI is empty.
#[derive(Clone, Copy, Debug, PartialEq, Eq, Structural)]
pub struct EmptyDockerfile;

impl EmptyDockerfile {
    pub fn message(&self) -> (text: &'static str)
        ensures
            text@ == "UI Defined dockerfile is empty"@,
    {
        "UI Defined dockerfile is empty"
    }

    /// The log stage under which the error is logged.
    pub fn stage(&self) -> (text: &'static str)
        ensures
            text@ == "Write Dockerfile"@,
    {
        "Write Dockerfile"
    }
}

/// Plans writing the UI defined `dockerfile` to `dockerfile_path`
/// (relative to `build_path`).
pub fn plan_dockerfile(build_path: &str, dockerfile_path: &str, dockerfile: &str) -> (plan: Result<
    FileWrite,
    EmptyDockerfile,
>)
    ensures
        match plan {
            Ok(w) => dockerfile@.len() > 0 && file_write_spec(
                w,
                path_normalized(path_joined(build_path@, dockerfile_path@)),
                dockerfile@,
                "Write Dockerfile"@,
                "Dockerfile contents written to "@,
                "Failed to write dockerfile contents to "@,
            ),
            Err(_) => dockerfile@.len() == 0,
        },
{
    if dockerfile.unicode_len() == 0 {
        return Err(EmptyDockerfile);
    }
    let joined = join_path(build_path, dockerfile_path);
    let path = normalize_path(joined.as_str());
    Ok(
        file_write(
            path,
            String::from_str(dockerfile),
            "Write Dockerfile",
            "Dockerfile contents written to ",
            "Failed to write dockerfile contents to ",
        ),
    )
}

// ---------------------------------------------------------------------
// Build secrets
// ---------------------------------------------------------------------

/// A build secret with a variable name docker cannot take.
#[derive(Debug)]
pub enum SecretArgError {
    EmptyVariable,
    VariableContainsEquals(String),
}

pub open spec fn secret_error_text(e: SecretArgError) -> Seq<char> {
    match e {
        SecretArgError::EmptyVariable => "secret variable cannot be empty string"@,
        SecretArgError::VariableContainsEquals(v) => "invalid variable "@ + v@
            + ". variable cannot contain '='"@,
    }
}

impl SecretArgError {
    pub fn message(&self) -> (text: String)
        ensures
            text@ == secret_error_text(*self),
    {
        match self {
            SecretArgError::EmptyVariable => String::from_str("secret variable cannot be empty string"),
            SecretArgError::VariableContainsEquals(v) => {
                let mut text = String::from_str("invalid variable ");
                text.append(v.as_str());
                text.append(". variable cannot contain '='");
                text
            },
        }
    }
}

/// Docker takes a secret id that is not empty and holds no `=`.
pub open spec fn valid_secret_variable(variable: Seq<char>) -> bool {
    variable.len() > 0 && !variable.contains('=')
}

/// The file a secret is mounted from.
pub open spec fn secret_path(build_dir: Seq<char>, variable: Seq<char>) -> Seq<char> {
    path_joined(build_dir, variable)
}

/// ` --secret id=VARIABLE,src=PATH`.
pub open spec fn secret_arg_text(variable: Seq<char>, path: Seq<char>) -> Seq<char> {
    " --secret id="@ + variable + ",src="@ + path
}

/// The `--secret` flags for all of `args`, in order.
pub open spec fn secret_args_text(args: Seq<EnvironmentVar>, build_dir: Seq<char>) -> Seq<char>
    decreases args.len(),
{
    if args.len() == 0 {
        Seq::empty()
    } else {
        secret_args_text(args.drop_last(), build_dir) + secret_arg_text(
            args.last().variable@,
            secret_path(build_dir, args.last().variable@),
        )
    }
}

/// One secret file to write before the build.
#[derive(Debug)]
pub struct SecretFileWrite {
    pub variable: String,
    pub path: String,
    pub contents: String,
    pub failure_context: String,
}

pub open spec fn secret_write_spec(w: SecretFileWrite, arg: EnvironmentVar, build_dir: Seq<char>) -> bool {
    let path = secret_path(build_dir, arg.variable@);
    &&& w.variable@ == arg.variable@
    &&& w.path@ == path
    &&& w.contents@ == arg.value@
    &&& w.failure_context@ == "Failed to write build secret "@ + arg.variable@ + " to "@ + path
}

/// The secret files to write, in order, and then the outcome: the
/// `--secret` flags, or the error for the first variable docker cannot
/// take (the secrets before it are written all the same).
#[derive(Debug)]
pub struct SecretArgsPlan {
    pub writes: Vec<SecretFileWrite>,
    pub outcome: Result<String, SecretArgError>,
}

/// Plans the build secrets `secret_args`, mounted from files in
/// `build_dir` (see <https://docs.docker.com/build/building/secrets/#using-build-secrets>).
/// The caller writes `writes` in order, stopping at the first failure
/// (reported with its `failure_context`), and otherwise returns `outcome`.
pub fn parse_secret_args(secret_args: &[EnvironmentVar], build_dir: &str) -> (plan: SecretArgsPlan)
    ensures
        plan.writes@.len() <= secret_args@.len(),
        forall|i: int|
            0 <= i < plan.writes@.len() ==> valid_secret_variable(
                #[trigger] secret_args@[i].variable@,
            ) && secret_write_spec(plan.writes@[i], secret_args@[i], build_dir@),
        match plan.outcome {
            Ok(flags) => plan.writes@.len() == secret_args@.len() && flags@ == secret_args_text(
                secret_args@,
                build_dir@,
            ),
            Err(e) => plan.writes@.len() < secret_args@.len() && !valid_secret_variable(
                secret_args@[plan.writes@.len() as int].variable@,
            ) && e == (if secret_args@[plan.writes@.len() as int].variable@.len() == 0 {
                SecretArgError::EmptyVariable
            } else {
                SecretArgError::VariableContainsEquals(
                    secret_args@[plan.writes@.len() as int].variable,
                )
            }),
        },
{
    let mut writes: Vec<SecretFileWrite> = Vec::new();
    let mut flags = String::new();
    let n = secret_args.len();
    for i in 0..n
        invariant
            n == secret_args@.len(),
            writes@.len() == i,
            forall|j: int|
                0 <= j < i ==> valid_secret_variable(#[trigger] secret_args@[j].variable@)
                    && secret_write_spec(writes@[j], secret_args@[j], build_dir@),
            flags@ == secret_args_text(secret_args@.take(i as int), build_dir@),
    {
        let arg = &secret_args[i];
        let variable = arg.variable.as_str();
        if variable.unicode_len() == 0 {
            return SecretArgsPlan { writes, outcome: Err(SecretArgError::EmptyVariable) };
        }
        if contains_char(variable, '=') {
            return SecretArgsPlan {
                writes,
                outcome: Err(SecretArgError::VariableContainsEquals(arg.variable.clone())),
            };
        }
        let path = join_path(build_dir, variable);
        let mut failure_context = String::from_str("Failed to write build secret ");
        failure_context.append(variable);
        failure_context.append(" to ");
        failure_context.append(path.as_str());
        let ghost before = flags@;
        flags.append(" --secret id=");
        flags.append(variable);
        flags.append(",src=");
        flags.append(path.as_str());
        proof {
            let taken = secret_args@.take(i + 1);
            assert(taken.drop_last() =~= secret_args@.take(i as int));
            assert(taken.last() == secret_args@[i as int]);
            assert(flags@ =~= before + secret_arg_text(arg.variable@, path@));
        }
        writes.push(
            SecretFileWrite {
                variable: arg.variable.clone(),
                path,
                contents: arg.value.clone(),
                failure_context,
            },
        );
    }
    assert(secret_args@.take(n as int) =~= secret_args@);
    SecretArgsPlan { writes, outcome: Ok(flags) }
}

} // verus!
