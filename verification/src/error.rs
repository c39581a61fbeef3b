use vstd::prelude::*;

verus! {

use vstd::string::StringExecFns;

/// Every failure the engine can signal, by kind. Paths are carried as
/// plain strings.
#[derive(Debug)]
pub enum Error {
    BadExtraVar(String),
    BadFsVar(String),
    BadInitProfile(String),
    BadKindArg(String),
    BadKindArgRender(String),
    BadManifest(String),
    BadParse(String),
    BadRegex(String),
    BadReply(String),
    BadTaskline(String, String),
    BadTaskInTaskset(String),
    BadVar(String),
    ChildStdin,
    CommandFailedExitCode(String),
    CommandFailedFailureMatches(String),
    CommandFailedSuccessMatches(String),
    EnsureAbsentVars(String, String),
    FailSetupIncusVolume(String),
    GetSrcFilename(String),
    InitManifestExists(String),
    NoArgument(String),
    NoEngine(String),
    NoFsVar(String),
    NoItemsVar(String),
    NoVolume(String),
    NoWorkers,
    NoWorkersForTask(String),
    Render(String),
    Spawn(String),
    TooDeep,
    TSort(String),
    UnknownVarKind(String),
    UnknownVarType(String),
    UnsupportedSpecialTask(String),
    UseTasklines(String, String),
    UseVars(String, String),
    User(String, i32, bool),
    WorkerSetupFailed(String),
    WrongArgumentType(String),
    WrongItemsJsonType(String),
    WrongItemsVarType(String),
    WrongValueType,
    WrongVarType(String, String),
}


/// The message each failure renders to.
pub open spec fn error_text_spec(e: Error) -> Seq<char> {
    match e {
        Error::BadExtraVar(a) => "extra var `"@ + a@ + "` does not have '=' to delimit name"@,
        Error::BadFsVar(a) => "fs var name should be alphanumeric, but get `"@ + a@ + "`"@,
        Error::BadInitProfile(a) => "failed to get init profile `"@ + a@ + "`"@,
        Error::BadKindArg(a) => "kind argument `"@ + a@ + "` does not have ':' to delimit name"@,
        Error::BadKindArgRender(a) => "kind argument `render` must be true or false, but get `"@ + a@ + "`"@,
        Error::BadManifest(a) => "bad path to manifest `"@ + a@ + "`"@,
        Error::BadParse(a) => "failed to parse variable `"@ + a@ + "`"@,
        Error::BadRegex(a) => "bad regular expression `"@ + a@ + "`"@,
        Error::BadReply(a) => "the driver answered out of order at `"@ + a@ + "`"@,
        Error::BadTaskline(a, b) => "failed to get taskline `"@ + a@ + "` from file `"@ + b@ + "`"@,
        Error::BadTaskInTaskset(a) => "failed to get task `"@ + a@ + "` from taskset"@,
        Error::BadVar(a) => "could not parse variable `"@ + a@ + "`"@,
        Error::ChildStdin => "child process stdin has not been captured"@,
        Error::CommandFailedExitCode(a) => "command `"@ + a@ + "` failed: return failure exit code"@,
        Error::CommandFailedFailureMatches(a) => "command `"@ + a@ + "` failed: match failure matches"@,
        Error::CommandFailedSuccessMatches(a) => "command `"@ + a@ + "` failed: don't match success matches"@,
        Error::EnsureAbsentVars(a, b) => "variables `"@ + a@ + "` are not set for taskline `"@ + b@ + "`"@,
        Error::FailSetupIncusVolume(a) => "failed to setup incus volume `"@ + a@ + "`"@,
        Error::GetSrcFilename(a) => "get task's src `"@ + a@ + "` has no filename"@,
        Error::InitManifestExists(a) => "trying to init manifest `"@ + a@ + "` that already exists"@,
        Error::NoArgument(a) => "required argument `"@ + a@ + "` is not set"@,
        Error::NoEngine(a) => "no engine provided to worker `"@ + a@ + "`"@,
        Error::NoFsVar(a) => "fs variable `"@ + a@ + "` does not exist"@,
        Error::NoItemsVar(a) => "items variable `"@ + a@ + "` does not set"@,
        Error::NoVolume(a) => "volume `"@ + a@ + "` is not defined"@,
        Error::NoWorkers => "workers should be set"@,
        Error::NoWorkersForTask(a) => "no workers match task `"@ + a@ + "`"@,
        Error::Render(a) => "failed to render template: "@ + a@,
        Error::Spawn(a) => "failed to run command: "@ + a@,
        Error::TooDeep => "taskline nesting is too deep"@,
        Error::TSort(a) => "failed tsort in "@ + a@,
        Error::UnknownVarKind(a) => "unknown variable kind `"@ + a@ + "`"@,
        Error::UnknownVarType(a) => "unknown variable type `"@ + a@ + "`"@,
        Error::UnsupportedSpecialTask(a) => "special task `"@ + a@ + "` does not work on this engine"@,
        Error::UseTasklines(a, b) => "cannot use tasklines `"@ + a@ + "` from the `"@ + b@ + "`"@,
        Error::UseVars(a, b) => "cannot use vars `"@ + a@ + "` from the `"@ + b@ + "`"@,
        Error::WorkerSetupFailed(a) => "failed to setup worker `"@ + a@ + "`"@,
        Error::WrongArgumentType(a) => "argument `"@ + a@ + "` has wrong type"@,
        Error::WrongItemsJsonType(a) => "items json `"@ + a@ + "` has wrong type"@,
        Error::WrongItemsVarType(a) => "items variable `"@ + a@ + "` has wrong type"@,
        Error::WrongValueType => "value has wrong type"@,
        Error::WrongVarType(a, b) => "variable `"@ + a@ + "` must be of type `"@ + b@ + "`"@,
        Error::User(m, _, _) => m@,
    }
}

/// Renders a failure as its message.
pub fn error_text(e: &Error) -> (r: String)
    ensures
        r@ == error_text_spec(*e),
{
    proof {
        reveal_strlit("`");
            reveal_strlit("` are not set for taskline `");
            reveal_strlit("` does not exist");
            reveal_strlit("` does not have ':' to delimit name");
            reveal_strlit("` does not have '=' to delimit name");
            reveal_strlit("` does not set");
            reveal_strlit("` does not work on this engine");
            reveal_strlit("` failed: don't match success matches");
            reveal_strlit("` failed: match failure matches");
            reveal_strlit("` failed: return failure exit code");
            reveal_strlit("` from file `");
            reveal_strlit("` from taskset");
            reveal_strlit("` from the `");
            reveal_strlit("` has no filename");
            reveal_strlit("` has wrong type");
            reveal_strlit("` is not defined");
            reveal_strlit("` is not set");
            reveal_strlit("` must be of type `");
            reveal_strlit("` that already exists");
            reveal_strlit("argument `");
            reveal_strlit("bad path to manifest `");
            reveal_strlit("bad regular expression `");
            reveal_strlit("cannot use tasklines `");
            reveal_strlit("cannot use vars `");
            reveal_strlit("child process stdin has not been captured");
            reveal_strlit("command `");
            reveal_strlit("could not parse variable `");
            reveal_strlit("extra var `");
            reveal_strlit("failed to get init profile `");
            reveal_strlit("failed to get task `");
            reveal_strlit("failed to get taskline `");
            reveal_strlit("failed to parse variable `");
            reveal_strlit("failed to render template: ");
            reveal_strlit("failed to run command: ");
            reveal_strlit("failed to setup incus volume `");
            reveal_strlit("failed to setup worker `");
            reveal_strlit("failed tsort in ");
            reveal_strlit("fs var name should be alphanumeric, but get `");
            reveal_strlit("fs variable `");
            reveal_strlit("get task's src `");
            reveal_strlit("items json `");
            reveal_strlit("items variable `");
            reveal_strlit("kind argument `");
            reveal_strlit("kind argument `render` must be true or false, but get `");
            reveal_strlit("no engine provided to worker `");
            reveal_strlit("no workers match task `");
            reveal_strlit("required argument `");
            reveal_strlit("special task `");
            reveal_strlit("taskline nesting is too deep");
            reveal_strlit("the driver answered out of order at `");
            reveal_strlit("trying to init manifest `");
            reveal_strlit("unknown variable kind `");
            reveal_strlit("unknown variable type `");
            reveal_strlit("value has wrong type");
            reveal_strlit("variable `");
            reveal_strlit("variables `");
            reveal_strlit("volume `");
            reveal_strlit("workers should be set");
    }
    let r: String = match e {
            Error::BadExtraVar(a) => {
                let mut t = "extra var `".to_owned();
                t.append(a.as_str());
                t.append("` does not have '=' to delimit name");
                t
            },
            Error::BadFsVar(a) => {
                let mut t = "fs var name should be alphanumeric, but get `".to_owned();
                t.append(a.as_str());
                t.append("`");
                t
            },
            Error::BadInitProfile(a) => {
                let mut t = "failed to get init profile `".to_owned();
                t.append(a.as_str());
                t.append("`");
                t
            },
            Error::BadKindArg(a) => {
                let mut t = "kind argument `".to_owned();
                t.append(a.as_str());
                t.append("` does not have ':' to delimit name");
                t
            },
            Error::BadKindArgRender(a) => {
                let mut t = "kind argument `render` must be true or false, but get `".to_owned();
                t.append(a.as_str());
                t.append("`");
                t
            },
            Error::BadManifest(a) => {
                let mut t = "bad path to manifest `".to_owned();
                t.append(a.as_str());
                t.append("`");
                t
            },
            Error::BadParse(a) => {
                let mut t = "failed to parse variable `".to_owned();
                t.append(a.as_str());
                t.append("`");
                t
            },
            Error::BadRegex(a) => {
                let mut t = "bad regular expression `".to_owned();
                t.append(a.as_str());
                t.append("`");
                t
            },
            Error::BadReply(a) => {
                let mut t = "the driver answered out of order at `".to_owned();
                t.append(a.as_str());
                t.append("`");
                t
            },
            Error::BadTaskline(a, b) => {
                let mut t = "failed to get taskline `".to_owned();
                t.append(a.as_str());
                t.append("` from file `");
                t.append(b.as_str());
                t.append("`");
                t
            },
            Error::BadTaskInTaskset(a) => {
                let mut t = "failed to get task `".to_owned();
                t.append(a.as_str());
                t.append("` from taskset");
                t
            },
            Error::BadVar(a) => {
                let mut t = "could not parse variable `".to_owned();
                t.append(a.as_str());
                t.append("`");
                t
            },
            Error::ChildStdin => {
                let mut t = "child process stdin has not been captured".to_owned();
                t
            },
            Error::CommandFailedExitCode(a) => {
                let mut t = "command `".to_owned();
                t.append(a.as_str());
                t.append("` failed: return failure exit code");
                t
            },
            Error::CommandFailedFailureMatches(a) => {
                let mut t = "command `".to_owned();
                t.append(a.as_str());
                t.append("` failed: match failure matches");
                t
            },
            Error::CommandFailedSuccessMatches(a) => {
                let mut t = "command `".to_owned();
                t.append(a.as_str());
                t.append("` failed: don't match success matches");
                t
            },
            Error::EnsureAbsentVars(a, b) => {
                let mut t = "variables `".to_owned();
                t.append(a.as_str());
                t.append("` are not set for taskline `");
                t.append(b.as_str());
                t.append("`");
                t
            },
            Error::FailSetupIncusVolume(a) => {
                let mut t = "failed to setup incus volume `".to_owned();
                t.append(a.as_str());
                t.append("`");
                t
            },
            Error::GetSrcFilename(a) => {
                let mut t = "get task's src `".to_owned();
                t.append(a.as_str());
                t.append("` has no filename");
                t
            },
            Error::InitManifestExists(a) => {
                let mut t = "trying to init manifest `".to_owned();
                t.append(a.as_str());
                t.append("` that already exists");
                t
            },
            Error::NoArgument(a) => {
                let mut t = "required argument `".to_owned();
                t.append(a.as_str());
                t.append("` is not set");
                t
            },
            Error::NoEngine(a) => {
                let mut t = "no engine provided to worker `".to_owned();
                t.append(a.as_str());
                t.append("`");
                t
            },
            Error::NoFsVar(a) => {
                let mut t = "fs variable `".to_owned();
                t.append(a.as_str());
                t.append("` does not exist");
                t
            },
            Error::NoItemsVar(a) => {
                let mut t = "items variable `".to_owned();
                t.append(a.as_str());
                t.append("` does not set");
                t
            },
            Error::NoVolume(a) => {
                let mut t = "volume `".to_owned();
                t.append(a.as_str());
                t.append("` is not defined");
                t
            },
            Error::NoWorkers => {
                let mut t = "workers should be set".to_owned();
                t
            },
            Error::NoWorkersForTask(a) => {
                let mut t = "no workers match task `".to_owned();
                t.append(a.as_str());
                t.append("`");
                t
            },
            Error::Render(a) => {
                let mut t = "failed to render template: ".to_owned();
                t.append(a.as_str());
                t
            },
            Error::Spawn(a) => {
                let mut t = "failed to run command: ".to_owned();
                t.append(a.as_str());
                t
            },
            Error::TooDeep => {
                let mut t = "taskline nesting is too deep".to_owned();
                t
            },
            Error::TSort(a) => {
                let mut t = "failed tsort in ".to_owned();
                t.append(a.as_str());
                t
            },
            Error::UnknownVarKind(a) => {
                let mut t = "unknown variable kind `".to_owned();
                t.append(a.as_str());
                t.append("`");
                t
            },
            Error::UnknownVarType(a) => {
                let mut t = "unknown variable type `".to_owned();
                t.append(a.as_str());
                t.append("`");
                t
            },
            Error::UnsupportedSpecialTask(a) => {
                let mut t = "special task `".to_owned();
                t.append(a.as_str());
                t.append("` does not work on this engine");
                t
            },
            Error::UseTasklines(a, b) => {
                let mut t = "cannot use tasklines `".to_owned();
                t.append(a.as_str());
                t.append("` from the `");
                t.append(b.as_str());
                t.append("`");
                t
            },
            Error::UseVars(a, b) => {
                let mut t = "cannot use vars `".to_owned();
                t.append(a.as_str());
                t.append("` from the `");
                t.append(b.as_str());
                t.append("`");
                t
            },
            Error::WorkerSetupFailed(a) => {
                let mut t = "failed to setup worker `".to_owned();
                t.append(a.as_str());
                t.append("`");
                t
            },
            Error::WrongArgumentType(a) => {
                let mut t = "argument `".to_owned();
                t.append(a.as_str());
                t.append("` has wrong type");
                t
            },
            Error::WrongItemsJsonType(a) => {
                let mut t = "items json `".to_owned();
                t.append(a.as_str());
                t.append("` has wrong type");
                t
            },
            Error::WrongItemsVarType(a) => {
                let mut t = "items variable `".to_owned();
                t.append(a.as_str());
                t.append("` has wrong type");
                t
            },
            Error::WrongValueType => {
                let mut t = "value has wrong type".to_owned();
                t
            },
            Error::WrongVarType(a, b) => {
                let mut t = "variable `".to_owned();
                t.append(a.as_str());
                t.append("` must be of type `");
                t.append(b.as_str());
                t.append("`");
                t
            },
            Error::User(m, _, _) => m.clone(),
    };
    r
}

} // verus!
