//! The command line: which command the arguments ask for, and with what.

use vstd::prelude::*;
use crate::error::{
    code_of, error_document, output_error, output_success, package_success_document,
    success_document, ErrorCode, Report,
};
use crate::json::json_string_of;
use crate::sandbox::{exit_code_of, status_code, ChildStatus};
use crate::state::{registry_document, State};
use crate::text::{followed_by, str_eq, views};

verus! {

/// The commands of the backend.
#[derive(Clone, Copy, Debug, PartialEq, Eq)]
pub enum CommandKind {
    Install,
    Remove,
    Verify,
    VerifySignature,
    ListInstalled,
    SandboxTest,
    Run,
}

/// The command that a word names.
pub open spec fn kind_of(word: Seq<char>) -> Option<CommandKind> {
    if word == "install"@ {
        Some(CommandKind::Install)
    } else if word == "remove"@ {
        Some(CommandKind::Remove)
    } else if word == "verify"@ {
        Some(CommandKind::Verify)
    } else if word == "verify-signature"@ {
        Some(CommandKind::VerifySignature)
    } else if word == "list-installed"@ {
        Some(CommandKind::ListInstalled)
    } else if word == "sandbox-test"@ {
        Some(CommandKind::SandboxTest)
    } else if word == "run"@ {
        Some(CommandKind::Run)
    } else {
        None
    }
}

/// How many arguments a command needs at least, its own word counted.
pub open spec fn min_args(kind: CommandKind) -> nat {
    match kind {
        CommandKind::Install => 5,
        CommandKind::Remove => 4,
        CommandKind::Verify => 3,
        CommandKind::VerifySignature => 3,
        CommandKind::ListInstalled => 1,
        CommandKind::SandboxTest => 2,
        CommandKind::Run => 3,
    }
}

/// The error code with which a command fails.
pub open spec fn failure_code(kind: CommandKind) -> ErrorCode {
    match kind {
        CommandKind::Install => ErrorCode::InstallFailed,
        CommandKind::Remove => ErrorCode::RemoveFailed,
        CommandKind::Verify => ErrorCode::VerificationFailed,
        CommandKind::VerifySignature => ErrorCode::VerificationFailed,
        CommandKind::ListInstalled => ErrorCode::UnknownCommand,
        CommandKind::SandboxTest => ErrorCode::InstallFailed,
        CommandKind::Run => ErrorCode::InvalidArgs,
    }
}

impl CommandKind {
    /// The command that `word` names, if any.
    pub fn from_word(word: &str) -> (r: Option<CommandKind>)
        ensures
            r == kind_of(word@),
    {
        if str_eq(word, "install") {
            Some(CommandKind::Install)
        } else if str_eq(word, "remove") {
            Some(CommandKind::Remove)
        } else if str_eq(word, "verify") {
            Some(CommandKind::Verify)
        } else if str_eq(word, "verify-signature") {
            Some(CommandKind::VerifySignature)
        } else if str_eq(word, "list-installed") {
            Some(CommandKind::ListInstalled)
        } else if str_eq(word, "sandbox-test") {
            Some(CommandKind::SandboxTest)
        } else if str_eq(word, "run") {
            Some(CommandKind::Run)
        } else {
            None
        }
    }

    /// How many arguments the command needs at least, its own word counted.
    pub fn min_args(self) -> (n: usize)
        ensures
            n == min_args(self),
    {
        match self {
            CommandKind::Install => 5,
            CommandKind::Remove => 4,
            CommandKind::Verify => 3,
            CommandKind::VerifySignature => 3,
            CommandKind::ListInstalled => 1,
            CommandKind::SandboxTest => 2,
            CommandKind::Run => 3,
        }
    }

    /// The error code with which the command fails.
    pub fn failure_code(self) -> (code: ErrorCode)
        ensures
            code == failure_code(self),
    {
        match self {
            CommandKind::Install => ErrorCode::InstallFailed,
            CommandKind::Remove => ErrorCode::RemoveFailed,
            CommandKind::Verify => ErrorCode::VerificationFailed,
            CommandKind::VerifySignature => ErrorCode::VerificationFailed,
            CommandKind::ListInstalled => ErrorCode::UnknownCommand,
            CommandKind::SandboxTest => ErrorCode::InstallFailed,
            CommandKind::Run => ErrorCode::InvalidArgs,
        }
    }

    /// How the command is called.
    pub fn usage(self) -> (text: &'static str)
        ensures
            text@ == usage_of(self),
    {
        match self {
            CommandKind::Install => "Usage: backend install <package> <version> <path> <checksum>",
            CommandKind::Remove => "Usage: backend remove <package> <version> <path>",
            CommandKind::Verify => "Usage: backend verify <path> <checksum>",
            CommandKind::VerifySignature => "Usage: backend verify-signature <path> <signature>",
            CommandKind::ListInstalled => "Usage: backend list-installed",
            CommandKind::SandboxTest => "Usage: backend sandbox-test <path>",
            CommandKind::Run => "Usage: backend run <package> <bin> [args...]",
        }
    }
}

/// How a command is called.
pub open spec fn usage_of(kind: CommandKind) -> Seq<char> {
    match kind {
        CommandKind::Install => "Usage: backend install <package> <version> <path> <checksum>"@,
        CommandKind::Remove => "Usage: backend remove <package> <version> <path>"@,
        CommandKind::Verify => "Usage: backend verify <path> <checksum>"@,
        CommandKind::VerifySignature => "Usage: backend verify-signature <path> <signature>"@,
        CommandKind::ListInstalled => "Usage: backend list-installed"@,
        CommandKind::SandboxTest => "Usage: backend sandbox-test <path>"@,
        CommandKind::Run => "Usage: backend run <package> <bin> [args...]"@,
    }
}

/// A command with its arguments.
#[derive(Clone, Debug, PartialEq, Eq)]
pub enum Command {
    Install { name: String, version: String, path: String, checksum: String },
    Remove { name: String, version: String, path: String },
    Verify { path: String, checksum: String },
    VerifySignature { path: String, signature: String },
    ListInstalled,
    SandboxTest { path: String },
    Run { name: String, bin: String, args: Vec<String> },
}

/// The mathematical value of a [`Command`].
pub enum CommandView {
    Install { name: Seq<char>, version: Seq<char>, path: Seq<char>, checksum: Seq<char> },
    Remove { name: Seq<char>, version: Seq<char>, path: Seq<char> },
    Verify { path: Seq<char>, checksum: Seq<char> },
    VerifySignature { path: Seq<char>, signature: Seq<char> },
    ListInstalled,
    SandboxTest { path: Seq<char> },
    Run { name: Seq<char>, bin: Seq<char>, args: Seq<Seq<char>> },
}

impl View for Command {
    type V = CommandView;

    open spec fn view(&self) -> CommandView {
        match *self {
            Command::Install { name, version, path, checksum } => CommandView::Install {
                name: name@,
                version: version@,
                path: path@,
                checksum: checksum@,
            },
            Command::Remove { name, version, path } => CommandView::Remove {
                name: name@,
                version: version@,
                path: path@,
            },
            Command::Verify { path, checksum } => CommandView::Verify {
                path: path@,
                checksum: checksum@,
            },
            Command::VerifySignature { path, signature } => CommandView::VerifySignature {
                path: path@,
                signature: signature@,
            },
            Command::ListInstalled => CommandView::ListInstalled,
            Command::SandboxTest { path } => CommandView::SandboxTest { path: path@ },
            Command::Run { name, bin, args } => CommandView::Run {
                name: name@,
                bin: bin@,
                args: views(args@),
            },
        }
    }
}

/// Why the arguments name no command that can be carried out.
#[derive(Clone, Copy, Debug, PartialEq, Eq)]
pub enum UsageError {
    /// There are no arguments at all.
    NoCommand,
    /// The command is known, but has too few arguments.
    MissingArguments(CommandKind),
    /// The first argument names no command.
    UnknownCommand,
}

/// The error code of a usage error.
pub open spec fn usage_code(e: UsageError) -> ErrorCode {
    match e {
        UsageError::NoCommand => ErrorCode::InvalidArgs,
        UsageError::MissingArguments(_) => ErrorCode::InvalidArgs,
        UsageError::UnknownCommand => ErrorCode::UnknownCommand,
    }
}

/// What a usage error tells the user.
pub open spec fn usage_message(e: UsageError) -> Seq<char> {
    match e {
        UsageError::NoCommand => "Invalid arguments"@,
        UsageError::MissingArguments(kind) => usage_of(kind),
        UsageError::UnknownCommand => "Unknown command"@,
    }
}

impl UsageError {
    /// The error code of this error.
    pub fn code(self) -> (code: ErrorCode)
        ensures
            code == usage_code(self),
    {
        match self {
            UsageError::NoCommand => ErrorCode::InvalidArgs,
            UsageError::MissingArguments(_) => ErrorCode::InvalidArgs,
            UsageError::UnknownCommand => ErrorCode::UnknownCommand,
        }
    }

    /// What this error tells the user.
    pub fn message(self) -> (text: &'static str)
        ensures
            text@ == usage_message(self),
    {
        match self {
            UsageError::NoCommand => "Invalid arguments",
            UsageError::MissingArguments(kind) => kind.usage(),
            UsageError::UnknownCommand => "Unknown command",
        }
    }
}

/// The command of the given kind with its arguments taken from `args`, which
/// holds the command's word first. Arguments beyond those that the command
/// takes are passed over, but for `run`, which hands them to the program.
pub open spec fn command_from(kind: CommandKind, args: Seq<Seq<char>>) -> CommandView
    recommends
        args.len() >= min_args(kind),
{
    match kind {
        CommandKind::Install => CommandView::Install {
            name: args[1],
            version: args[2],
            path: args[3],
            checksum: args[4],
        },
        CommandKind::Remove => CommandView::Remove { name: args[1], version: args[2], path: args[3] },
        CommandKind::Verify => CommandView::Verify { path: args[1], checksum: args[2] },
        CommandKind::VerifySignature => CommandView::VerifySignature {
            path: args[1],
            signature: args[2],
        },
        CommandKind::ListInstalled => CommandView::ListInstalled,
        CommandKind::SandboxTest => CommandView::SandboxTest { path: args[1] },
        CommandKind::Run => CommandView::Run { name: args[1], bin: args[2], args: args.skip(3) },
    }
}

/// What the arguments of the backend, without the program's own name, ask for.
pub open spec fn parsed(args: Seq<Seq<char>>) -> Result<CommandView, UsageError> {
    if args.len() == 0 {
        Err(UsageError::NoCommand)
    } else {
        match kind_of(args[0]) {
            None => Err(UsageError::UnknownCommand),
            Some(kind) => if args.len() < min_args(kind) {
                Err(UsageError::MissingArguments(kind))
            } else {
                Ok(command_from(kind, args))
            },
        }
    }
}

/// Reads the arguments of the backend, given without the program's own name.
pub fn parse_command(args: &Vec<String>) -> (r: Result<Command, UsageError>)
    ensures
        match r {
            Ok(c) => parsed(views(args@)) == Ok::<CommandView, UsageError>(c@),
            Err(e) => parsed(views(args@)) == Err::<CommandView, UsageError>(e),
        },
{
    if args.len() == 0 {
        return Err(UsageError::NoCommand);
    }
    let kind = match CommandKind::from_word(args[0].as_str()) {
        None => {
            return Err(UsageError::UnknownCommand);
        },
        Some(kind) => kind,
    };
    if args.len() < kind.min_args() {
        return Err(UsageError::MissingArguments(kind));
    }
    let command = match kind {
        CommandKind::Install => Command::Install {
            name: args[1].clone(),
            version: args[2].clone(),
            path: args[3].clone(),
            checksum: args[4].clone(),
        },
        CommandKind::Remove => Command::Remove {
            name: args[1].clone(),
            version: args[2].clone(),
            path: args[3].clone(),
        },
        CommandKind::Verify => Command::Verify { path: args[1].clone(), checksum: args[2].clone() },
        CommandKind::VerifySignature => Command::VerifySignature {
            path: args[1].clone(),
            signature: args[2].clone(),
        },
        CommandKind::ListInstalled => Command::ListInstalled,
        CommandKind::SandboxTest => Command::SandboxTest { path: args[1].clone() },
        CommandKind::Run => {
            let mut rest: Vec<String> = Vec::new();
            let mut i: usize = 3;
            while i < args.len()
                invariant
                    3 <= i <= args.len(),
                    views(rest@) == views(args@).subrange(3, i as int),
                decreases args.len() - i,
            {
                let ghost before = views(rest@);
                rest.push(args[i].clone());
                assert(views(rest@) =~= before.push(args@[i as int]@));
                assert(views(args@).subrange(3, i + 1) =~= views(args@).subrange(3, i as int).push(
                    args@[i as int]@,
                ));
                i += 1;
            }
            assert(views(args@).subrange(3, args@.len() as int) =~= views(args@).skip(3));
            Command::Run { name: args[1].clone(), bin: args[2].clone(), args: rest }
        },
    };
    Ok(command)
}

/// The words that open the message of a failed command.
pub open spec fn failure_prefix(kind: CommandKind) -> Seq<char> {
    match kind {
        CommandKind::Install => "Install failed: "@,
        CommandKind::Remove => "Remove failed: "@,
        CommandKind::Verify => "Verification failed: "@,
        CommandKind::VerifySignature => "Verification failed: "@,
        CommandKind::ListInstalled => "List failed: "@,
        CommandKind::SandboxTest => "Sandbox test failed: "@,
        CommandKind::Run => "Run failed: "@,
    }
}

impl CommandKind {
    /// The message of a command that failed for the reason `detail`.
    pub fn failure_message(self, detail: &str) -> (text: String)
        ensures
            text@ == failure_prefix(self) + detail@,
    {
        let prefix = match self {
            CommandKind::Install => "Install failed: ",
            CommandKind::Remove => "Remove failed: ",
            CommandKind::Verify => "Verification failed: ",
            CommandKind::VerifySignature => "Verification failed: ",
            CommandKind::ListInstalled => "List failed: ",
            CommandKind::SandboxTest => "Sandbox test failed: ",
            CommandKind::Run => "Run failed: ",
        };
        followed_by(prefix, detail)
    }
}

impl Command {
    /// Which command this is.
    pub fn kind(&self) -> (kind: CommandKind)
        ensures
            kind == kind_of_command(self@),
    {
        match self {
            Command::Install { .. } => CommandKind::Install,
            Command::Remove { .. } => CommandKind::Remove,
            Command::Verify { .. } => CommandKind::Verify,
            Command::VerifySignature { .. } => CommandKind::VerifySignature,
            Command::ListInstalled => CommandKind::ListInstalled,
            Command::SandboxTest { .. } => CommandKind::SandboxTest,
            Command::Run { .. } => CommandKind::Run,
        }
    }
}

/// Which command a command is.
pub open spec fn kind_of_command(c: CommandView) -> CommandKind {
    match c {
        CommandView::Install { .. } => CommandKind::Install,
        CommandView::Remove { .. } => CommandKind::Remove,
        CommandView::Verify { .. } => CommandKind::Verify,
        CommandView::VerifySignature { .. } => CommandKind::VerifySignature,
        CommandView::ListInstalled => CommandKind::ListInstalled,
        CommandView::SandboxTest { .. } => CommandKind::SandboxTest,
        CommandView::Run { .. } => CommandKind::Run,
    }
}

/// Reports arguments that name no command that can be carried out: the
/// error document with the error's code and message.
pub fn report_usage_error(e: UsageError) -> (r: Report)
    ensures
        r.stdout.is_none(),
        r.stderr.is_some(),
        r.stderr.unwrap()@ == error_document(
            code_of(usage_code(e)) as int,
            json_string_of(usage_message(e)),
        ),
        r.exit_code == code_of(usage_code(e)),
{
    output_error(e.code(), e.message())
}

/// Reports that a command failed for the reason `detail`: the error
/// document with the command's failure code.
pub fn report_failure(kind: CommandKind, detail: &str) -> (r: Report)
    ensures
        r.stdout.is_none(),
        r.stderr.is_some(),
        r.stderr.unwrap()@ == error_document(
            code_of(failure_code(kind)) as int,
            json_string_of(failure_prefix(kind) + detail@),
        ),
        r.exit_code == code_of(failure_code(kind)),
{
    output_error(kind.failure_code(), kind.failure_message(detail).as_str())
}

/// What is said of a registry file that cannot be read as a registry.
pub open spec fn corrupt_registry_message(detail: Seq<char>) -> Seq<char> {
    "Registry unreadable: "@ + detail
}

/// Reports that the registry's file is there and is no registry. Whatever
/// the command, this is a failure of verification; the file is not repaired.
pub fn report_corrupt_registry(detail: &str) -> (r: Report)
    ensures
        r.stdout.is_none(),
        r.stderr.is_some(),
        r.stderr.unwrap()@ == error_document(
            code_of(ErrorCode::VerificationFailed) as int,
            json_string_of(corrupt_registry_message(detail@)),
        ),
        r.exit_code == code_of(ErrorCode::VerificationFailed),
{
    output_error(
        ErrorCode::VerificationFailed,
        followed_by("Registry unreadable: ", detail).as_str(),
    )
}

/// The package that a command's success document names, if it names one.
pub open spec fn success_names(c: CommandView) -> Option<Seq<char>> {
    match c {
        CommandView::Install { name, .. } => Some(name),
        CommandView::Remove { name, .. } => Some(name),
        _ => None,
    }
}

/// Reports that an install, a removal, a verification or a trial of the
/// sandbox succeeded: the success document, which names the package for
/// an install and a removal.
pub fn report_success(command: &Command) -> (r: Report)
    requires
        !(command@ is ListInstalled),
        !(command@ is Run),
    ensures
        r.stderr.is_none(),
        r.exit_code == 0,
        r.stdout.is_some(),
        r.stdout.unwrap()@ == match success_names(command@) {
            Some(name) => package_success_document(json_string_of(name)),
            None => success_document(),
        },
{
    match command {
        Command::Install { name, .. } => output_success(Some(name.as_str())),
        Command::Remove { name, .. } => output_success(Some(name.as_str())),
        _ => output_success(None),
    }
}

/// Reports the registry: its document goes to standard output.
pub fn report_listing(state: &State) -> (r: Report)
    ensures
        r.stderr.is_none(),
        r.exit_code == 0,
        r.stdout.is_some(),
        r.stdout.unwrap()@ == registry_document(state.packages@),
{
    Report { stdout: Some(state.to_json()), stderr: None, exit_code: 0 }
}

/// Reports how a run ended. A payload that ran ends the backend with its
/// own exit code and without a word of the backend's; a sandbox that
/// failed before the payload ran has left a diagnostic, and is reported as
/// a failure of the run.
pub fn report_run(status: ChildStatus, diagnostic: &str) -> (r: Report)
    ensures
        r.stdout.is_none(),
        status_code(status) == 0 || diagnostic@.len() == 0 ==> r.stderr.is_none() && r.exit_code
            == status_code(status),
        status_code(status) != 0 && diagnostic@.len() > 0 ==> r.stderr.is_some()
            && r.stderr.unwrap()@ == error_document(
            code_of(failure_code(CommandKind::Run)) as int,
            json_string_of(
                failure_prefix(CommandKind::Run) + ("Sandbox child failed: "@ + diagnostic@),
            ),
        ) && r.exit_code == code_of(failure_code(CommandKind::Run)),
{
    let code = exit_code_of(status);
    if code == 0 || diagnostic.is_empty() {
        Report { stdout: None, stderr: None, exit_code: code }
    } else {
        let detail = followed_by("Sandbox child failed: ", diagnostic);
        report_failure(CommandKind::Run, detail.as_str())
    }
}

/// Every failure ends the backend with the number of its error code.
pub proof fn lemma_exit_codes(kind: CommandKind, e: UsageError)
    ensures
        code_of(failure_code(CommandKind::Install)) == 4,
        code_of(failure_code(CommandKind::Remove)) == 5,
        code_of(failure_code(CommandKind::Verify)) == 6,
        code_of(failure_code(CommandKind::VerifySignature)) == 6,
        code_of(failure_code(CommandKind::ListInstalled)) == 99,
        code_of(failure_code(CommandKind::SandboxTest)) == 4,
        code_of(failure_code(CommandKind::Run)) == 1,
        code_of(usage_code(UsageError::NoCommand)) == 1,
        code_of(usage_code(UsageError::MissingArguments(kind))) == 1,
        code_of(usage_code(UsageError::UnknownCommand)) == 99,
        code_of(failure_code(kind)) != 0,
        code_of(usage_code(e)) != 0,
{
}

} // verus!
