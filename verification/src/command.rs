//! The command that starts the language server.

use vstd::prelude::*;
use crate::server::{classify, kind_of, known_server, ServerError, ServerErrorModel, ServerKind, tailwind_server_name};

verus! {

/// A command for the host to run: the executable, its arguments in order,
/// and the environment variables to set over those that the host hands down.
#[derive(Clone, Debug, PartialEq, Eq)]
pub struct Command {
    pub command: String,
    pub args: Vec<String>,
    pub env: Vec<(String, String)>,
}

/// The mathematical model of a [`Command`].
pub ghost struct CommandModel {
    pub executable: Seq<char>,
    pub args: Seq<Seq<char>>,
    pub env: Seq<(Seq<char>, Seq<char>)>,
}

impl View for Command {
    type V = CommandModel;

    open spec fn view(&self) -> CommandModel {
        CommandModel {
            executable: self.command@,
            args: Seq::new(self.args@.len(), |i: int| self.args@[i]@),
            env: Seq::new(self.env@.len(), |i: int| (self.env@[i].0@, self.env@[i].1@)),
        }
    }
}

/// The model of what an executable lookup answered.
pub open spec fn lookup_model(found: Option<String>) -> Option<Seq<char>> {
    match found {
        Some(path) => Some(path@),
        None => None,
    }
}

/// The command that starts the server, given what the lookup of its
/// executable answered: the path that was found, else the bare name, for
/// the host to resolve when it spawns the process. The server speaks over
/// standard input and output, and inherits the host's environment.
pub open spec fn launch_command(found: Option<Seq<char>>) -> CommandModel {
    CommandModel {
        executable: match found {
            Some(path) => path,
            None => tailwind_server_name(),
        },
        args: seq!["--stdio"@],
        env: Seq::empty(),
    }
}

/// What command resolution gives for the identifier `id` and the lookup's
/// answer `found`.
pub open spec fn resolution(id: Seq<char>, found: Option<Seq<char>>) -> Result<
    CommandModel,
    ServerErrorModel,
> {
    match kind_of(id) {
        Some(_) => Ok(launch_command(found)),
        None => Err(ServerErrorModel::UnknownServer(id)),
    }
}

/// The model of a result of command resolution.
pub open spec fn resolution_model(r: Result<Command, ServerError>) -> Result<
    CommandModel,
    ServerErrorModel,
> {
    match r {
        Ok(command) => Ok(command@),
        Err(e) => Err(e@),
    }
}

/// The name of the executable to look up before resolving the command of
/// `server_id`; none for an identifier that is not known.
pub fn lookup_request(server_id: &str) -> (name: Option<&'static str>)
    ensures
        match name {
            Some(n) => kind_of(server_id@) is Some && n@ == tailwind_server_name(),
            None => kind_of(server_id@) is None,
        },
{
    match classify(server_id) {
        Some(kind) => Some(kind.name()),
        None => None,
    }
}

/// The command that starts the server `kind`, given the lookup's answer.
pub fn command_for(kind: ServerKind, found: Option<String>) -> (command: Command)
    ensures
        command@ == launch_command(lookup_model(found)),
        command.command@ == launch_command(lookup_model(found)).executable,
        command.args@.len() == 1,
        command.args@[0]@ == "--stdio"@,
        command.env@.len() == 0,
{
    let executable = match found {
        Some(path) => path,
        None => kind.name().to_owned(),
    };
    let mut args: Vec<String> = Vec::new();
    args.push("--stdio".to_owned());
    let command = Command { command: executable, args, env: Vec::new() };
    assert(command@.args =~= seq!["--stdio"@]);
    assert(command@.env =~= Seq::empty());
    command
}

/// Resolves the command that starts the server `server_id`, given what the
/// lookup of the server's executable answered.
pub fn resolve_command(server_id: &str, found: Option<String>) -> (r: Result<Command, ServerError>)
    ensures
        resolution_model(r) == resolution(server_id@, lookup_model(found)),
        r is Ok <==> server_id@ == tailwind_server_name(),
        r matches Ok(command) ==> {
            &&& command.command@ == launch_command(lookup_model(found)).executable
            &&& command.args@.len() == 1
            &&& command.args@[0]@ == "--stdio"@
            &&& command.env@.len() == 0
        },
        r matches Err(e) ==> e@ == ServerErrorModel::UnknownServer(server_id@),
{
    match known_server(server_id) {
        Ok(kind) => Ok(command_for(kind, found)),
        Err(e) => Err(e),
    }
}

} // verus!
