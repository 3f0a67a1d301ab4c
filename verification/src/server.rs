//! The language servers that this library knows, and the error for one that
//! it does not know.

use vstd::prelude::*;
use vstd::string::StringExecFns;

verus! {

/// The identifier of the one language server that is known, which is also
/// the name of its executable and the key of its settings.
pub open spec fn tailwind_server_name() -> Seq<char> {
    "tailwindcss-language-server"@
}

/// The known language servers.
#[derive(Clone, Copy, Debug, PartialEq, Eq, Structural)]
pub enum ServerKind {
    TailwindCss,
}

/// The server that the identifier `id` names, if it names one.
pub open spec fn kind_of(id: Seq<char>) -> Option<ServerKind> {
    if id == tailwind_server_name() {
        Some(ServerKind::TailwindCss)
    } else {
        None
    }
}

/// Why a request could not be served.
#[derive(Clone, Debug, PartialEq, Eq)]
pub enum ServerError {
    /// The identifier names no known server; it is carried along.
    UnknownServer(String),
}

/// The mathematical model of a [`ServerError`].
pub ghost enum ServerErrorModel {
    UnknownServer(Seq<char>),
}

impl View for ServerError {
    type V = ServerErrorModel;

    open spec fn view(&self) -> ServerErrorModel {
        match self {
            ServerError::UnknownServer(id) => ServerErrorModel::UnknownServer(id@),
        }
    }
}

/// The text that reports `e`.
pub open spec fn message_of(e: ServerErrorModel) -> Seq<char> {
    match e {
        ServerErrorModel::UnknownServer(id) => "unknown language server: "@ + id,
    }
}

impl ServerError {
    /// The text that reports this error: it names the offending identifier.
    pub fn message(&self) -> (text: String)
        ensures
            text@ == message_of(self@),
    {
        match self {
            ServerError::UnknownServer(id) => {
                let mut text = "unknown language server: ".to_owned();
                text.append(id.as_str());
                text
            },
        }
    }
}

impl ServerKind {
    /// The identifier of this server.
    pub fn name(&self) -> (name: &'static str)
        ensures
            kind_of(name@) == Some(*self),
            name@ == tailwind_server_name(),
    {
        match self {
            ServerKind::TailwindCss => "tailwindcss-language-server",
        }
    }
}

/// Tells which known server `server_id` names.
pub fn classify(server_id: &str) -> (kind: Option<ServerKind>)
    ensures
        kind == kind_of(server_id@),
{
    let given = server_id.to_owned();
    let known = ServerKind::TailwindCss.name().to_owned();
    if given == known {
        Some(ServerKind::TailwindCss)
    } else {
        None
    }
}

/// The known server that `server_id` names, or the error that carries
/// `server_id`.
pub fn known_server(server_id: &str) -> (r: Result<ServerKind, ServerError>)
    ensures
        match r {
            Ok(kind) => kind_of(server_id@) == Some(kind),
            Err(e) => kind_of(server_id@) is None && e@ == ServerErrorModel::UnknownServer(server_id@),
        },
{
    match classify(server_id) {
        Some(kind) => Ok(kind),
        None => Err(ServerError::UnknownServer(server_id.to_owned())),
    }
}

} // verus!
