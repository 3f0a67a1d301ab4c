//! What holds of the three derivations whatever their inputs are.

use vstd::prelude::*;
use crate::command::{
    Command, CommandModel, launch_command, lookup_model, resolution, resolution_model,
};
use crate::document::{Document, Json, optional_model};
use crate::options::{initialization_options_model, initialization_options_of};
use crate::server::{message_of, ServerError, ServerErrorModel, tailwind_server_name};
use crate::workspace::{
    default_settings_model, user_settings_model, workspace_configuration_of,
};

verus! {

/// An identifier other than the known one is refused by command resolution
/// with the error that carries it, whose message ends with it; it gets no
/// initialization options and no workspace configuration.
pub proof fn unknown_identifier_is_served_nothing(
    id: Seq<char>,
    found: Option<Seq<char>>,
    user: Option<Json>,
)
    requires
        id != tailwind_server_name(),
    ensures
        resolution(id, found) == Err::<CommandModel, ServerErrorModel>(
            ServerErrorModel::UnknownServer(id),
        ),
        message_of(ServerErrorModel::UnknownServer(id)) == "unknown language server: "@ + id,
        message_of(ServerErrorModel::UnknownServer(id)).subrange(
            "unknown language server: "@.len() as int,
            message_of(ServerErrorModel::UnknownServer(id)).len() as int,
        ) == id,
        initialization_options_of(id) is None,
        workspace_configuration_of(id, user) is None,
{
    let prefix = "unknown language server: "@;
    assert((prefix + id).subrange(prefix.len() as int, (prefix + id).len() as int) =~= id);
}

/// Command resolution is repeatable: two results for one identifier and
/// lookup answers that say the same are the same command, or the same
/// error.
pub proof fn resolution_is_repeatable(
    server_id: &str,
    found_first: Option<String>,
    found_second: Option<String>,
    first: Result<Command, ServerError>,
    second: Result<Command, ServerError>,
)
    requires
        lookup_model(found_first) == lookup_model(found_second),
        resolution_model(first) == resolution(server_id@, lookup_model(found_first)),
        resolution_model(second) == resolution(server_id@, lookup_model(found_second)),
    ensures
        resolution_model(first) == resolution_model(second),
        first is Ok ==> second is Ok && first->Ok_0@ == second->Ok_0@,
        first is Err ==> second is Err && first->Err_0@ == second->Err_0@,
{
}

/// For the known identifier the command runs the path that the lookup
/// found, or the server's bare name where it found none; either way with
/// the one argument `--stdio` and no environment variable.
pub proof fn resolved_command_is_exact(found: Option<Seq<char>>)
    ensures
        resolution(tailwind_server_name(), found) == Ok::<CommandModel, ServerErrorModel>(
            launch_command(found),
        ),
        found matches Some(path) ==> launch_command(found).executable == path,
        found is None ==> launch_command(found).executable == "tailwindcss-language-server"@,
        launch_command(found).args.len() == 1,
        launch_command(found).args[0] == "--stdio"@,
        launch_command(found).env.len() == 0,
{
}

/// The initialization options of the known identifier are one fixed
/// document: any two results are there, and equal.
pub proof fn initialization_options_are_fixed(
    first: Option<Document>,
    second: Option<Document>,
)
    requires
        optional_model(first) == initialization_options_of(tailwind_server_name()),
        optional_model(second) == initialization_options_of(tailwind_server_name()),
    ensures
        first is Some,
        second is Some,
        first->Some_0@ == initialization_options_model(),
        first->Some_0@ == second->Some_0@,
{
}

/// The workspace configuration of the known identifier is all or nothing.
/// With a user's document it is that document under the key `tailwindCSS`
/// and nothing else; with none, because the read failed or found nothing,
/// it is the default document under that key.
pub proof fn workspace_configuration_is_all_or_nothing(read: Result<Option<Document>, String>)
    ensures
        read matches Ok(Some(settings)) ==> workspace_configuration_of(
            tailwind_server_name(),
            user_settings_model(read),
        ) == Some(Json::Object(seq![("tailwindCSS"@, settings@)])),
        !(read matches Ok(Some(_))) ==> workspace_configuration_of(
            tailwind_server_name(),
            user_settings_model(read),
        ) == Some(Json::Object(seq![("tailwindCSS"@, default_settings_model())])),
{
}

} // verus!
