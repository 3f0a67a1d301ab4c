use tailwind_lsp_config::command::{command_for, lookup_request, resolve_command, Command};
use tailwind_lsp_config::server::{classify, known_server, ServerError, ServerKind};

const SERVER: &str = "tailwindcss-language-server";

#[test]
fn found_path_becomes_the_executable() {
    let found = Some("/usr/local/bin/tailwindcss-language-server".to_string());
    let command = resolve_command(SERVER, found).unwrap();
    assert_eq!(
        command,
        Command {
            command: "/usr/local/bin/tailwindcss-language-server".to_string(),
            args: vec!["--stdio".to_string()],
            env: vec![],
        }
    );
}

#[test]
fn missing_executable_falls_back_to_the_bare_name() {
    let command = resolve_command(SERVER, None).unwrap();
    assert_eq!(
        command,
        Command {
            command: "tailwindcss-language-server".to_string(),
            args: vec!["--stdio".to_string()],
            env: vec![],
        }
    );
}

#[test]
fn relative_path_is_kept_as_it_is() {
    let found = Some("node_modules/.bin/tailwindcss-language-server".to_string());
    let command = resolve_command(SERVER, found).unwrap();
    assert_eq!(command.command, "node_modules/.bin/tailwindcss-language-server");
    assert_eq!(command.args, vec!["--stdio".to_string()]);
    assert!(command.env.is_empty());
}

#[test]
fn unknown_server_is_refused_with_its_identifier() {
    let error = resolve_command("eslint", None).unwrap_err();
    assert_eq!(error, ServerError::UnknownServer("eslint".to_string()));
    assert_eq!(error.message(), "unknown language server: eslint");
}

#[test]
fn unknown_server_is_refused_whatever_the_lookup_found() {
    let found = Some("/usr/bin/eslint".to_string());
    let error = resolve_command("eslint", found).unwrap_err();
    assert_eq!(error, ServerError::UnknownServer("eslint".to_string()));
}

#[test]
fn identifiers_close_to_the_known_one_are_unknown() {
    for id in [
        "",
        "tailwindcss",
        "tailwindcss-language-server ",
        "Tailwindcss-language-server",
        "tailwindcss-language-server2",
    ] {
        let error = resolve_command(id, None).unwrap_err();
        assert_eq!(error, ServerError::UnknownServer(id.to_string()));
        assert_eq!(error.message(), format!("unknown language server: {id}"));
        assert_eq!(classify(id), None);
        assert_eq!(lookup_request(id), None);
    }
}

#[test]
fn resolution_is_repeatable() {
    let found = Some("/opt/bin/tailwindcss-language-server".to_string());
    let first = resolve_command(SERVER, found.clone());
    let second = resolve_command(SERVER, found);
    assert_eq!(first, second);
    assert_eq!(resolve_command(SERVER, None), resolve_command(SERVER, None));
    assert_eq!(resolve_command("eslint", None), resolve_command("eslint", None));
}

#[test]
fn lookup_asks_for_the_server_by_name() {
    assert_eq!(lookup_request(SERVER), Some("tailwindcss-language-server"));
}

#[test]
fn known_identifier_is_classified() {
    assert_eq!(classify(SERVER), Some(ServerKind::TailwindCss));
    assert_eq!(known_server(SERVER), Ok(ServerKind::TailwindCss));
    assert_eq!(ServerKind::TailwindCss.name(), SERVER);
    assert_eq!(
        known_server("gopls"),
        Err(ServerError::UnknownServer("gopls".to_string()))
    );
}

#[test]
fn command_for_the_known_server() {
    let command = command_for(ServerKind::TailwindCss, Some("/x/y".to_string()));
    assert_eq!(command.command, "/x/y");
    assert_eq!(command.args, vec!["--stdio".to_string()]);
    assert_eq!(command.env, Vec::<(String, String)>::new());
    let bare = command_for(ServerKind::TailwindCss, None);
    assert_eq!(bare.command, "tailwindcss-language-server");
}
