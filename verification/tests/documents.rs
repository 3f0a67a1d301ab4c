use tailwind_lsp_config::document::{push_item, push_member, push_text_item, push_text_member, Document, Number};
use tailwind_lsp_config::options::{default_initialization_options, initialization_options};
use tailwind_lsp_config::workspace::{
    default_settings, effective_settings, namespace_settings, settings_request, user_settings,
    workspace_configuration,
};

const SERVER: &str = "tailwindcss-language-server";

fn text(s: &str) -> Document {
    Document::Text(s.to_string())
}

fn object(members: Vec<(&str, Document)>) -> Document {
    Document::Object(members.into_iter().map(|(k, v)| (k.to_string(), v)).collect())
}

fn texts(items: Vec<&str>) -> Document {
    Document::List(items.into_iter().map(text).collect())
}

fn expected_initialization_options() -> Document {
    object(vec![
        (
            "userLanguages",
            object(vec![
                ("eex", text("html")),
                ("heex", text("html")),
                ("svelte", text("html")),
                ("vue", text("html")),
                ("astro", text("html")),
                ("jsx", text("javascriptreact")),
                ("tsx", text("typescriptreact")),
                ("php", text("html")),
                ("erb", text("html")),
                ("twig", text("html")),
                ("blade", text("html")),
            ]),
        ),
        (
            "includeLanguages",
            object(vec![
                ("typescript", text("javascript")),
                ("typescriptreact", text("javascript")),
                ("vue", text("html")),
                ("svelte", text("html")),
            ]),
        ),
        (
            "classAttributes",
            texts(vec!["class", "className", "ngClass", "class:list", ":class", "v-bind:class"]),
        ),
        (
            "experimental",
            object(vec![(
                "classRegex",
                texts(vec![
                    "tw`([^`]*)",
                    "tw=\"([^\"]*)",
                    "tw={\"([^\"}]*)",
                    "tw\\.\\w+`([^`]*)",
                    "tw\\(.*?\\)`([^`]*)",
                    "classNames\\s*\\(\\s*['\"`]([^'\"`]*)['\"`]",
                    "cva\\s*\\([^)]*['\"`]([^'\"`]*)['\"`]",
                    "cn\\s*\\([^)]*['\"`]([^'\"`]*)['\"`]",
                ]),
            )]),
        ),
    ])
}

fn expected_default_settings() -> Document {
    object(vec![
        ("emmetCompletions", Document::Bool(false)),
        (
            "includeLanguages",
            object(vec![
                ("eex", text("html")),
                ("heex", text("html")),
                ("svelte", text("html")),
                ("vue", text("html")),
                ("astro", text("html")),
            ]),
        ),
        (
            "files",
            object(vec![(
                "exclude",
                texts(vec!["**/.git/**", "**/node_modules/**", "**/.hg/**", "**/.svn/**"]),
            )]),
        ),
        (
            "editor",
            object(vec![("quickSuggestions", object(vec![("strings", Document::Bool(true))]))]),
        ),
        ("validate", Document::Bool(true)),
        (
            "lint",
            object(vec![
                ("cssConflict", text("warning")),
                ("invalidApply", text("error")),
                ("invalidScreen", text("error")),
                ("invalidVariant", text("error")),
                ("invalidConfigPath", text("error")),
                ("invalidTailwindDirective", text("error")),
                ("recommendedVariantOrder", text("warning")),
            ]),
        ),
        ("hovers", Document::Bool(true)),
        ("suggestions", Document::Bool(true)),
        ("codeActions", Document::Bool(true)),
        ("colorDecorators", Document::Bool(true)),
    ])
}

#[test]
fn initialization_options_are_the_fixed_document() {
    assert_eq!(
        initialization_options(SERVER),
        Ok(Some(expected_initialization_options()))
    );
    assert_eq!(default_initialization_options(), expected_initialization_options());
}

#[test]
fn initialization_options_are_the_same_on_every_call() {
    assert_eq!(initialization_options(SERVER), initialization_options(SERVER));
}

#[test]
fn initialization_options_name_the_syntax_of_jsx_and_tsx() {
    let options = initialization_options(SERVER).unwrap().unwrap();
    let languages = options.get("userLanguages").unwrap();
    assert_eq!(languages.get("jsx"), Some(&text("javascriptreact")));
    assert_eq!(languages.get("tsx"), Some(&text("typescriptreact")));
    assert_eq!(languages.get("blade"), Some(&text("html")));
    let regex = options.get("experimental").unwrap().get("classRegex").unwrap();
    match regex {
        Document::List(items) => {
            assert_eq!(items.len(), 8);
            assert_eq!(items[0], text("tw`([^`]*)"));
            assert_eq!(items[7], text("cn\\s*\\([^)]*['\"`]([^'\"`]*)['\"`]"));
        }
        other => panic!("classRegex is no list: {other:?}"),
    }
}

#[test]
fn unknown_server_gets_no_initialization_options() {
    assert_eq!(initialization_options("eslint"), Ok(None));
    assert_eq!(initialization_options(""), Ok(None));
}

#[test]
fn unknown_server_gets_no_workspace_configuration() {
    assert_eq!(workspace_configuration("eslint", Ok(None)), Ok(None));
    let user = object(vec![("validate", Document::Bool(false))]);
    assert_eq!(workspace_configuration("eslint", Ok(Some(user))), Ok(None));
    assert_eq!(workspace_configuration("eslint", Err("broken".to_string())), Ok(None));
    assert_eq!(settings_request("eslint"), None);
}

#[test]
fn absent_settings_give_the_defaults() {
    let configuration = workspace_configuration(SERVER, Ok(None)).unwrap().unwrap();
    let settings = configuration.get("tailwindCSS").unwrap();
    assert_eq!(settings.get("lint").unwrap().get("invalidApply"), Some(&text("error")));
    assert_eq!(settings.get("emmetCompletions"), Some(&Document::Bool(false)));
    assert_eq!(
        configuration,
        object(vec![("tailwindCSS", expected_default_settings())])
    );
}

#[test]
fn failed_read_gives_the_defaults() {
    let configuration = workspace_configuration(SERVER, Err("malformed settings".to_string()));
    assert_eq!(
        configuration,
        Ok(Some(object(vec![("tailwindCSS", expected_default_settings())])))
    );
}

#[test]
fn user_settings_are_taken_verbatim() {
    let user = object(vec![("validate", Document::Bool(false))]);
    let configuration = workspace_configuration(SERVER, Ok(Some(user)));
    assert_eq!(
        configuration,
        Ok(Some(object(vec![(
            "tailwindCSS",
            object(vec![("validate", Document::Bool(false))])
        )])))
    );
}

#[test]
fn user_settings_of_any_shape_are_not_touched() {
    for user in [
        Document::Null,
        Document::Bool(true),
        Document::Number(Number::Unsigned(7)),
        Document::Number(Number::Signed(-7)),
        Document::Number(Number::FloatBits(1.5f64.to_bits())),
        text("plain"),
        texts(vec!["a", "b"]),
        object(vec![]),
        object(vec![("lint", object(vec![("cssConflict", text("ignore"))]))]),
    ] {
        let expected = Document::Object(vec![("tailwindCSS".to_string(), copy(&user))]);
        assert_eq!(workspace_configuration(SERVER, Ok(Some(user))), Ok(Some(expected)));
    }
}

fn copy(d: &Document) -> Document {
    match d {
        Document::Null => Document::Null,
        Document::Bool(b) => Document::Bool(*b),
        Document::Number(n) => Document::Number(*n),
        Document::Text(s) => Document::Text(s.clone()),
        Document::List(items) => Document::List(items.iter().map(copy).collect()),
        Document::Object(members) => {
            Document::Object(members.iter().map(|(k, v)| (k.clone(), copy(v))).collect())
        }
    }
}

#[test]
fn default_settings_hold_every_field() {
    let settings = default_settings();
    assert_eq!(settings, expected_default_settings());
    assert_eq!(settings.get("validate"), Some(&Document::Bool(true)));
    assert_eq!(settings.get("hovers"), Some(&Document::Bool(true)));
    assert_eq!(settings.get("suggestions"), Some(&Document::Bool(true)));
    assert_eq!(settings.get("codeActions"), Some(&Document::Bool(true)));
    assert_eq!(settings.get("colorDecorators"), Some(&Document::Bool(true)));
    let lint = settings.get("lint").unwrap();
    assert_eq!(lint.get("cssConflict"), Some(&text("warning")));
    assert_eq!(lint.get("recommendedVariantOrder"), Some(&text("warning")));
    assert_eq!(lint.get("invalidTailwindDirective"), Some(&text("error")));
    let strings = settings
        .get("editor")
        .and_then(|e| e.get("quickSuggestions"))
        .and_then(|q| q.get("strings"));
    assert_eq!(strings, Some(&Document::Bool(true)));
}

#[test]
fn settings_are_read_under_the_server_name() {
    assert_eq!(settings_request(SERVER), Some("tailwindcss-language-server"));
}

#[test]
fn user_settings_come_only_from_a_read_that_found_some() {
    assert_eq!(user_settings(Ok(Some(text("x")))), Some(text("x")));
    assert_eq!(user_settings(Ok(None)), None);
    assert_eq!(user_settings(Err("no".to_string())), None);
}

#[test]
fn effective_settings_are_the_users_or_the_defaults() {
    assert_eq!(effective_settings(Some(Document::Null)), Document::Null);
    assert_eq!(effective_settings(None), expected_default_settings());
}

#[test]
fn namespace_wraps_under_one_key() {
    assert_eq!(
        namespace_settings(Document::Bool(true)),
        object(vec![("tailwindCSS", Document::Bool(true))])
    );
}

#[test]
fn get_finds_the_first_member_of_that_name() {
    let d = object(vec![("a", text("1")), ("b", text("2")), ("a", text("3"))]);
    assert_eq!(d.get("a"), Some(&text("1")));
    assert_eq!(d.get("b"), Some(&text("2")));
    assert_eq!(d.get("c"), None);
    assert_eq!(text("a").get("a"), None);
    assert_eq!(texts(vec!["a"]).get("a"), None);
    assert_eq!(object(vec![]).get(""), None);
}

#[test]
fn builders_append_in_order() {
    let mut members: Vec<(String, Document)> = Vec::new();
    push_text_member(&mut members, "k", "v");
    push_member(&mut members, "flag", Document::Bool(true));
    assert_eq!(
        Document::object(members),
        object(vec![("k", text("v")), ("flag", Document::Bool(true))])
    );
    let mut items: Vec<Document> = Vec::new();
    push_text_item(&mut items, "one");
    push_item(&mut items, Document::Null);
    assert_eq!(Document::list(items), Document::List(vec![text("one"), Document::Null]));
    assert_eq!(Document::text("t"), text("t"));
}

fn names_each_member_once(d: &Document) -> bool {
    match d {
        Document::List(items) => items.iter().all(names_each_member_once),
        Document::Object(members) => {
            let mut seen: Vec<&str> = Vec::new();
            for (name, value) in members {
                if seen.contains(&name.as_str()) || !names_each_member_once(value) {
                    return false;
                }
                seen.push(name.as_str());
            }
            true
        }
        _ => true,
    }
}

#[test]
fn built_in_documents_name_each_member_once() {
    assert!(names_each_member_once(&default_initialization_options()));
    assert!(names_each_member_once(&default_settings()));
    assert!(names_each_member_once(
        &workspace_configuration(SERVER, Ok(None)).unwrap().unwrap()
    ));
    let twice = object(vec![("a", Document::Null), ("a", Document::Null)]);
    assert!(!names_each_member_once(&twice));
}
