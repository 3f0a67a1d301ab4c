//! The workspace settings handed to the language server: the user's own
//! document where there is one, else the built-in defaults, never a blend
//! of the two.

use vstd::prelude::*;
use crate::document::{
    Document, Json, distinct_names, lemma_no_items, lemma_no_members, optional_model, push_member,
    push_text_item, push_text_member, text_member, well_formed,
};
use crate::server::{classify, kind_of, ServerError, tailwind_server_name};

verus! {

/// The languages that the default settings have the scanner read as HTML.
pub open spec fn default_include_languages_model() -> Json {
    Json::Object(
        seq![
            text_member("eex", "html"),
            text_member("heex", "html"),
            text_member("svelte", "html"),
            text_member("vue", "html"),
            text_member("astro", "html"),
        ],
    )
}

/// The directories that the default settings keep the server out of.
pub open spec fn default_excludes_model() -> Json {
    Json::List(
        seq![
            Json::Text("**/.git/**"@),
            Json::Text("**/node_modules/**"@),
            Json::Text("**/.hg/**"@),
            Json::Text("**/.svn/**"@),
        ],
    )
}

/// The severity that the default settings give each lint rule.
pub open spec fn default_lint_model() -> Json {
    Json::Object(
        seq![
            text_member("cssConflict", "warning"),
            text_member("invalidApply", "error"),
            text_member("invalidScreen", "error"),
            text_member("invalidVariant", "error"),
            text_member("invalidConfigPath", "error"),
            text_member("invalidTailwindDirective", "error"),
            text_member("recommendedVariantOrder", "warning"),
        ],
    )
}

/// The default settings document.
pub open spec fn default_settings_model() -> Json {
    Json::Object(
        seq![
            ("emmetCompletions"@, Json::Bool(false)),
            ("includeLanguages"@, default_include_languages_model()),
            ("files"@, Json::Object(seq![("exclude"@, default_excludes_model())])),
            (
                "editor"@,
                Json::Object(
                    seq![("quickSuggestions"@, Json::Object(seq![("strings"@, Json::Bool(true))]))],
                ),
            ),
            ("validate"@, Json::Bool(true)),
            ("lint"@, default_lint_model()),
            ("hovers"@, Json::Bool(true)),
            ("suggestions"@, Json::Bool(true)),
            ("codeActions"@, Json::Bool(true)),
            ("colorDecorators"@, Json::Bool(true)),
        ],
    )
}

/// The settings that take effect: the user's document as it is where there
/// is one, else the defaults.
pub open spec fn effective_settings_model(user: Option<Json>) -> Json {
    match user {
        Some(settings) => settings,
        None => default_settings_model(),
    }
}

/// A settings document under the one key by which the server knows its
/// settings.
pub open spec fn namespaced(settings: Json) -> Json {
    Json::Object(seq![("tailwindCSS"@, settings)])
}

/// The user's settings that a read of the settings source brought: none
/// where the read failed, and none where it found nothing.
pub open spec fn user_settings_model(read: Result<Option<Document>, String>) -> Option<Json> {
    match read {
        Ok(Some(settings)) => Some(settings@),
        _ => None,
    }
}

/// The workspace configuration of the server `id`, given the user's
/// settings: none for an identifier that is not known.
pub open spec fn workspace_configuration_of(id: Seq<char>, user: Option<Json>) -> Option<Json> {
    match kind_of(id) {
        Some(_) => Some(namespaced(effective_settings_model(user))),
        None => None,
    }
}

/// In the default settings every object, at any depth, names each of its
/// members once.
pub proof fn default_settings_are_well_formed()
    ensures
        well_formed(default_settings_model()),
{
    reveal_strlit("eex");
    reveal_strlit("heex");
    reveal_strlit("svelte");
    reveal_strlit("vue");
    reveal_strlit("astro");
    let languages = default_include_languages_model()->Object_0;
    assert(languages.len() == 5);
    assert(languages[0].0.len() == 3 && languages[0].0[0] == 'e');
    assert(languages[1].0.len() == 4);
    assert(languages[2].0.len() == 6);
    assert(languages[3].0.len() == 3 && languages[3].0[0] == 'v');
    assert(languages[4].0.len() == 5);
    assert(distinct_names(languages));
    assert forall|i: int| 0 <= i < languages.len() implies well_formed(
        (#[trigger] languages[i]).1,
    ) by {
        assert(languages[i].1 is Text);
    }
    assert(well_formed(default_include_languages_model()));

    let excludes = default_excludes_model()->List_0;
    assert forall|i: int| 0 <= i < excludes.len() implies well_formed(#[trigger] excludes[i]) by {
        assert(excludes[i] is Text);
    }
    assert(well_formed(default_excludes_model()));
    let files = seq![("exclude"@, default_excludes_model())];
    assert(distinct_names(files));
    assert(well_formed(Json::Object(files)));

    let strings = seq![("strings"@, Json::Bool(true))];
    assert(well_formed(Json::Bool(true)));
    assert(distinct_names(strings));
    assert(well_formed(Json::Object(strings)));
    let editor = seq![("quickSuggestions"@, Json::Object(strings))];
    assert(distinct_names(editor));
    assert(well_formed(Json::Object(editor)));

    reveal_strlit("cssConflict");
    reveal_strlit("invalidApply");
    reveal_strlit("invalidScreen");
    reveal_strlit("invalidVariant");
    reveal_strlit("invalidConfigPath");
    reveal_strlit("invalidTailwindDirective");
    reveal_strlit("recommendedVariantOrder");
    let lint = default_lint_model()->Object_0;
    assert(lint.len() == 7);
    assert(lint[0].0.len() == 11);
    assert(lint[1].0.len() == 12);
    assert(lint[2].0.len() == 13);
    assert(lint[3].0.len() == 14);
    assert(lint[4].0.len() == 17);
    assert(lint[5].0.len() == 24);
    assert(lint[6].0.len() == 23);
    assert(distinct_names(lint));
    assert forall|i: int| 0 <= i < lint.len() implies well_formed((#[trigger] lint[i]).1) by {
        assert(lint[i].1 is Text);
    }
    assert(well_formed(default_lint_model()));

    reveal_strlit("emmetCompletions");
    reveal_strlit("includeLanguages");
    reveal_strlit("files");
    reveal_strlit("editor");
    reveal_strlit("validate");
    reveal_strlit("lint");
    reveal_strlit("hovers");
    reveal_strlit("suggestions");
    reveal_strlit("codeActions");
    reveal_strlit("colorDecorators");
    let members = default_settings_model()->Object_0;
    assert(members.len() == 10);
    assert(members[0].0.len() == 16 && members[0].0[0] == 'e');
    assert(members[1].0.len() == 16 && members[1].0[0] == 'i');
    assert(members[2].0.len() == 5);
    assert(members[3].0.len() == 6 && members[3].0[0] == 'e');
    assert(members[4].0.len() == 8);
    assert(members[5].0.len() == 4);
    assert(members[6].0.len() == 6 && members[6].0[0] == 'h');
    assert(members[7].0.len() == 11 && members[7].0[0] == 's');
    assert(members[8].0.len() == 11 && members[8].0[0] == 'c');
    assert(members[9].0.len() == 15);
    assert(distinct_names(members));
    assert(well_formed(members[0].1));
    assert(well_formed(members[1].1));
    assert(well_formed(members[2].1));
    assert(well_formed(members[3].1));
    assert(well_formed(members[4].1));
    assert(well_formed(members[5].1));
    assert(well_formed(members[6].1));
    assert(well_formed(members[7].1));
    assert(well_formed(members[8].1));
    assert(well_formed(members[9].1));
}

/// A document under the settings key is well formed exactly where the
/// document is.
pub proof fn namespacing_keeps_well_formedness(settings: Json)
    ensures
        well_formed(namespaced(settings)) == well_formed(settings),
{
    let members = seq![("tailwindCSS"@, settings)];
    assert(distinct_names(members));
    assert(members[0].1 == settings);
}

fn default_include_languages() -> (d: Document)
    ensures
        d@ == default_include_languages_model(),
{
    let mut members: Vec<(String, Document)> = Vec::new();
    proof {
        lemma_no_members();
    }
    push_text_member(&mut members, "eex", "html");
    push_text_member(&mut members, "heex", "html");
    push_text_member(&mut members, "svelte", "html");
    push_text_member(&mut members, "vue", "html");
    push_text_member(&mut members, "astro", "html");
    let d = Document::object(members);
    assert(d@->Object_0 =~= default_include_languages_model()->Object_0);
    d
}

fn default_excludes() -> (d: Document)
    ensures
        d@ == default_excludes_model(),
{
    let mut items: Vec<Document> = Vec::new();
    proof {
        lemma_no_items();
    }
    push_text_item(&mut items, "**/.git/**");
    push_text_item(&mut items, "**/node_modules/**");
    push_text_item(&mut items, "**/.hg/**");
    push_text_item(&mut items, "**/.svn/**");
    let d = Document::list(items);
    assert(d@->List_0 =~= default_excludes_model()->List_0);
    d
}

fn default_lint() -> (d: Document)
    ensures
        d@ == default_lint_model(),
{
    let mut members: Vec<(String, Document)> = Vec::new();
    proof {
        lemma_no_members();
    }
    push_text_member(&mut members, "cssConflict", "warning");
    push_text_member(&mut members, "invalidApply", "error");
    push_text_member(&mut members, "invalidScreen", "error");
    push_text_member(&mut members, "invalidVariant", "error");
    push_text_member(&mut members, "invalidConfigPath", "error");
    push_text_member(&mut members, "invalidTailwindDirective", "error");
    push_text_member(&mut members, "recommendedVariantOrder", "warning");
    let d = Document::object(members);
    assert(d@->Object_0 =~= default_lint_model()->Object_0);
    d
}

/// The object with the one member `key: value`.
fn single(key: &str, value: Document) -> (d: Document)
    ensures
        d@ == Json::Object(seq![(key@, value@)]),
{
    let mut members: Vec<(String, Document)> = Vec::new();
    proof {
        lemma_no_members();
    }
    push_member(&mut members, key, value);
    Document::object(members)
}

/// Builds the default settings document.
pub fn default_settings() -> (d: Document)
    ensures
        d@ == default_settings_model(),
        well_formed(d@),
{
    proof {
        default_settings_are_well_formed();
    }
    let mut members: Vec<(String, Document)> = Vec::new();
    proof {
        lemma_no_members();
    }
    push_member(&mut members, "emmetCompletions", Document::Bool(false));
    push_member(&mut members, "includeLanguages", default_include_languages());
    push_member(&mut members, "files", single("exclude", default_excludes()));
    push_member(
        &mut members,
        "editor",
        single("quickSuggestions", single("strings", Document::Bool(true))),
    );
    push_member(&mut members, "validate", Document::Bool(true));
    push_member(&mut members, "lint", default_lint());
    push_member(&mut members, "hovers", Document::Bool(true));
    push_member(&mut members, "suggestions", Document::Bool(true));
    push_member(&mut members, "codeActions", Document::Bool(true));
    push_member(&mut members, "colorDecorators", Document::Bool(true));
    let d = Document::object(members);
    assert(d@->Object_0 =~= default_settings_model()->Object_0);
    d
}

/// The user's settings out of what a read of the settings source brought.
/// A read that failed counts as one that found nothing: why it failed is
/// dropped.
pub fn user_settings(read: Result<Option<Document>, String>) -> (user: Option<Document>)
    ensures
        optional_model(user) == user_settings_model(read),
        match read {
            Ok(Some(settings)) => user == Some(settings),
            _ => user is None,
        },
{
    match read {
        Ok(found) => found,
        Err(_) => None,
    }
}

/// The settings that take effect: the user's document, unchanged, where
/// there is one, else the defaults.
pub fn effective_settings(user: Option<Document>) -> (d: Document)
    ensures
        d@ == effective_settings_model(optional_model(user)),
        user matches Some(settings) ==> d == settings,
        user matches Some(settings) ==> (well_formed(d@) <==> well_formed(settings@)),
        user is None ==> well_formed(d@),
{
    match user {
        Some(settings) => settings,
        None => default_settings(),
    }
}

/// Puts `settings` under the key by which the server knows its settings.
pub fn namespace_settings(settings: Document) -> (d: Document)
    ensures
        d@ == namespaced(settings@),
        well_formed(d@) == well_formed(settings@),
{
    proof {
        namespacing_keeps_well_formedness(settings@);
    }
    single("tailwindCSS", settings)
}

/// The key under which the settings source holds the settings of
/// `server_id`, to be read before the workspace configuration is made; none
/// for an identifier that is not known.
pub fn settings_request(server_id: &str) -> (key: Option<&'static str>)
    ensures
        match key {
            Some(k) => kind_of(server_id@) is Some && k@ == tailwind_server_name(),
            None => kind_of(server_id@) is None,
        },
{
    match classify(server_id) {
        Some(kind) => Some(kind.name()),
        None => None,
    }
}

/// The workspace configuration for the server `server_id`, given what a
/// read of the server's settings brought. This never fails: an identifier
/// that is not known gets no configuration, and a read that failed or found
/// nothing gives the defaults.
pub fn workspace_configuration(server_id: &str, read: Result<Option<Document>, String>) -> (r:
    Result<Option<Document>, ServerError>)
    ensures
        r is Ok,
        optional_model(r->Ok_0) == workspace_configuration_of(
            server_id@,
            user_settings_model(read),
        ),
        r->Ok_0 matches Some(configuration) ==> (well_formed(configuration@) <==> (read matches Ok(
            Some(settings),
        ) ==> well_formed(settings@))),
{
    match classify(server_id) {
        Some(_) => Ok(Some(namespace_settings(effective_settings(user_settings(read))))),
        None => Ok(None),
    }
}

} // verus!
