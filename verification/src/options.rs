//! The options sent to the language server once, when it starts.

use vstd::prelude::*;
use crate::document::{
    Document, Json, distinct_names, lemma_no_items, lemma_no_members, optional_model, push_member,
    push_text_item, push_text_member, text_member, well_formed,
};
use crate::server::{classify, kind_of, ServerError};

verus! {

/// Which syntax the class scanner takes each language tag for.
pub open spec fn user_languages_model() -> Json {
    Json::Object(
        seq![
            text_member("eex", "html"),
            text_member("heex", "html"),
            text_member("svelte", "html"),
            text_member("vue", "html"),
            text_member("astro", "html"),
            text_member("jsx", "javascriptreact"),
            text_member("tsx", "typescriptreact"),
            text_member("php", "html"),
            text_member("erb", "html"),
            text_member("twig", "html"),
            text_member("blade", "html"),
        ],
    )
}

/// The languages that the scanner also reads, each as another language.
pub open spec fn include_languages_model() -> Json {
    Json::Object(
        seq![
            text_member("typescript", "javascript"),
            text_member("typescriptreact", "javascript"),
            text_member("vue", "html"),
            text_member("svelte", "html"),
        ],
    )
}

/// The attributes whose values are class strings.
pub open spec fn class_attributes_model() -> Json {
    Json::List(
        seq![
            Json::Text("class"@),
            Json::Text("className"@),
            Json::Text("ngClass"@),
            Json::Text("class:list"@),
            Json::Text(":class"@),
            Json::Text("v-bind:class"@),
        ],
    )
}

/// The regular expressions that find class strings outside attributes: in
/// the template literals of `tw`, and in calls of `classNames`, `cva` and
/// `cn`.
pub open spec fn class_regex_model() -> Json {
    Json::List(
        seq![
            Json::Text("tw`([^`]*)"@),
            Json::Text("tw=\"([^\"]*)"@),
            Json::Text("tw={\"([^\"}]*)"@),
            Json::Text("tw\\.\\w+`([^`]*)"@),
            Json::Text("tw\\(.*?\\)`([^`]*)"@),
            Json::Text("classNames\\s*\\(\\s*['\"`]([^'\"`]*)['\"`]"@),
            Json::Text("cva\\s*\\([^)]*['\"`]([^'\"`]*)['\"`]"@),
            Json::Text("cn\\s*\\([^)]*['\"`]([^'\"`]*)['\"`]"@),
        ],
    )
}

/// The fixed document of initialization options.
pub open spec fn initialization_options_model() -> Json {
    Json::Object(
        seq![
            ("userLanguages"@, user_languages_model()),
            ("includeLanguages"@, include_languages_model()),
            ("classAttributes"@, class_attributes_model()),
            ("experimental"@, Json::Object(seq![("classRegex"@, class_regex_model())])),
        ],
    )
}

/// The initialization options that the server `id` gets: the fixed document
/// for the known server, none for any other identifier.
pub open spec fn initialization_options_of(id: Seq<char>) -> Option<Json> {
    match kind_of(id) {
        Some(_) => Some(initialization_options_model()),
        None => None,
    }
}

/// The mapping of language tags to syntaxes names each tag once.
pub proof fn user_languages_are_well_formed()
    ensures
        well_formed(user_languages_model()),
{
    reveal_strlit("eex");
    reveal_strlit("heex");
    reveal_strlit("svelte");
    reveal_strlit("vue");
    reveal_strlit("astro");
    reveal_strlit("jsx");
    reveal_strlit("tsx");
    reveal_strlit("php");
    reveal_strlit("erb");
    reveal_strlit("twig");
    reveal_strlit("blade");
    let members = user_languages_model()->Object_0;
    assert(members.len() == 11);
    assert(members[0].0.len() == 3 && members[0].0[0] == 'e' && members[0].0[1] == 'e');
    assert(members[1].0.len() == 4 && members[1].0[0] == 'h');
    assert(members[2].0.len() == 6);
    assert(members[3].0.len() == 3 && members[3].0[0] == 'v');
    assert(members[4].0.len() == 5 && members[4].0[0] == 'a');
    assert(members[5].0.len() == 3 && members[5].0[0] == 'j');
    assert(members[6].0.len() == 3 && members[6].0[0] == 't');
    assert(members[7].0.len() == 3 && members[7].0[0] == 'p');
    assert(members[8].0.len() == 3 && members[8].0[0] == 'e' && members[8].0[1] == 'r');
    assert(members[9].0.len() == 4 && members[9].0[0] == 't');
    assert(members[10].0.len() == 5 && members[10].0[0] == 'b');
    assert(distinct_names(members));
    assert forall|i: int| 0 <= i < members.len() implies well_formed((#[trigger] members[i]).1) by {
        assert(members[i].1 is Text);
    }
}

/// The mapping of the languages read as others names each language once.
pub proof fn include_languages_are_well_formed()
    ensures
        well_formed(include_languages_model()),
{
    reveal_strlit("typescript");
    reveal_strlit("typescriptreact");
    reveal_strlit("vue");
    reveal_strlit("svelte");
    let members = include_languages_model()->Object_0;
    assert(members.len() == 4);
    assert(members[0].0.len() == 10);
    assert(members[1].0.len() == 15);
    assert(members[2].0.len() == 3);
    assert(members[3].0.len() == 6);
    assert(distinct_names(members));
    assert forall|i: int| 0 <= i < members.len() implies well_formed((#[trigger] members[i]).1) by {
        assert(members[i].1 is Text);
    }
}

/// In the initialization options every object, at any depth, names each of
/// its members once.
pub proof fn initialization_options_are_well_formed()
    ensures
        well_formed(initialization_options_model()),
{
    reveal_strlit("userLanguages");
    reveal_strlit("includeLanguages");
    reveal_strlit("classAttributes");
    reveal_strlit("experimental");
    user_languages_are_well_formed();
    include_languages_are_well_formed();
    let attributes = class_attributes_model()->List_0;
    assert forall|i: int| 0 <= i < attributes.len() implies well_formed(#[trigger] attributes[i]) by {
        assert(attributes[i] is Text);
    }
    let patterns = class_regex_model()->List_0;
    assert forall|i: int| 0 <= i < patterns.len() implies well_formed(#[trigger] patterns[i]) by {
        assert(patterns[i] is Text);
    }
    assert(well_formed(class_regex_model()));
    let experimental = seq![("classRegex"@, class_regex_model())];
    assert(distinct_names(experimental));
    assert(well_formed(Json::Object(experimental)));
    let members = initialization_options_model()->Object_0;
    assert(members.len() == 4);
    assert(members[0].0.len() == 13);
    assert(members[1].0.len() == 16);
    assert(members[2].0.len() == 15);
    assert(members[3].0.len() == 12);
    assert(distinct_names(members));
    assert(well_formed(members[0].1));
    assert(well_formed(members[1].1));
    assert(well_formed(members[2].1));
    assert(well_formed(members[3].1));
}

fn user_languages() -> (d: Document)
    ensures
        d@ == user_languages_model(),
{
    let mut members: Vec<(String, Document)> = Vec::new();
    proof {
        lemma_no_members();
    }
    push_text_member(&mut members, "eex", "html");
    push_text_member(&mut members, "heex", "html");
    push_text_member(&mut members, "svelte", "html");
    push_text_member(&mut members, "vue", "html");
    push_text_member(&mut members, "astro", "html");
    push_text_member(&mut members, "jsx", "javascriptreact");
    push_text_member(&mut members, "tsx", "typescriptreact");
    push_text_member(&mut members, "php", "html");
    push_text_member(&mut members, "erb", "html");
    push_text_member(&mut members, "twig", "html");
    push_text_member(&mut members, "blade", "html");
    let d = Document::object(members);
    assert(d@->Object_0 =~= user_languages_model()->Object_0);
    d
}

fn include_languages() -> (d: Document)
    ensures
        d@ == include_languages_model(),
{
    let mut members: Vec<(String, Document)> = Vec::new();
    proof {
        lemma_no_members();
    }
    push_text_member(&mut members, "typescript", "javascript");
    push_text_member(&mut members, "typescriptreact", "javascript");
    push_text_member(&mut members, "vue", "html");
    push_text_member(&mut members, "svelte", "html");
    let d = Document::object(members);
    assert(d@->Object_0 =~= include_languages_model()->Object_0);
    d
}

fn class_attributes() -> (d: Document)
    ensures
        d@ == class_attributes_model(),
{
    let mut items: Vec<Document> = Vec::new();
    proof {
        lemma_no_items();
    }
    push_text_item(&mut items, "class");
    push_text_item(&mut items, "className");
    push_text_item(&mut items, "ngClass");
    push_text_item(&mut items, "class:list");
    push_text_item(&mut items, ":class");
    push_text_item(&mut items, "v-bind:class");
    let d = Document::list(items);
    assert(d@->List_0 =~= class_attributes_model()->List_0);
    d
}

fn class_regex() -> (d: Document)
    ensures
        d@ == class_regex_model(),
{
    let mut items: Vec<Document> = Vec::new();
    proof {
        lemma_no_items();
    }
    push_text_item(&mut items, "tw`([^`]*)");
    push_text_item(&mut items, "tw=\"([^\"]*)");
    push_text_item(&mut items, "tw={\"([^\"}]*)");
    push_text_item(&mut items, "tw\\.\\w+`([^`]*)");
    push_text_item(&mut items, "tw\\(.*?\\)`([^`]*)");
    push_text_item(&mut items, "classNames\\s*\\(\\s*['\"`]([^'\"`]*)['\"`]");
    push_text_item(&mut items, "cva\\s*\\([^)]*['\"`]([^'\"`]*)['\"`]");
    push_text_item(&mut items, "cn\\s*\\([^)]*['\"`]([^'\"`]*)['\"`]");
    let d = Document::list(items);
    assert(d@->List_0 =~= class_regex_model()->List_0);
    d
}

/// Builds the fixed document of initialization options.
pub fn default_initialization_options() -> (d: Document)
    ensures
        d@ == initialization_options_model(),
        well_formed(d@),
{
    proof {
        initialization_options_are_well_formed();
    }
    let mut experimental: Vec<(String, Document)> = Vec::new();
    let mut members: Vec<(String, Document)> = Vec::new();
    proof {
        lemma_no_members();
    }
    push_member(&mut experimental, "classRegex", class_regex());
    push_member(&mut members, "userLanguages", user_languages());
    push_member(&mut members, "includeLanguages", include_languages());
    push_member(&mut members, "classAttributes", class_attributes());
    push_member(&mut members, "experimental", Document::object(experimental));
    let d = Document::object(members);
    assert(d@->Object_0 =~= initialization_options_model()->Object_0);
    d
}

/// The initialization options for the server `server_id`. This never fails:
/// an identifier that is not known gets no options.
pub fn initialization_options(server_id: &str) -> (r: Result<Option<Document>, ServerError>)
    ensures
        r is Ok,
        optional_model(r->Ok_0) == initialization_options_of(server_id@),
        r->Ok_0 matches Some(options) ==> well_formed(options@),
{
    match classify(server_id) {
        Some(_) => Ok(Some(default_initialization_options())),
        None => Ok(None),
    }
}

} // verus!
