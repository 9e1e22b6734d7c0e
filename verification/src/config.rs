//! Reconciliation of the daemon's configuration document.
//!
//! Every operation takes the text that is on disk, if any, and gives the text
//! to write back. An operation changes the keys that it owns and leaves every
//! other key as it found it.

use crate::json::{
    drop_entry, entries_view, number, parse_text, parsed_text, put_entry, render_text,
    rendered_text, take_entry, Json, JsonView,
};
use crate::text::{decimal, owned};
use vstd::prelude::*;

verus! {

/// A part of the configuration that has to be an object.
#[derive(Clone, Copy, Debug, PartialEq, Eq, Structural)]
pub enum Section {
    Gateway,
    Channels,
    Channel,
    Models,
    Providers,
    Agents,
    Defaults,
}

/// Why a document cannot be reconciled.
#[derive(Clone, Copy, Debug, PartialEq, Eq, Structural)]
pub enum ConfigFault {
    /// The document is not an object.
    RootNotObject,
    /// A part that has to be an object is something else.
    SectionNotObject(Section),
}

/// Why an operation gave no text to write.
#[derive(Debug, PartialEq, Eq)]
pub enum ConfigError {
    /// The document has the wrong shape.
    Fault(ConfigFault),
    /// The document could not be written as text; the message says why.
    Serialize(String),
}

/// The path of a part of the configuration, as it is shown.
pub open spec fn section_path(section: Section) -> Seq<char> {
    match section {
        Section::Gateway => "gateway"@,
        Section::Channels => "channels"@,
        Section::Channel => "channels.<channel>"@,
        Section::Models => "models"@,
        Section::Providers => "models.providers"@,
        Section::Agents => "agents"@,
        Section::Defaults => "agents.defaults"@,
    }
}

/// What a fault is shown as.
pub open spec fn fault_text(fault: ConfigFault) -> Seq<char> {
    match fault {
        ConfigFault::RootNotObject => "Config is not a JSON object"@,
        ConfigFault::SectionNotObject(section) => section_path(section) + " must be an object"@,
    }
}

/// What an error is shown as.
pub open spec fn error_text(error: ConfigError) -> Seq<char> {
    match error {
        ConfigError::Fault(fault) => fault_text(fault),
        ConfigError::Serialize(reason) => "Failed to serialize config: "@ + reason@,
    }
}

impl Section {
    /// The path of the part, as it is shown.
    pub fn path(&self) -> (out: &'static str)
        ensures
            out@ == section_path(*self),
    {
        match self {
            Section::Gateway => "gateway",
            Section::Channels => "channels",
            Section::Channel => "channels.<channel>",
            Section::Models => "models",
            Section::Providers => "models.providers",
            Section::Agents => "agents",
            Section::Defaults => "agents.defaults",
        }
    }
}

impl ConfigFault {
    /// What the fault is shown as.
    pub fn describe(&self) -> (out: String)
        ensures
            out@ == fault_text(*self),
    {
        match self {
            ConfigFault::RootNotObject => owned("Config is not a JSON object"),
            ConfigFault::SectionNotObject(section) => crate::checks::joined(
                section.path(),
                " must be an object",
            ),
        }
    }
}

impl ConfigError {
    /// What the error is shown as.
    pub fn describe(&self) -> (out: String)
        ensures
            out@ == error_text(*self),
    {
        match self {
            ConfigError::Fault(fault) => fault.describe(),
            ConfigError::Serialize(reason) => crate::checks::joined(
                "Failed to serialize config: ",
                reason.as_str(),
            ),
        }
    }
}

/// The characters of an optional text.
pub open spec fn text_of(existing: Option<&str>) -> Option<Seq<char>> {
    match existing {
        Some(text) => Some(text@),
        None => None,
    }
}

/// The document without any key.
pub open spec fn empty_document() -> JsonView {
    JsonView::Object(Map::empty())
}

/// The document that an operation starts from: what the text on disk holds,
/// or the empty document where there is no text or it cannot be read as JSON.
pub open spec fn loaded(existing: Option<Seq<char>>) -> JsonView {
    match existing {
        Some(text) => match parsed_text(text) {
            Some(tree) => tree,
            None => empty_document(),
        },
        None => empty_document(),
    }
}

/// The object under `key`, an empty one where the key is missing, and `None`
/// where the key holds something that is no object.
pub open spec fn section(
    parent: Map<Seq<char>, JsonView>,
    key: Seq<char>,
) -> Option<Map<Seq<char>, JsonView>> {
    if parent.contains_key(key) {
        match parent[key] {
            JsonView::Object(child) => Some(child),
            _ => None,
        }
    } else {
        Some(Map::empty())
    }
}

/// The document in local mode: `gateway.mode` is `"local"` and `gateway.auth`
/// is gone.
pub open spec fn local_mode(tree: JsonView) -> Result<JsonView, ConfigFault> {
    match tree {
        JsonView::Object(root) => match section(root, "gateway"@) {
            Some(gateway) => Ok(
                JsonView::Object(
                    root.insert(
                        "gateway"@,
                        JsonView::Object(
                            gateway.insert("mode"@, JsonView::Text("local"@)).remove("auth"@),
                        ),
                    ),
                ),
            ),
            None => Err(ConfigFault::SectionNotObject(Section::Gateway)),
        },
        _ => Err(ConfigFault::RootNotObject),
    }
}

/// The document without `gateway.auth`; a document without a gateway object
/// stays as it is.
pub open spec fn without_gateway_auth(tree: JsonView) -> JsonView {
    match tree {
        JsonView::Object(root) => if root.contains_key("gateway"@) {
            match root["gateway"@] {
                JsonView::Object(gateway) => JsonView::Object(
                    root.insert("gateway"@, JsonView::Object(gateway.remove("auth"@))),
                ),
                _ => tree,
            }
        } else {
            tree
        },
        _ => tree,
    }
}

/// Reads the document that an operation starts from.
pub fn load_document(existing: Option<&str>) -> (doc: Json)
    ensures
        doc@ == loaded(text_of(existing)),
{
    match existing {
        Some(text) => match parse_text(text) {
            Ok(doc) => doc,
            Err(_) => Json::Object(Vec::new()),
        },
        None => Json::Object(Vec::new()),
    }
}

/// What an operation returns for a reconciled document and the outcome of
/// writing it as text.
pub fn written(rendered: Result<String, String>) -> (out: Result<String, ConfigError>)
    ensures
        match rendered {
            Ok(text) => out == Ok::<String, ConfigError>(text),
            Err(message) => out == Err::<String, ConfigError>(ConfigError::Serialize(message)),
        },
{
    match rendered {
        Ok(text) => Ok(text),
        Err(message) => Err(ConfigError::Serialize(message)),
    }
}

/// Takes the object under `key` out of the entries: an empty one where the
/// key is missing, `None` where the key holds something else.
pub fn take_section(entries: &mut Vec<(String, Json)>, key: &str) -> (out: Option<
    Vec<(String, Json)>,
>)
    ensures
        entries_view(final(entries)@) == entries_view(old(entries)@).remove(key@),
        match section(entries_view(old(entries)@), key@) {
            Some(child) => out matches Some(found) && entries_view(found@) == child,
            None => out is None,
        },
{
    match take_entry(entries, key) {
        Some(Json::Object(found)) => Some(found),
        Some(_) => None,
        None => Some(Vec::new()),
    }
}

/// Puts a document into local mode.
pub fn reconcile_local_mode(doc: Json) -> (out: Result<Json, ConfigFault>)
    ensures
        match local_mode(doc@) {
            Ok(tree) => out matches Ok(done) && done@ == tree,
            Err(fault) => out == Err::<Json, ConfigFault>(fault),
        },
{
    match doc {
        Json::Object(root) => {
            let mut root = root;
            match take_section(&mut root, "gateway") {
                Some(gateway) => {
                    let mut gateway = gateway;
                    put_entry(&mut gateway, "mode", Json::Text(owned("local")));
                    drop_entry(&mut gateway, "auth");
                    let ghost inner = entries_view(gateway@);
                    put_entry(&mut root, "gateway", Json::Object(gateway));
                    assert(entries_view(root@) =~= entries_view(doc->Object_0@).insert(
                        "gateway"@,
                        JsonView::Object(inner),
                    ));
                    Ok(Json::Object(root))
                },
                None => Err(ConfigFault::SectionNotObject(Section::Gateway)),
            }
        },
        _ => Err(ConfigFault::RootNotObject),
    }
}

/// Takes `gateway.auth` out of a document.
pub fn strip_gateway_auth(doc: Json) -> (out: Json)
    ensures
        out@ == without_gateway_auth(doc@),
{
    match doc {
        Json::Object(root) => {
            let mut root = root;
            let ghost before = entries_view(root@);
            match take_entry(&mut root, "gateway") {
                Some(Json::Object(gateway)) => {
                    let mut gateway = gateway;
                    drop_entry(&mut gateway, "auth");
                    let ghost inner = entries_view(gateway@);
                    put_entry(&mut root, "gateway", Json::Object(gateway));
                    assert(entries_view(root@) =~= before.insert(
                        "gateway"@,
                        JsonView::Object(inner),
                    ));
                    Json::Object(root)
                },
                Some(other) => {
                    put_entry(&mut root, "gateway", other);
                    assert(entries_view(root@) =~= before);
                    Json::Object(root)
                },
                None => {
                    assert(entries_view(root@) =~= before);
                    Json::Object(root)
                },
            }
        },
        other => other,
    }
}

/// Forces `gateway.mode` to `"local"` and removes `gateway.auth`, so that the
/// gateway accepts connections from this machine.
///
/// `existing` is the text on disk, `None` where there is no file. The result
/// is the text to write. A text that is no JSON counts as the empty document.
pub fn ensure_gateway_mode(existing: Option<&str>) -> (out: Result<String, ConfigError>)
    ensures
        match local_mode(loaded(text_of(existing))) {
            Ok(tree) => match out {
                Ok(text) => rendered_text(tree) == Some(text@),
                Err(error) => error is Serialize && rendered_text(tree) is None,
            },
            Err(fault) => out == Err::<String, ConfigError>(ConfigError::Fault(fault)),
        },
{
    match reconcile_local_mode(load_document(existing)) {
        Ok(done) => written(render_text(&done)),
        Err(fault) => Err(ConfigError::Fault(fault)),
    }
}

/// Removes `gateway.auth` from the document on disk.
///
/// Without a file there is nothing to do and nothing to write: `Ok(None)`.
/// A text that is no JSON counts as the empty document.
pub fn remove_gateway_auth_for_local(existing: Option<&str>) -> (out: Result<
    Option<String>,
    ConfigError,
>)
    ensures
        match text_of(existing) {
            None => out == Ok::<Option<String>, ConfigError>(None),
            Some(text) => match out {
                Ok(Some(written)) => rendered_text(without_gateway_auth(loaded(Some(text))))
                    == Some(written@),
                Ok(None) => false,
                Err(error) => error is Serialize && rendered_text(
                    without_gateway_auth(loaded(Some(text))),
                ) is None,
            },
        },
{
    match existing {
        None => Ok(None),
        Some(_) => {
            let done = strip_gateway_auth(load_document(existing));
            match render_text(&done) {
                Ok(text) => Ok(Some(text)),
                Err(message) => Err(ConfigError::Serialize(message)),
            }
        },
    }
}

/// The cost table of the local model: nothing costs anything.
pub open spec fn cost_definition() -> JsonView {
    JsonView::Object(
        Map::empty().insert("input"@, JsonView::Number(decimal(0))).insert(
            "output"@,
            JsonView::Number(decimal(0)),
        ).insert("cacheRead"@, JsonView::Number(decimal(0))).insert(
            "cacheWrite"@,
            JsonView::Number(decimal(0)),
        ),
    )
}

/// What the configuration says of the model `model`.
pub open spec fn model_definition(model: Seq<char>) -> JsonView {
    JsonView::Object(
        Map::empty().insert("id"@, JsonView::Text(model)).insert(
            "name"@,
            JsonView::Text("Daemon"@),
        ).insert("reasoning"@, JsonView::Bool(false)).insert(
            "input"@,
            JsonView::Array(seq![JsonView::Text("text"@)]),
        ).insert("cost"@, cost_definition()).insert(
            "contextWindow"@,
            JsonView::Number(decimal(16384)),
        ).insert("maxTokens"@, JsonView::Number(decimal(8192))),
    )
}

/// What the configuration says of the local provider that serves `model`.
pub open spec fn provider_definition(model: Seq<char>) -> JsonView {
    JsonView::Object(
        Map::empty().insert("baseUrl"@, JsonView::Text("http://127.0.0.1:11434/v1"@)).insert(
            "apiKey"@,
            JsonView::Text("ollama"@),
        ).insert("api"@, JsonView::Text("openai-completions"@)).insert(
            "models"@,
            JsonView::Array(seq![model_definition(model)]),
        ),
    )
}

/// The reference by which the agents name the model: provider, slash, model.
pub open spec fn model_reference(model: Seq<char>) -> Seq<char> {
    "ollama/"@ + model
}

/// The root of a document after the model was set, given the objects that it
/// had under `models`, `models.providers`, `agents` and `agents.defaults`.
pub open spec fn model_root(
    root: Map<Seq<char>, JsonView>,
    models: Map<Seq<char>, JsonView>,
    providers: Map<Seq<char>, JsonView>,
    agents: Map<Seq<char>, JsonView>,
    defaults: Map<Seq<char>, JsonView>,
    model: Seq<char>,
) -> Map<Seq<char>, JsonView> {
    root.remove("provider"@).remove("model"@).remove("contextWindow"@).remove("maxTokens"@).insert(
        "models"@,
        JsonView::Object(
            models.insert(
                "providers"@,
                JsonView::Object(providers.insert("ollama"@, provider_definition(model))),
            ),
        ),
    ).insert(
        "agents"@,
        JsonView::Object(
            agents.insert(
                "defaults"@,
                JsonView::Object(
                    defaults.insert(
                        "model"@,
                        JsonView::Object(
                            Map::empty().insert(
                                "primary"@,
                                JsonView::Text(model_reference(model)),
                            ),
                        ),
                    ),
                ),
            ),
        ),
    )
}

/// The document with `model` as the agents' model.
///
/// The keys `provider`, `model`, `contextWindow` and `maxTokens` of older
/// versions leave the root, the model is registered under
/// `models.providers.ollama`, and `agents.defaults.model` names it. Nothing
/// else is read or changed: the gateway stays as it is, whatever it is.
pub open spec fn with_model(tree: JsonView, model: Seq<char>) -> Result<JsonView, ConfigFault> {
    match tree {
        JsonView::Object(root) => match section(root, "models"@) {
            None => Err(ConfigFault::SectionNotObject(Section::Models)),
            Some(models) => match section(models, "providers"@) {
                None => Err(ConfigFault::SectionNotObject(Section::Providers)),
                Some(providers) => match section(root, "agents"@) {
                    None => Err(ConfigFault::SectionNotObject(Section::Agents)),
                    Some(agents) => match section(agents, "defaults"@) {
                        None => Err(ConfigFault::SectionNotObject(Section::Defaults)),
                        Some(defaults) => Ok(
                            JsonView::Object(
                                model_root(root, models, providers, agents, defaults, model),
                            ),
                        ),
                    },
                },
            },
        },
        _ => Err(ConfigFault::RootNotObject),
    }
}

/// The credential that stands for the local provider. The backend does not
/// look at it; the daemon wants one to be there.
pub open spec fn local_profile() -> JsonView {
    JsonView::Object(
        Map::empty().insert("provider"@, JsonView::Text("ollama"@)).insert(
            "mode"@,
            JsonView::Text("api_key"@),
        ).insert("key"@, JsonView::Text("ollama"@)),
    )
}

/// The credential document with the local provider's entry, under the key
/// made of provider, colon and scope.
pub open spec fn with_local_profile(tree: JsonView) -> Result<JsonView, ConfigFault> {
    match tree {
        JsonView::Object(root) => Ok(JsonView::Object(root.insert("ollama:local"@, local_profile()))),
        _ => Err(ConfigFault::RootNotObject),
    }
}

/// The document in which the channel answers `identity` alone.
pub open spec fn with_self_chat_guard(
    tree: JsonView,
    channel: Seq<char>,
    identity: Seq<char>,
) -> Result<JsonView, ConfigFault> {
    match tree {
        JsonView::Object(root) => match section(root, "channels"@) {
            None => Err(ConfigFault::SectionNotObject(Section::Channels)),
            Some(channels) => match section(channels, channel) {
                None => Err(ConfigFault::SectionNotObject(Section::Channel)),
                Some(own) => Ok(
                    JsonView::Object(
                        root.insert(
                            "channels"@,
                            JsonView::Object(
                                channels.insert(
                                    channel,
                                    JsonView::Object(
                                        own.insert(
                                            "dmPolicy"@,
                                            JsonView::Text("allowlist"@),
                                        ).insert(
                                            "allowFrom"@,
                                            JsonView::Array(seq![JsonView::Text(identity)]),
                                        ),
                                    ),
                                ),
                            ),
                        ),
                    ),
                ),
            },
        },
        _ => Err(ConfigFault::RootNotObject),
    }
}

/// An array that holds one value.
pub fn single(item: Json) -> (out: Json)
    ensures
        out@ == JsonView::Array(seq![item@]),
{
    let mut items: Vec<Json> = Vec::new();
    items.push(item);
    proof {
        assert(items@.drop_last() =~= Seq::<Json>::empty());
        assert(crate::json::items_view(items@.drop_last()) =~= Seq::<JsonView>::empty());
        assert(crate::json::items_view(items@) =~= seq![item@]);
    }
    Json::Array(items)
}

/// A JSON string with the characters of `text`.
pub fn text_value(text: &str) -> (out: Json)
    ensures
        out@ == JsonView::Text(text@),
{
    Json::Text(owned(text))
}

/// Builds what the configuration says of the model.
pub fn build_model_definition(model: &str) -> (out: Json)
    ensures
        out@ == model_definition(model@),
{
    let mut cost: Vec<(String, Json)> = Vec::new();
    put_entry(&mut cost, "input", number(0));
    put_entry(&mut cost, "output", number(0));
    put_entry(&mut cost, "cacheRead", number(0));
    put_entry(&mut cost, "cacheWrite", number(0));
    let mut entries: Vec<(String, Json)> = Vec::new();
    put_entry(&mut entries, "id", text_value(model));
    put_entry(&mut entries, "name", text_value("Daemon"));
    put_entry(&mut entries, "reasoning", Json::Bool(false));
    put_entry(&mut entries, "input", single(text_value("text")));
    put_entry(&mut entries, "cost", Json::Object(cost));
    put_entry(&mut entries, "contextWindow", number(16384));
    put_entry(&mut entries, "maxTokens", number(8192));
    Json::Object(entries)
}

/// Builds what the configuration says of the local provider.
pub fn build_provider_definition(model: &str) -> (out: Json)
    ensures
        out@ == provider_definition(model@),
{
    let mut entries: Vec<(String, Json)> = Vec::new();
    put_entry(&mut entries, "baseUrl", text_value("http://127.0.0.1:11434/v1"));
    put_entry(&mut entries, "apiKey", text_value("ollama"));
    put_entry(&mut entries, "api", text_value("openai-completions"));
    put_entry(&mut entries, "models", single(build_model_definition(model)));
    Json::Object(entries)
}

/// Sets the agents' model in a document.
pub fn reconcile_model(doc: Json, model: &str) -> (out: Result<Json, ConfigFault>)
    ensures
        match with_model(doc@, model@) {
            Ok(tree) => out matches Ok(done) && done@ == tree,
            Err(fault) => out == Err::<Json, ConfigFault>(fault),
        },
{
    proof {
        reveal_strlit("models");
        reveal_strlit("agents");
        reveal_strlit("provider");
        reveal_strlit("model");
        reveal_strlit("contextWindow");
        reveal_strlit("maxTokens");
        assert("models"@[0] != "agents"@[0]);
    }
    let root = match doc {
        Json::Object(root) => root,
        _ => {
            return Err(ConfigFault::RootNotObject);
        },
    };
    let mut root = root;
    let ghost before = entries_view(root@);
    let models = match take_section(&mut root, "models") {
        Some(found) => found,
        None => {
            return Err(ConfigFault::SectionNotObject(Section::Models));
        },
    };
    let mut models = models;
    let ghost models_before = entries_view(models@);
    let providers = match take_section(&mut models, "providers") {
        Some(found) => found,
        None => {
            return Err(ConfigFault::SectionNotObject(Section::Providers));
        },
    };
    let mut providers = providers;
    let agents = match take_section(&mut root, "agents") {
        Some(found) => found,
        None => {
            return Err(ConfigFault::SectionNotObject(Section::Agents));
        },
    };
    let mut agents = agents;
    let ghost agents_before = entries_view(agents@);
    let defaults = match take_section(&mut agents, "defaults") {
        Some(found) => found,
        None => {
            return Err(ConfigFault::SectionNotObject(Section::Defaults));
        },
    };
    let mut defaults = defaults;
    let ghost expected = model_root(
        before,
        models_before,
        entries_view(providers@),
        agents_before,
        entries_view(defaults@),
        model@,
    );

    drop_entry(&mut root, "provider");
    drop_entry(&mut root, "model");
    drop_entry(&mut root, "contextWindow");
    drop_entry(&mut root, "maxTokens");
    let ghost cleared = entries_view(root@);

    put_entry(&mut providers, "ollama", build_provider_definition(model));
    let ghost providers_done = entries_view(providers@);
    put_entry(&mut models, "providers", Json::Object(providers));
    let ghost models_done = entries_view(models@);
    assert(models_done =~= models_before.insert("providers"@, JsonView::Object(providers_done)));

    let mut reference = owned("ollama/");
    reference.append(model);
    let mut primary: Vec<(String, Json)> = Vec::new();
    put_entry(&mut primary, "primary", Json::Text(reference));
    put_entry(&mut defaults, "model", Json::Object(primary));
    let ghost defaults_done = entries_view(defaults@);
    put_entry(&mut agents, "defaults", Json::Object(defaults));
    let ghost agents_done = entries_view(agents@);
    assert(agents_done =~= agents_before.insert("defaults"@, JsonView::Object(defaults_done)));

    put_entry(&mut root, "models", Json::Object(models));
    put_entry(&mut root, "agents", Json::Object(agents));
    proof {
        let got = entries_view(root@);
        assert(got == cleared.insert("models"@, JsonView::Object(models_done)).insert(
            "agents"@,
            JsonView::Object(agents_done),
        ));
        assert(cleared == before.remove("models"@).remove("agents"@).remove("provider"@).remove(
            "model"@,
        ).remove("contextWindow"@).remove("maxTokens"@));
        let m = "models"@;
        let a = "agents"@;
        let l1 = "provider"@;
        let l2 = "model"@;
        let l3 = "contextWindow"@;
        let l4 = "maxTokens"@;
        assert(m.len() == 6 && a.len() == 6 && l1.len() == 8 && l2.len() == 5 && l3.len() == 13
            && l4.len() == 9);
        assert(m != a);
        let kept = before.remove(l1).remove(l2).remove(l3).remove(l4);
        assert(cleared =~= kept.remove(m).remove(a));
        assert(expected =~= kept.insert(m, JsonView::Object(models_done)).insert(
            a,
            JsonView::Object(agents_done),
        ));
        assert(got =~= expected);
    }
    Ok(Json::Object(root))
}

/// Makes `model`, served by the local backend, the agents' model.
///
/// `existing` is the text of the configuration on disk, `None` where there is
/// no file; the result is the text to write.
pub fn openclaw_configure_model(existing: Option<&str>, model: &str) -> (out: Result<
    String,
    ConfigError,
>)
    ensures
        match with_model(loaded(text_of(existing)), model@) {
            Ok(tree) => match out {
                Ok(text) => rendered_text(tree) == Some(text@),
                Err(error) => error is Serialize && rendered_text(tree) is None,
            },
            Err(fault) => out == Err::<String, ConfigError>(ConfigError::Fault(fault)),
        },
{
    match reconcile_model(load_document(existing), model) {
        Ok(done) => written(render_text(&done)),
        Err(fault) => Err(ConfigError::Fault(fault)),
    }
}

/// Puts the local provider's credential into a credential document.
pub fn reconcile_local_profile(doc: Json) -> (out: Result<Json, ConfigFault>)
    ensures
        match with_local_profile(doc@) {
            Ok(tree) => out matches Ok(done) && done@ == tree,
            Err(fault) => out == Err::<Json, ConfigFault>(fault),
        },
{
    match doc {
        Json::Object(root) => {
            let mut root = root;
            let mut profile: Vec<(String, Json)> = Vec::new();
            put_entry(&mut profile, "provider", text_value("ollama"));
            put_entry(&mut profile, "mode", text_value("api_key"));
            put_entry(&mut profile, "key", text_value("ollama"));
            put_entry(&mut root, "ollama:local", Json::Object(profile));
            Ok(Json::Object(root))
        },
        _ => Err(ConfigFault::RootNotObject),
    }
}

/// Makes sure that the credential document has an entry for the local
/// provider.
///
/// `existing` is the text of the credential document on disk, `None` where
/// there is no file; the result is the text to write.
pub fn configure_local_profile(existing: Option<&str>) -> (out: Result<String, ConfigError>)
    ensures
        match with_local_profile(loaded(text_of(existing))) {
            Ok(tree) => match out {
                Ok(text) => rendered_text(tree) == Some(text@),
                Err(error) => error is Serialize && rendered_text(tree) is None,
            },
            Err(fault) => out == Err::<String, ConfigError>(ConfigError::Fault(fault)),
        },
{
    match reconcile_local_profile(load_document(existing)) {
        Ok(done) => written(render_text(&done)),
        Err(fault) => Err(ConfigError::Fault(fault)),
    }
}

/// Makes a channel answer `identity` alone.
pub fn reconcile_self_chat_guard(doc: Json, channel: &str, identity: &str) -> (out: Result<
    Json,
    ConfigFault,
>)
    ensures
        match with_self_chat_guard(doc@, channel@, identity@) {
            Ok(tree) => out matches Ok(done) && done@ == tree,
            Err(fault) => out == Err::<Json, ConfigFault>(fault),
        },
{
    let root = match doc {
        Json::Object(root) => root,
        _ => {
            return Err(ConfigFault::RootNotObject);
        },
    };
    let mut root = root;
    let ghost before = entries_view(root@);
    let channels = match take_section(&mut root, "channels") {
        Some(found) => found,
        None => {
            return Err(ConfigFault::SectionNotObject(Section::Channels));
        },
    };
    let mut channels = channels;
    let ghost channels_before = entries_view(channels@);
    let own = match take_section(&mut channels, channel) {
        Some(found) => found,
        None => {
            return Err(ConfigFault::SectionNotObject(Section::Channel));
        },
    };
    let mut own = own;
    put_entry(&mut own, "dmPolicy", text_value("allowlist"));
    put_entry(&mut own, "allowFrom", single(text_value(identity)));
    let ghost own_done = entries_view(own@);
    put_entry(&mut channels, channel, Json::Object(own));
    assert(entries_view(channels@) =~= channels_before.insert(
        channel@,
        JsonView::Object(own_done),
    ));
    let ghost channels_done = entries_view(channels@);
    put_entry(&mut root, "channels", Json::Object(channels));
    assert(entries_view(root@) =~= before.insert("channels"@, JsonView::Object(channels_done)));
    Ok(Json::Object(root))
}

/// Restricts a channel to the daemon's own identity, so that the daemon does
/// not answer the echo of what it sent.
///
/// `existing` is the text of the configuration on disk, `None` where there is
/// no file; the result is the text to write.
pub fn configure_self_chat_guard(existing: Option<&str>, channel: &str, identity: &str) -> (out:
    Result<String, ConfigError>)
    ensures
        match with_self_chat_guard(loaded(text_of(existing)), channel@, identity@) {
            Ok(tree) => match out {
                Ok(text) => rendered_text(tree) == Some(text@),
                Err(error) => error is Serialize && rendered_text(tree) is None,
            },
            Err(fault) => out == Err::<String, ConfigError>(ConfigError::Fault(fault)),
        },
{
    match reconcile_self_chat_guard(load_document(existing), channel, identity) {
        Ok(done) => written(render_text(&done)),
        Err(fault) => Err(ConfigError::Fault(fault)),
    }
}

/// Putting a document into local mode a second time changes nothing, and
/// the first time changes no key of the document but `gateway`, and no key of
/// the gateway but `mode` and `auth`.
pub proof fn law_local_mode_idempotent(tree: JsonView)
    requires
        local_mode(tree) is Ok,
    ensures
        local_mode(local_mode(tree)->Ok_0) == local_mode(tree),
        forall|key: Seq<char>|
            key != "gateway"@ ==> (tree->Object_0.contains_key(key) <==> local_mode(
                tree,
            )->Ok_0->Object_0.contains_key(key)),
        forall|key: Seq<char>|
            key != "gateway"@ && tree->Object_0.contains_key(key) ==> local_mode(
                tree,
            )->Ok_0->Object_0[key] == tree->Object_0[key],
        forall|key: Seq<char>|
            key != "mode"@ && key != "auth"@ ==> (section(
                tree->Object_0,
                "gateway"@,
            )->Some_0.contains_key(key) <==> section(
                local_mode(tree)->Ok_0->Object_0,
                "gateway"@,
            )->Some_0.contains_key(key)),
        forall|key: Seq<char>|
            key != "mode"@ && key != "auth"@ && section(
                tree->Object_0,
                "gateway"@,
            )->Some_0.contains_key(key) ==> section(
                local_mode(tree)->Ok_0->Object_0,
                "gateway"@,
            )->Some_0[key] == section(tree->Object_0, "gateway"@)->Some_0[key],
{
    let root = tree->Object_0;
    let gateway = section(root, "gateway"@)->Some_0;
    let once = gateway.insert("mode"@, JsonView::Text("local"@)).remove("auth"@);
    let twice = once.insert("mode"@, JsonView::Text("local"@)).remove("auth"@);
    assert(twice =~= once);
    let root_once = root.insert("gateway"@, JsonView::Object(once));
    assert(root_once.insert("gateway"@, JsonView::Object(twice)) =~= root_once);
}

/// Taking the gateway's credential out a second time changes nothing, and
/// the first time changes no key of the document but `gateway`.
pub proof fn law_stale_auth_idempotent(tree: JsonView)
    ensures
        without_gateway_auth(without_gateway_auth(tree)) == without_gateway_auth(tree),
        tree is Object ==> without_gateway_auth(tree) is Object,
        forall|key: Seq<char>|
            tree is Object && key != "gateway"@ ==> (tree->Object_0.contains_key(key)
                <==> without_gateway_auth(tree)->Object_0.contains_key(key)),
        forall|key: Seq<char>|
            tree is Object && key != "gateway"@ && tree->Object_0.contains_key(key)
                ==> without_gateway_auth(tree)->Object_0[key] == tree->Object_0[key],
{
    match tree {
        JsonView::Object(root) => {
            if root.contains_key("gateway"@) {
                match root["gateway"@] {
                    JsonView::Object(gateway) => {
                        let once = gateway.remove("auth"@);
                        assert(once.remove("auth"@) =~= once);
                        let root_once = root.insert("gateway"@, JsonView::Object(once));
                        assert(root_once.insert("gateway"@, JsonView::Object(once)) =~= root_once);
                    },
                    _ => {},
                }
            }
        },
        _ => {},
    }
}

/// Entering the local provider's credential a second time changes nothing,
/// and the first time changes no other entry of the credential document.
pub proof fn law_local_profile_idempotent(tree: JsonView)
    requires
        with_local_profile(tree) is Ok,
    ensures
        with_local_profile(with_local_profile(tree)->Ok_0) == with_local_profile(tree),
        forall|key: Seq<char>|
            key != "ollama:local"@ ==> (tree->Object_0.contains_key(key) <==> with_local_profile(
                tree,
            )->Ok_0->Object_0.contains_key(key)),
        forall|key: Seq<char>|
            key != "ollama:local"@ && tree->Object_0.contains_key(key) ==> with_local_profile(
                tree,
            )->Ok_0->Object_0[key] == tree->Object_0[key],
{
    let root = tree->Object_0;
    let once = root.insert("ollama:local"@, local_profile());
    assert(once.insert("ollama:local"@, local_profile()) =~= once);
}

/// Setting the self-chat guard a second time changes nothing, and the first
/// time changes no key of the document but `channels`, no channel but the
/// one that is guarded, and no key of that channel but `dmPolicy` and
/// `allowFrom`.
pub proof fn law_self_chat_guard_idempotent(
    tree: JsonView,
    channel: Seq<char>,
    identity: Seq<char>,
)
    requires
        with_self_chat_guard(tree, channel, identity) is Ok,
    ensures
        with_self_chat_guard(
            with_self_chat_guard(tree, channel, identity)->Ok_0,
            channel,
            identity,
        ) == with_self_chat_guard(tree, channel, identity),
        forall|key: Seq<char>|
            key != "channels"@ ==> (tree->Object_0.contains_key(key) <==> with_self_chat_guard(
                tree,
                channel,
                identity,
            )->Ok_0->Object_0.contains_key(key)),
        forall|key: Seq<char>|
            key != "channels"@ && tree->Object_0.contains_key(key) ==> with_self_chat_guard(
                tree,
                channel,
                identity,
            )->Ok_0->Object_0[key] == tree->Object_0[key],
        forall|other: Seq<char>|
            other != channel && section(tree->Object_0, "channels"@)->Some_0.contains_key(other)
                ==> section(
                with_self_chat_guard(tree, channel, identity)->Ok_0->Object_0,
                "channels"@,
            )->Some_0[other] == section(tree->Object_0, "channels"@)->Some_0[other],
        forall|key: Seq<char>|
            key != "dmPolicy"@ && key != "allowFrom"@ && section(
                section(tree->Object_0, "channels"@)->Some_0,
                channel,
            )->Some_0.contains_key(key) ==> section(
                section(
                    with_self_chat_guard(tree, channel, identity)->Ok_0->Object_0,
                    "channels"@,
                )->Some_0,
                channel,
            )->Some_0[key] == section(section(tree->Object_0, "channels"@)->Some_0, channel)->Some_0[key],
{
    let root = tree->Object_0;
    let channels = section(root, "channels"@)->Some_0;
    let own = section(channels, channel)->Some_0;
    let guard = JsonView::Array(seq![JsonView::Text(identity)]);
    let own_once = own.insert("dmPolicy"@, JsonView::Text("allowlist"@)).insert("allowFrom"@, guard);
    assert(own_once.insert("dmPolicy"@, JsonView::Text("allowlist"@)).insert("allowFrom"@, guard)
        =~= own_once);
    let channels_once = channels.insert(channel, JsonView::Object(own_once));
    assert(channels_once.insert(channel, JsonView::Object(own_once)) =~= channels_once);
    let root_once = root.insert("channels"@, JsonView::Object(channels_once));
    assert(root_once.insert("channels"@, JsonView::Object(channels_once)) =~= root_once);
}

/// Whether a key of the root is one that setting the model may change.
pub open spec fn model_owns(key: Seq<char>) -> bool {
    key == "models"@ || key == "agents"@ || key == "provider"@ || key == "model"@ || key
        == "contextWindow"@ || key == "maxTokens"@
}

/// Setting the same model a second time changes nothing. The first time
/// changes no key of the document but the ones that the operation owns, so
/// the gateway stays as it is; under `models` it changes `providers` alone,
/// and there the local provider alone; under `agents` it changes `defaults`
/// alone, and there `model` alone.
pub proof fn law_model_idempotent(tree: JsonView, model: Seq<char>)
    requires
        with_model(tree, model) is Ok,
    ensures
        with_model(with_model(tree, model)->Ok_0, model) == with_model(tree, model),
        forall|key: Seq<char>|
            !model_owns(key) ==> (tree->Object_0.contains_key(key) <==> with_model(
                tree,
                model,
            )->Ok_0->Object_0.contains_key(key)),
        forall|key: Seq<char>|
            !model_owns(key) && tree->Object_0.contains_key(key) ==> with_model(
                tree,
                model,
            )->Ok_0->Object_0[key] == tree->Object_0[key],
        tree->Object_0.contains_key("gateway"@) ==> with_model(
            tree,
            model,
        )->Ok_0->Object_0.contains_key("gateway"@) && with_model(
            tree,
            model,
        )->Ok_0->Object_0["gateway"@] == tree->Object_0["gateway"@],
        ({
            let before = section(tree->Object_0, "models"@)->Some_0;
            let after = section(with_model(tree, model)->Ok_0->Object_0, "models"@)->Some_0;
            forall|key: Seq<char>|
                key != "providers"@ && before.contains_key(key) ==> after.contains_key(key)
                    && after[key] == before[key]
        }),
        ({
            let before = section(section(tree->Object_0, "models"@)->Some_0, "providers"@)->Some_0;
            let after = section(
                section(with_model(tree, model)->Ok_0->Object_0, "models"@)->Some_0,
                "providers"@,
            )->Some_0;
            &&& after.contains_key("ollama"@) && after["ollama"@] == provider_definition(model)
            &&& forall|key: Seq<char>|
                key != "ollama"@ && before.contains_key(key) ==> after.contains_key(key)
                    && after[key] == before[key]
        }),
        ({
            let before = section(tree->Object_0, "agents"@)->Some_0;
            let after = section(with_model(tree, model)->Ok_0->Object_0, "agents"@)->Some_0;
            forall|key: Seq<char>|
                key != "defaults"@ && before.contains_key(key) ==> after.contains_key(key)
                    && after[key] == before[key]
        }),
        ({
            let before = section(section(tree->Object_0, "agents"@)->Some_0, "defaults"@)->Some_0;
            let after = section(
                section(with_model(tree, model)->Ok_0->Object_0, "agents"@)->Some_0,
                "defaults"@,
            )->Some_0;
            forall|key: Seq<char>|
                key != "model"@ && before.contains_key(key) ==> after.contains_key(key)
                    && after[key] == before[key]
        }),
{
    reveal_strlit("gateway");
    reveal_strlit("models");
    reveal_strlit("agents");
    reveal_strlit("provider");
    reveal_strlit("model");
    reveal_strlit("contextWindow");
    reveal_strlit("maxTokens");
    let g = "gateway"@;
    let m = "models"@;
    let a = "agents"@;
    assert(g.len() == 7 && m.len() == 6 && a.len() == 6 && "provider"@.len() == 8 && "model"@.len()
        == 5 && "contextWindow"@.len() == 13 && "maxTokens"@.len() == 9);
    assert(m[0] != a[0]);
    assert(m != a);
    assert(!model_owns(g));

    let root = tree->Object_0;
    let models = section(root, m)->Some_0;
    let providers = section(models, "providers"@)->Some_0;
    let agents = section(root, a)->Some_0;
    let defaults = section(agents, "defaults"@)->Some_0;
    let once = model_root(root, models, providers, agents, defaults, model);

    let providers_once = providers.insert("ollama"@, provider_definition(model));
    let models_once = models.insert("providers"@, JsonView::Object(providers_once));
    let primary = JsonView::Object(
        Map::empty().insert("primary"@, JsonView::Text(model_reference(model))),
    );
    let defaults_once = defaults.insert("model"@, primary);
    let agents_once = agents.insert("defaults"@, JsonView::Object(defaults_once));

    assert(once[m] == JsonView::Object(models_once));
    assert(once[a] == JsonView::Object(agents_once));
    assert(section(once, m) == Some(models_once));
    assert(section(once, a) == Some(agents_once));
    assert(models_once["providers"@] == JsonView::Object(providers_once));
    assert(section(models_once, "providers"@) == Some(providers_once));
    assert(agents_once["defaults"@] == JsonView::Object(defaults_once));
    assert(section(agents_once, "defaults"@) == Some(defaults_once));

    assert(providers_once.insert("ollama"@, provider_definition(model)) =~= providers_once);
    assert(models_once.insert("providers"@, JsonView::Object(providers_once)) =~= models_once);
    assert(defaults_once.insert("model"@, primary) =~= defaults_once);
    assert(agents_once.insert("defaults"@, JsonView::Object(defaults_once)) =~= agents_once);

    let twice = model_root(once, models_once, providers_once, agents_once, defaults_once, model);
    assert(twice =~= once);
}

} // verus!
