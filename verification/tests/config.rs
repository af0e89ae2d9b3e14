use rig_tasks::config::{
    ClientCapabilities, ElicitationCapability, Implementation, McpClientConfig,
    McpInputCapabilities, RootsCapabilities, SamplingCapability,
};
use rig_tasks::json::{Json, JsonMap};
use rig_tasks::string_map::StringMap;

fn test_config() -> McpClientConfig {
    McpClientConfig::new(Implementation::new(
        "rig-mcp-test-client".to_owned(),
        "0.1.0".to_owned(),
    ))
}

#[test]
fn modern_config_is_exact_and_advertises_tasks_only_by_default() {
    let config = test_config();
    assert_eq!(
        config.protocol_version().text,
        rmcp::model::ProtocolVersion::V_2026_07_28.as_str()
    );
    let capabilities = config.client_capabilities();
    assert!(capabilities.supports_tasks());
    assert!(capabilities.elicitation.is_none());
    assert!(capabilities.sampling.is_none());
    assert!(capabilities.roots.is_none());
}

#[test]
fn input_categories_are_advertised_as_declared() {
    let declared = McpInputCapabilities::default()
        .with_roots(RootsCapabilities {
            list_changed: Some(true),
        })
        .with_sampling(SamplingCapability {
            tools: Some(Json::empty_object()),
            context: None,
        });
    let capabilities = test_config()
        .with_input_capabilities(declared)
        .client_capabilities();
    assert!(capabilities.supports_tasks());
    assert_eq!(
        capabilities.roots.expect("roots").list_changed,
        Some(true)
    );
    let sampling = capabilities.sampling.expect("sampling");
    assert_eq!(sampling.tools.expect("tools").text, "{}");
    assert!(sampling.context.is_none());
    assert!(capabilities.elicitation.is_none());

    let asking = McpInputCapabilities::default().with_elicitation(ElicitationCapability {
        form: None,
        url: None,
    });
    let capabilities = test_config()
        .with_input_capabilities(asking)
        .client_capabilities();
    assert!(capabilities.elicitation.is_some());
    assert!(capabilities.roots.is_none());
    assert!(capabilities.sampling.is_none());
}

fn extension(name: &str, settings: &str) -> JsonMap {
    let mut extensions: JsonMap = StringMap::new();
    extensions.put(name.to_owned(), Json::from_compact(settings.to_owned()));
    extensions
}

#[test]
fn replaced_extensions_leave_nothing_behind() {
    let tasks = rmcp::model::TASKS_EXTENSION_ID;
    let config = test_config()
        .with_enabled_extensions(extension("com.example/old", "{}"))
        .with_client_capabilities(ClientCapabilities {
            extensions: Some(extension("com.example/stray", "{}")),
            ..ClientCapabilities::default()
        });
    let advertised = config
        .client_capabilities()
        .extensions
        .expect("extensions");
    assert_eq!(advertised.key_list(), vec!["com.example/old", tasks]);

    let config = config.with_enabled_extensions(extension("com.example/new", "{\"a\":1}"));
    let advertised = config
        .client_capabilities()
        .extensions
        .expect("extensions");
    assert_eq!(advertised.key_list(), vec!["com.example/new", tasks]);
    assert_eq!(
        advertised.get("com.example/new").expect("new").text,
        "{\"a\":1}"
    );
    assert_eq!(advertised.get(tasks).expect("tasks").text, "{}");

    let config = config.with_enabled_extensions(extension(tasks, "{\"b\":2}"));
    let advertised = config
        .client_capabilities()
        .extensions
        .expect("extensions");
    assert_eq!(advertised.key_list(), vec![tasks]);
    assert_eq!(advertised.get(tasks).expect("tasks").text, "{\"b\":2}");
}
