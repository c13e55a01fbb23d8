use gong_mcp::{
    ArgEntry, ArgValue, GongError, GongServer, ParamKind, ReadPlan, ContentSelection,
};

fn configured() -> GongServer {
    GongServer::new(
        Some("https://api.gong.io".to_string()),
        Some("test_key".to_string()),
        Some("test_secret".to_string()),
    )
}

#[test]
fn test_server_creation() {
    let server = GongServer::new(None, None, None);
    assert!(server.config().is_none() || server.config().is_some());
}

#[test]
fn test_server_configuration_detection() {
    let server = GongServer::new(None, None, None);
    let is_configured = server.is_configured();
    let _ = is_configured;
}

#[test]
fn test_server_with_mock_config() {
    let server = configured();
    assert!(server.is_configured());
}

#[test]
fn configuration_is_all_or_nothing() {
    let partial = GongServer::new(Some("https://api.gong.io".to_string()), Some("k".to_string()), None);
    assert!(!partial.is_configured());
    assert!(!GongServer::new(None, Some("k".to_string()), Some("s".to_string())).is_configured());
    let c = configured();
    let cfg = c.config().as_ref().unwrap();
    assert_eq!(cfg.endpoint, "https://api.gong.io");
    assert_eq!(cfg.key_id, "test_key");
    assert_eq!(cfg.key_secret, "test_secret");
}

#[test]
fn unconfigured_server_offers_status_only() {
    let server = GongServer::new(None, None, None);
    let listed = server.list_resources();
    assert_eq!(listed.len(), 1);
    assert_eq!(listed[0].uri, "gong://status");
    assert!(server.tools().is_empty());
    assert!(server.resource_templates().is_empty());
    match server.plan_read("gong://status") {
        Ok(ReadPlan::Status(s)) => {
            assert!(!s.configured);
            assert_eq!(s.base_url, None);
        }
        other => panic!("unexpected {:?}", other),
    }
    for uri in ["gong://users", "gong://calls/1", "gong://calls/1/transcript", "gong://calls//participants", "gong://nothing"] {
        assert_eq!(server.plan_read(uri), Err(GongError::NotConfigured));
    }
    assert_eq!(server.plan_search("search_calls", &None), Err(GongError::NotConfigured));
    assert_eq!(server.plan_search("other", &None), Err(GongError::NotConfigured));
}

#[test]
fn configured_server_lists_everything() {
    let server = configured();
    let uris: Vec<String> = server.list_resources().into_iter().map(|r| r.uri).collect();
    assert_eq!(uris, vec!["gong://status".to_string(), "gong://users".to_string()]);
    let templates: Vec<String> = server.resource_templates().into_iter().map(|t| t.uri_template).collect();
    assert_eq!(
        templates,
        vec![
            "gong://calls/{callId}".to_string(),
            "gong://calls/{callId}/participants".to_string(),
            "gong://calls/{callId}/transcript".to_string()
        ]
    );
    let tools = server.tools();
    assert_eq!(tools.len(), 1);
    assert_eq!(tools[0].name, "search_calls");
    assert!(tools[0].read_only);
    let names: Vec<&str> = tools[0].params.iter().map(|p| p.name.as_str()).collect();
    assert_eq!(
        names,
        vec!["from_date_time", "to_date_time", "workspace_id", "call_ids", "primary_user_ids", "cursor", "limit", "include_structure"]
    );
    assert_eq!(tools[0].params[6].kind, ParamKind::Number);
    match server.plan_read("gong://status") {
        Ok(ReadPlan::Status(s)) => {
            assert!(s.configured);
            assert_eq!(s.base_url.as_deref(), Some("https://api.gong.io"));
            assert_eq!(s.message, "Gong API is configured and ready to use");
        }
        other => panic!("unexpected {:?}", other),
    }
}

#[test]
fn reads_plan_one_upstream_request() {
    let server = configured();
    match server.plan_read("gong://calls/123/participants") {
        Ok(ReadPlan::Participants { call_id, request }) => {
            assert_eq!(call_id, "123");
            assert_eq!(request.filter.call_ids, Some(vec!["123".to_string()]));
            assert_eq!(request.filter.from_date_time, None);
            assert_eq!(request.content, ContentSelection { parties: true, structure: false });
        }
        other => panic!("unexpected {:?}", other),
    }
    match server.plan_read("gong://calls/123/transcript") {
        Ok(ReadPlan::Transcript { call_id, request }) => {
            assert_eq!(call_id, "123");
            assert_eq!(request.call_ids, vec!["123".to_string()]);
        }
        other => panic!("unexpected {:?}", other),
    }
    match server.plan_read("gong://users") {
        Ok(ReadPlan::Users(req)) => {
            assert_eq!(req.cursor, None);
            assert!(!req.include_avatars);
        }
        other => panic!("unexpected {:?}", other),
    }
    assert!(matches!(server.plan_read("gong://calls/55"), Ok(ReadPlan::Call { .. })));
    assert_eq!(
        server.plan_read("gong://calls//transcript"),
        Err(GongError::MissingCallId { uri: "gong://calls//transcript".to_string() })
    );
    assert_eq!(
        server.plan_read("gong://other"),
        Err(GongError::UnknownResource { uri: "gong://other".to_string() })
    );
    assert_eq!(server.plan_read("gong://calls/9"), server.plan_read("gong://calls/9"));
}

#[test]
fn tool_calls_are_validated_before_planning() {
    let server = configured();
    assert_eq!(
        server.plan_search("list_calls", &None),
        Err(GongError::UnknownTool { name: "list_calls".to_string() })
    );
    let args = Some(vec![
        ArgEntry { key: "workspace_id".to_string(), value: ArgValue::Text("W1".to_string()) },
        ArgEntry { key: "include_structure".to_string(), value: ArgValue::Bool(true) },
        ArgEntry { key: "cursor".to_string(), value: ArgValue::Text("cur".to_string()) },
    ]);
    let plan = server.plan_search("search_calls", &args).unwrap();
    assert_eq!(plan.request.filter.workspace_id.as_deref(), Some("W1"));
    assert_eq!(plan.request.cursor.as_deref(), Some("cur"));
    assert_eq!(plan.request.content, ContentSelection { parties: true, structure: true });
    assert_eq!(plan.args.workspace_id.as_deref(), Some("W1"));
    let bad = Some(vec![ArgEntry { key: "limit".to_string(), value: ArgValue::Text("x".to_string()) }]);
    assert_eq!(
        server.plan_search("search_calls", &bad),
        Err(GongError::InvalidArgument { key: "limit".to_string() })
    );
}
