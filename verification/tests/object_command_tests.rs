use anytype::object_command::{
    created_report, default_type_key, deleted_report, get_report, list_report, plan_object_command,
    updated_report, ObjectAction, ObjectArgs, ObjectCommand, ObjectCommandError, ObjectSummary,
    PropertyText, DEFAULT_LIST_LIMIT,
};
use anytype::text::decimal_string;

fn prop(key: &str, json: Option<&str>) -> PropertyText {
    PropertyText { key: key.to_string(), json: json.map(|j| j.to_string()) }
}

fn summary(id: &str, props: Option<Vec<PropertyText>>) -> ObjectSummary {
    ObjectSummary {
        id: id.to_string(),
        space_id: Some("sp_1".to_string()),
        name: Some("Note".to_string()),
        object: Some("object".to_string()),
        properties: props,
    }
}

#[test]
fn not_authenticated_without_key() {
    let args = ObjectArgs {
        command: ObjectCommand::Get { space_id: "sp".to_string(), object_id: "o".to_string() },
    };
    match plan_object_command(args, None) {
        Err(e @ ObjectCommandError::NotAuthenticated) => {
            assert_eq!(e.message(), "Not authenticated. Run 'anytype auth login' first.")
        }
        other => panic!("unexpected: {:?}", other),
    }
}

#[test]
fn key_is_checked_before_the_update_fields() {
    let args = ObjectArgs {
        command: ObjectCommand::Update {
            space_id: "sp".to_string(),
            object_id: "o".to_string(),
            name: None,
            body: None,
        },
    };
    assert!(matches!(plan_object_command(args, None), Err(ObjectCommandError::NotAuthenticated)));
}

#[test]
fn update_without_fields_is_refused() {
    let args = ObjectArgs {
        command: ObjectCommand::Update {
            space_id: "sp".to_string(),
            object_id: "o".to_string(),
            name: None,
            body: None,
        },
    };
    match plan_object_command(args, Some("key".to_string())) {
        Err(e @ ObjectCommandError::NothingToUpdate) => assert_eq!(
            e.message(),
            "At least one field (name or body) must be provided to update"
        ),
        other => panic!("unexpected: {:?}", other),
    }
}

#[test]
fn update_with_body_only_is_planned() {
    let args = ObjectArgs {
        command: ObjectCommand::Update {
            space_id: "sp".to_string(),
            object_id: "o".to_string(),
            name: None,
            body: Some("# New".to_string()),
        },
    };
    let (client, action) = plan_object_command(args, Some("key".to_string())).unwrap();
    assert_eq!(client.api_key(), Some("key"));
    match &action {
        ObjectAction::Update { space_id, object_id, request } => {
            assert_eq!(space_id, "sp");
            assert_eq!(object_id, "o");
            assert_eq!(request.name, None);
            assert_eq!(request.body.as_deref(), Some("# New"));
            assert_eq!(request.properties, None);
        }
        other => panic!("unexpected: {:?}", other),
    }
    assert_eq!(action.failure_context(), "Failed to update object");
}

#[test]
fn create_request_names_the_object() {
    let command = ObjectCommand::Create {
        space_id: "sp".to_string(),
        name: "Plan".to_string(),
        type_key: default_type_key(),
    };
    assert_eq!(command.banner(), "📝 Creating object 'Plan' in space 'sp'...");
    let (_, action) = plan_object_command(ObjectArgs { command }, Some("k".to_string())).unwrap();
    match action {
        ObjectAction::Create { space_id, request } => {
            assert_eq!(space_id, "sp");
            assert_eq!(request.name.as_deref(), Some("Plan"));
            assert_eq!(request.type_key, "page");
            assert!(request.body.is_none() && request.icon.is_none());
            assert!(request.template_id.is_none() && request.properties.is_none());
        }
        other => panic!("unexpected: {:?}", other),
    }
}

#[test]
fn banners_name_the_object_and_space() {
    let list = ObjectCommand::List { space_id: "sp".to_string(), limit: DEFAULT_LIST_LIMIT };
    assert_eq!(list.banner(), "📄 Fetching objects from space 'sp'...");
    let get = ObjectCommand::Get { space_id: "sp".to_string(), object_id: "o".to_string() };
    assert_eq!(get.banner(), "🔍 Fetching object 'o' from space 'sp'...");
    let delete = ObjectCommand::Delete { space_id: "sp".to_string(), object_id: "o".to_string() };
    assert_eq!(delete.banner(), "🗑️  Deleting object 'o' in space 'sp'...");
    let update = ObjectCommand::Update {
        space_id: "sp".to_string(),
        object_id: "o".to_string(),
        name: Some("n".to_string()),
        body: None,
    };
    assert_eq!(update.banner(), "🔄 Updating object 'o' in space 'sp'...");
}

#[test]
fn list_without_objects() {
    assert_eq!(list_report(&vec![], 10), vec!["📭 No objects found in this space.".to_string()]);
}

#[test]
fn list_shows_first_objects_and_hint() {
    let objects = vec![
        summary(
            "o1",
            Some(vec![
                prop("a", Some("1")),
                prop("b", None),
                prop("c", Some("\"x\"")),
                prop("d", Some("true")),
            ]),
        ),
        summary("o2", None),
    ];
    let lines = list_report(&objects, 1);
    assert_eq!(
        lines,
        vec![
            "✅ Found 2 objects (showing first 1):".to_string(),
            "  📄 o1 (Space: sp_1)".to_string(),
            "    🔑 a: 1".to_string(),
            "    🔑 b: N/A".to_string(),
            "    🔑 c: \"x\"".to_string(),
            "    ... and 1 more properties".to_string(),
            "".to_string(),
            "💡 Use --limit 2 to see more results".to_string(),
        ]
    );
}

#[test]
fn list_within_limit_has_no_hint() {
    let mut o2 = summary("o2", Some(vec![]));
    o2.space_id = None;
    let objects = vec![summary("o1", None), o2];
    let lines = list_report(&objects, 10);
    assert_eq!(
        lines,
        vec![
            "✅ Found 2 objects (showing first 2):".to_string(),
            "  📄 o1 (Space: sp_1)".to_string(),
            "".to_string(),
            "  📄 o2 (Space: Unknown)".to_string(),
            "".to_string(),
        ]
    );
}

#[test]
fn list_with_zero_limit() {
    let lines = list_report(&vec![summary("o1", None)], 0);
    assert_eq!(
        lines,
        vec![
            "✅ Found 1 objects (showing first 0):".to_string(),
            "💡 Use --limit 1 to see more results".to_string(),
        ]
    );
}

#[test]
fn get_report_lists_all_properties() {
    let o = summary("o1", Some(vec![prop("a", Some("1")), prop("b", None)]));
    assert_eq!(
        get_report(&o),
        vec![
            "✅ Object found!".to_string(),
            "   📄 Object ID: o1".to_string(),
            "   🏠 Space ID: sp_1".to_string(),
            "   📝 Name: Note".to_string(),
            "   🏷️  Type: object".to_string(),
            "   🔑 Properties:".to_string(),
            "      a: 1".to_string(),
            "      b: N/A".to_string(),
        ]
    );
}

#[test]
fn get_report_without_name_or_properties() {
    let o = ObjectSummary {
        id: "o9".to_string(),
        space_id: None,
        name: None,
        object: None,
        properties: Some(vec![]),
    };
    assert_eq!(
        get_report(&o),
        vec![
            "✅ Object found!".to_string(),
            "   📄 Object ID: o9".to_string(),
            "   🏠 Space ID: Unknown".to_string(),
            "   📝 Name: Unnamed".to_string(),
        ]
    );
}

#[test]
fn created_and_deleted_reports() {
    let o = summary("o1", None);
    assert_eq!(created_report(&o)[0], "✅ Object created successfully!");
    assert_eq!(created_report(&o).len(), 5);
    let deleted = deleted_report(&o);
    assert_eq!(deleted[0], "✅ Object deleted successfully (archived)!");
    assert_eq!(deleted[5], "   📦 Archived: The object has been marked as archived");
    assert_eq!(deleted.len(), 6);
}

#[test]
fn updated_report_counts_body_bytes() {
    let o = summary("o1", None);
    let lines = updated_report(&o, &Some("héllo".to_string()));
    assert_eq!(lines[0], "✅ Object updated successfully!");
    assert_eq!(lines.last().unwrap(), "   📄 Body: 6 characters");
    assert_eq!(updated_report(&o, &None).len(), 5);
}

#[test]
fn decimal_numbers() {
    assert_eq!(decimal_string(0), "0");
    assert_eq!(decimal_string(7), "7");
    assert_eq!(decimal_string(42), "42");
    assert_eq!(decimal_string(1000), "1000");
    assert_eq!(decimal_string(usize::MAX), usize::MAX.to_string());
}
