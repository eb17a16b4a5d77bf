use anytype::value::AnytypeValue;
use nu_protocol::{casing::Casing, Span};

fn empty_json_object() -> String {
    serde_json::Value::Object(serde_json::Map::new()).to_string()
}

#[test]
fn test_space_helper_methods() {
    let space = AnytypeValue::Space {
        id: "sp_123".to_string(),
        name: "Work".to_string(),
        description: None,
        icon: None,
    };

    assert_eq!(space.id(), "sp_123");
    assert_eq!(space.space_id(), Some("sp_123"));
    assert_eq!(space.name(), "Work");
    assert_eq!(space.type_id(), None);
    assert_eq!(space.property_id(), None);
    assert_eq!(space.type_key(), None);
}

#[test]
fn test_object_helper_methods() {
    let object = AnytypeValue::Object {
        id: "obj_456".to_string(),
        name: Some("My Task".to_string()),
        properties: empty_json_object(),
        markdown: None,
        snippet: None,
        space_id: "sp_123".to_string(),
        type_id: "ot_789".to_string(),
        type_key: "ot_task".to_string(),
    };

    assert_eq!(object.id(), "obj_456");
    assert_eq!(object.space_id(), Some("sp_123"));
    assert_eq!(object.type_id(), Some("ot_789"));
    assert_eq!(object.type_key(), Some("ot_task"));
    assert_eq!(object.name(), "My Task");
    assert_eq!(object.property_id(), None);
}

#[test]
fn test_object_name_fallback() {
    let object_no_name = AnytypeValue::Object {
        id: "obj_456".to_string(),
        name: None,
        properties: empty_json_object(),
        markdown: None,
        snippet: Some("A preview snippet".to_string()),
        space_id: "sp_123".to_string(),
        type_id: "ot_789".to_string(),
        type_key: "ot_note".to_string(),
    };

    assert_eq!(object_no_name.name(), "A preview snippet");

    let object_no_name_no_snippet = AnytypeValue::Object {
        id: "obj_456".to_string(),
        name: None,
        properties: empty_json_object(),
        markdown: None,
        snippet: None,
        space_id: "sp_123".to_string(),
        type_id: "ot_789".to_string(),
        type_key: "ot_note".to_string(),
    };

    assert_eq!(object_no_name_no_snippet.name(), "obj_456");
}

#[test]
fn test_tag_helper_methods() {
    let tag = AnytypeValue::Tag {
        id: "tag_999".to_string(),
        name: "Important".to_string(),
        key: "key_important".to_string(),
        color: Some("red".to_string()),
        space_id: "sp_123".to_string(),
        property_id: "prop_888".to_string(),
    };

    assert_eq!(tag.id(), "tag_999");
    assert_eq!(tag.space_id(), Some("sp_123"));
    assert_eq!(tag.property_id(), Some("prop_888"));
    assert_eq!(tag.name(), "Important");
}

fn sample_type() -> AnytypeValue {
    AnytypeValue::Type {
        id: "ty_1".to_string(),
        name: "Page".to_string(),
        key: "ot_page".to_string(),
        icon: None,
        layout: Some("basic".to_string()),
        properties: "[]".to_string(),
        space_id: "sp_123".to_string(),
    }
}

fn columns_of(v: &AnytypeValue) -> Vec<(String, String)> {
    v.to_base_record(Span::test_data())
        .iter()
        .map(|(k, val)| (k.clone(), val.as_str().unwrap().to_string()))
        .collect()
}

fn pairs(items: &[(&str, &str)]) -> Vec<(String, String)> {
    items.iter().map(|(k, v)| (k.to_string(), v.to_string())).collect()
}

#[test]
fn type_record_columns_in_order() {
    let expected = pairs(&[
        ("id", "ty_1"),
        ("name", "Page"),
        ("key", "ot_page"),
        ("space_id", "sp_123"),
        ("layout", "basic"),
        ("properties", "[]"),
        ("_type", "type"),
    ]);
    assert_eq!(sample_type().columns(), expected);
    assert_eq!(columns_of(&sample_type()), expected);
}

#[test]
fn object_record_skips_missing_fields() {
    let object = AnytypeValue::Object {
        id: "obj_1".to_string(),
        name: None,
        properties: "{\"done\":true}".to_string(),
        markdown: Some("# Title".to_string()),
        snippet: Some("Title".to_string()),
        space_id: "sp_1".to_string(),
        type_id: "ot_2".to_string(),
        type_key: "ot_note".to_string(),
    };
    let expected = pairs(&[
        ("id", "obj_1"),
        ("snippet", "Title"),
        ("markdown", "# Title"),
        ("space_id", "sp_1"),
        ("type_id", "ot_2"),
        ("type_key", "ot_note"),
        ("properties", "{\"done\":true}"),
        ("_type", "object"),
    ]);
    assert_eq!(columns_of(&object), expected);
}

#[test]
fn every_kind_of_record_names_its_type_last() {
    let values = vec![
        AnytypeValue::Space {
            id: "sp".to_string(),
            name: "S".to_string(),
            description: Some("d".to_string()),
            icon: Some("{\"emoji\":\"x\"}".to_string()),
        },
        sample_type(),
        AnytypeValue::Property {
            id: "p".to_string(),
            name: "Status".to_string(),
            key: "status".to_string(),
            format: "select".to_string(),
            space_id: "sp".to_string(),
            type_id: "ty".to_string(),
        },
        AnytypeValue::Tag {
            id: "t".to_string(),
            name: "Done".to_string(),
            key: "done".to_string(),
            color: None,
            space_id: "sp".to_string(),
            property_id: "p".to_string(),
        },
        AnytypeValue::List { id: "l".to_string(), name: "Inbox".to_string(), space_id: "sp".to_string() },
        AnytypeValue::Template {
            id: "tpl".to_string(),
            name: None,
            icon: Some("Emoji".to_string()),
            markdown: None,
            snippet: None,
            space_id: "sp".to_string(),
            type_id: "ty".to_string(),
        },
        AnytypeValue::Member {
            id: "m".to_string(),
            name: Some("Ann".to_string()),
            role: "Owner".to_string(),
            status: "Active".to_string(),
            space_id: "sp".to_string(),
        },
    ];
    let kinds = ["space", "type", "property", "tag", "list", "template", "member"];
    for (v, kind) in values.iter().zip(kinds.iter()) {
        let cols = columns_of(v);
        assert_eq!(cols.first().unwrap(), &("id".to_string(), v.id().to_string()));
        assert_eq!(cols.last().unwrap(), &("_type".to_string(), kind.to_string()));
        let mut names: Vec<&String> = cols.iter().map(|(k, _)| k).collect();
        names.sort();
        names.dedup();
        assert_eq!(names.len(), cols.len());
        if let Some(name) = v.column_text("name") {
            assert_eq!(name, v.name());
        }
        match v {
            AnytypeValue::Space { .. } => assert_eq!(v.column_text("space_id"), None),
            _ => assert_eq!(v.column_text("space_id").as_deref(), v.space_id()),
        }
    }
}

#[test]
fn space_record_with_icon() {
    let space = AnytypeValue::Space {
        id: "sp".to_string(),
        name: "Home".to_string(),
        description: None,
        icon: Some("{\"emoji\":\"🏠\"}".to_string()),
    };
    assert_eq!(
        columns_of(&space),
        pairs(&[("id", "sp"), ("name", "Home"), ("icon", "{\"emoji\":\"🏠\"}"), ("_type", "space")])
    );
}

#[test]
fn follow_path_finds_present_columns() {
    let ty = sample_type();
    let found = ty
        .follow_path_string(Span::test_data(), "key".to_string(), Span::test_data(), false, Casing::Sensitive)
        .expect("column should be found");
    assert_eq!(found.as_str().unwrap(), "ot_page");
    assert_eq!(ty.column_text("key"), Some("ot_page".to_string()));
}

#[test]
fn follow_path_rejects_missing_columns() {
    let ty = sample_type();
    let res = ty.follow_path_string(
        Span::test_data(),
        "markdown".to_string(),
        Span::test_data(),
        false,
        Casing::Sensitive,
    );
    assert!(res.is_err());
    assert_eq!(ty.column_text("markdown"), None);
    assert_eq!(ty.column_text("Key"), None);
}

#[test]
fn base_value_is_a_record() {
    let value = sample_type().to_base_value(Span::test_data()).expect("always converts");
    let record = value.as_record().expect("a record");
    assert_eq!(record.len(), 7);
    assert_eq!(record.get("name").unwrap().as_str().unwrap(), "Page");
}

#[test]
fn custom_value_type_name() {
    assert_eq!(sample_type().value_type_name(), "AnytypeValue");
}

fn work_space() -> AnytypeValue {
    AnytypeValue::Space {
        id: "sp_123".to_string(),
        name: "Work".to_string(),
        description: None,
        icon: None,
    }
}

#[test]
fn follow_path_gives_the_column_string_at_the_path_span() {
    let ps = Span::new(3, 7);
    let name = work_space()
        .follow_path_string(Span::test_data(), "name".to_string(), ps, true, Casing::Sensitive)
        .unwrap();
    assert_eq!(name, nu_protocol::Value::string("Work", ps));
    let kind = work_space()
        .follow_path_string(Span::unknown(), "_type".to_string(), ps, false, Casing::Insensitive)
        .unwrap();
    assert_eq!(kind, nu_protocol::Value::string("space", ps));
}

#[test]
fn follow_path_reports_the_missing_column() {
    let ps = Span::test_data();
    let object = AnytypeValue::Object {
        id: "obj_456".to_string(),
        name: None,
        properties: empty_json_object(),
        markdown: None,
        snippet: Some("A preview snippet".to_string()),
        space_id: "sp_123".to_string(),
        type_id: "ot_789".to_string(),
        type_key: "ot_note".to_string(),
    };
    match object.follow_path_string(ps, "name".to_string(), ps, true, Casing::Sensitive) {
        Err(nu_protocol::ShellError::CantFindColumn { col_name, span, src_span }) => {
            assert_eq!(col_name, "name");
            assert_eq!(span, Some(ps));
            assert_eq!(src_span, ps);
        }
        other => panic!("unexpected: {:?}", other),
    }
    let upper = work_space().follow_path_string(ps, "NAME".to_string(), ps, false, Casing::Insensitive);
    assert!(matches!(upper, Err(nu_protocol::ShellError::CantFindColumn { .. })));
}

#[test]
fn base_value_columns_are_strings_at_the_span() {
    let s = Span::new(1, 2);
    let value = work_space().to_base_value(s).unwrap();
    assert_eq!(value.span(), s);
    for (_, v) in value.as_record().unwrap().iter() {
        assert!(matches!(v, nu_protocol::Value::String { .. }));
        assert_eq!(v.span(), s);
    }
}
