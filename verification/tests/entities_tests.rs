use anytype::entities::{ListObject, Member, Object, Property, Space, Tag, Template, Type};
use anytype::value::AnytypeValue;

#[test]
fn object_keeps_its_context() {
    let obj = Object { id: "obj_1".to_string(), name: None, properties: "{}".to_string() };
    let v = AnytypeValue::from_object(obj, "sp".to_string(), "ty".to_string(), "ot_page".to_string());
    assert_eq!(v.space_id(), Some("sp"));
    assert_eq!(v.type_id(), Some("ty"));
    assert_eq!(v.type_key(), Some("ot_page"));
    assert_eq!(v.name(), "obj_1");
    match v {
        AnytypeValue::Object { markdown, snippet, properties, .. } => {
            assert_eq!(markdown, None);
            assert_eq!(snippet, None);
            assert_eq!(properties, "{}");
        }
        other => panic!("unexpected: {:?}", other),
    }
}

#[test]
fn type_properties_fall_back_to_empty_array() {
    let ty = Type {
        id: "ty".to_string(),
        name: "Task".to_string(),
        key: "ot_task".to_string(),
        icon: "Emoji(\"✅\")".to_string(),
        layout: None,
        properties: None,
    };
    let v = AnytypeValue::from_type(ty, "sp".to_string());
    assert_eq!(v.column_text("properties"), Some("[]".to_string()));
    assert_eq!(v.column_text("icon"), Some("Emoji(\"✅\")".to_string()));
    assert_eq!(v.type_key(), Some("ot_task"));
    assert_eq!(v.type_id(), Some("ty"));
}

#[test]
fn type_properties_are_kept_when_written() {
    let ty = Type {
        id: "ty".to_string(),
        name: "Task".to_string(),
        key: "ot_task".to_string(),
        icon: "None".to_string(),
        layout: Some("todo".to_string()),
        properties: Some("[{\"key\":\"done\"}]".to_string()),
    };
    let v = AnytypeValue::from_type(ty, "sp".to_string());
    assert_eq!(v.column_text("properties"), Some("[{\"key\":\"done\"}]".to_string()));
    assert_eq!(v.column_text("layout"), Some("todo".to_string()));
}

#[test]
fn other_entities_carry_their_context() {
    let space = AnytypeValue::from_space(Space {
        id: "sp".to_string(),
        name: "Work".to_string(),
        description: Some("d".to_string()),
        icon: None,
    });
    assert_eq!(space.space_id(), Some("sp"));
    assert_eq!(space.column_text("description"), Some("d".to_string()));

    let prop = AnytypeValue::from_property(
        Property {
            id: "p".to_string(),
            name: "Status".to_string(),
            key: "status".to_string(),
            format: "select".to_string(),
        },
        "sp".to_string(),
        "ty".to_string(),
    );
    assert_eq!(prop.property_id(), Some("p"));
    assert_eq!(prop.type_id(), Some("ty"));

    let tag = AnytypeValue::from_tag(
        Tag { id: "t".to_string(), name: "Done".to_string(), key: "done".to_string(), color: Some("lime".to_string()) },
        "sp".to_string(),
        "p".to_string(),
    );
    assert_eq!(tag.property_id(), Some("p"));
    assert_eq!(tag.column_text("color"), Some("lime".to_string()));

    let list = AnytypeValue::from_list(ListObject { id: "l".to_string(), name: "Inbox".to_string() }, "sp".to_string());
    assert_eq!(list.name(), "Inbox");
    assert_eq!(list.type_id(), None);

    let template = AnytypeValue::from_template(
        Template {
            id: "tpl".to_string(),
            name: None,
            icon: "None".to_string(),
            markdown: None,
            snippet: Some("Snip".to_string()),
        },
        "sp".to_string(),
        "ty".to_string(),
    );
    assert_eq!(template.name(), "Snip");
    assert_eq!(template.type_id(), Some("ty"));
    assert_eq!(template.column_text("icon"), None);

    let member = AnytypeValue::from_member(
        Member { id: "m".to_string(), name: None, role: "Editor".to_string(), status: "Active".to_string() },
        "sp".to_string(),
    );
    assert_eq!(member.name(), "m");
    assert_eq!(member.column_text("role"), Some("Editor".to_string()));
    assert_eq!(member.column_text("name"), None);
}
