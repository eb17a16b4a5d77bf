//! The entities the Anytype API returns, as far as the plugin reads them,
//! and how each becomes an `AnytypeValue` together with the context it was
//! fetched in. JSON documents are held as their JSON text, icons, colors,
//! roles and statuses as the text the plugin shows for them.

use vstd::prelude::*;
use crate::value::AnytypeValue;

verus! {

/// A space.
#[derive(Debug, Clone)]
pub struct Space {
    pub id: String,
    pub name: String,
    pub description: Option<String>,
    /// The icon as JSON text.
    pub icon: Option<String>,
}

/// An object type of a space.
#[derive(Debug, Clone)]
pub struct Type {
    pub id: String,
    pub name: String,
    pub key: String,
    /// The icon as the plugin shows it.
    pub icon: String,
    pub layout: Option<String>,
    /// The type's properties as a JSON array, when they could be written
    /// as JSON.
    pub properties: Option<String>,
}

/// An object.
#[derive(Debug, Clone)]
pub struct Object {
    pub id: String,
    pub name: Option<String>,
    /// The object's properties as JSON text.
    pub properties: String,
}

/// A property of a type.
#[derive(Debug, Clone)]
pub struct Property {
    pub id: String,
    pub name: String,
    pub key: String,
    pub format: String,
}

/// A tag of a property.
#[derive(Debug, Clone)]
pub struct Tag {
    pub id: String,
    pub name: String,
    pub key: String,
    /// The color's name.
    pub color: Option<String>,
}

/// A list (a set or a collection).
#[derive(Debug, Clone)]
pub struct ListObject {
    pub id: String,
    pub name: String,
}

/// A template of a type.
#[derive(Debug, Clone)]
pub struct Template {
    pub id: String,
    pub name: Option<String>,
    /// The icon as the plugin shows it.
    pub icon: String,
    pub markdown: Option<String>,
    pub snippet: Option<String>,
}

/// A member of a space.
#[derive(Debug, Clone)]
pub struct Member {
    pub id: String,
    pub name: Option<String>,
    /// The role, as the plugin shows it.
    pub role: String,
    /// The membership status, as the plugin shows it.
    pub status: String,
}

/// The JSON text of a type's properties; an empty JSON array when they
/// could not be written as JSON.
pub open spec fn properties_or_empty(properties: Option<String>) -> Seq<char> {
    match properties {
        Some(p) => p@,
        None => "[]"@,
    }
}

impl AnytypeValue {
    /// A space.
    pub fn from_space(space: Space) -> (v: AnytypeValue)
        ensures
            v == (AnytypeValue::Space {
                id: space.id,
                name: space.name,
                description: space.description,
                icon: space.icon,
            }),
    {
        AnytypeValue::Space {
            id: space.id,
            name: space.name,
            description: space.description,
            icon: space.icon,
        }
    }

    /// A type of the space `space_id`; properties that could not be written
    /// as JSON become an empty JSON array.
    pub fn from_type(type_data: Type, space_id: String) -> (v: AnytypeValue)
        ensures
            v matches AnytypeValue::Type { id, name, key, icon, layout, properties, space_id: s }
                && id == type_data.id && name == type_data.name && key == type_data.key && icon
                == Some(type_data.icon) && layout == type_data.layout && properties@
                == properties_or_empty(type_data.properties) && s == space_id,
    {
        let properties = match type_data.properties {
            Some(p) => p,
            None => String::from_str("[]"),
        };
        AnytypeValue::Type {
            id: type_data.id,
            name: type_data.name,
            key: type_data.key,
            icon: Some(type_data.icon),
            layout: type_data.layout,
            properties,
            space_id,
        }
    }

    /// An object of the space `space_id` whose type is `type_id` with key
    /// `type_key`. Markdown and snippet are not known yet.
    pub fn from_object(obj: Object, space_id: String, type_id: String, type_key: String) -> (v:
        AnytypeValue)
        ensures
            v == (AnytypeValue::Object {
                id: obj.id,
                name: obj.name,
                properties: obj.properties,
                markdown: None,
                snippet: None,
                space_id,
                type_id,
                type_key,
            }),
    {
        AnytypeValue::Object {
            id: obj.id,
            name: obj.name,
            properties: obj.properties,
            markdown: None,
            snippet: None,
            space_id,
            type_id,
            type_key,
        }
    }

    /// A property of the type `type_id` in the space `space_id`.
    pub fn from_property(prop: Property, space_id: String, type_id: String) -> (v: AnytypeValue)
        ensures
            v == (AnytypeValue::Property {
                id: prop.id,
                name: prop.name,
                key: prop.key,
                format: prop.format,
                space_id,
                type_id,
            }),
    {
        AnytypeValue::Property {
            id: prop.id,
            name: prop.name,
            key: prop.key,
            format: prop.format,
            space_id,
            type_id,
        }
    }

    /// A tag of the property `property_id` in the space `space_id`.
    pub fn from_tag(tag: Tag, space_id: String, property_id: String) -> (v: AnytypeValue)
        ensures
            v == (AnytypeValue::Tag {
                id: tag.id,
                name: tag.name,
                key: tag.key,
                color: tag.color,
                space_id,
                property_id,
            }),
    {
        AnytypeValue::Tag {
            id: tag.id,
            name: tag.name,
            key: tag.key,
            color: tag.color,
            space_id,
            property_id,
        }
    }

    /// A list of the space `space_id`.
    pub fn from_list(list: ListObject, space_id: String) -> (v: AnytypeValue)
        ensures
            v == (AnytypeValue::List { id: list.id, name: list.name, space_id }),
    {
        AnytypeValue::List { id: list.id, name: list.name, space_id }
    }

    /// A template of the type `type_id` in the space `space_id`.
    pub fn from_template(template: Template, space_id: String, type_id: String) -> (v:
        AnytypeValue)
        ensures
            v == (AnytypeValue::Template {
                id: template.id,
                name: template.name,
                icon: Some(template.icon),
                markdown: template.markdown,
                snippet: template.snippet,
                space_id,
                type_id,
            }),
    {
        AnytypeValue::Template {
            id: template.id,
            name: template.name,
            icon: Some(template.icon),
            markdown: template.markdown,
            snippet: template.snippet,
            space_id,
            type_id,
        }
    }

    /// A member of the space `space_id`.
    pub fn from_member(member: Member, space_id: String) -> (v: AnytypeValue)
        ensures
            v == (AnytypeValue::Member {
                id: member.id,
                name: member.name,
                role: member.role,
                status: member.status,
                space_id,
            }),
    {
        AnytypeValue::Member {
            id: member.id,
            name: member.name,
            role: member.role,
            status: member.status,
            space_id,
        }
    }
}

/// An object made from the API keeps the context it was fetched in: the
/// accessors report the space, type and type key it was given, and, having
/// no snippet yet, it shows its name or else its ID.
pub proof fn lemma_object_keeps_context(
    obj: Object,
    space_id: String,
    type_id: String,
    type_key: String,
)
    ensures
        ({
            let v = AnytypeValue::Object {
                id: obj.id,
                name: obj.name,
                properties: obj.properties,
                markdown: None,
                snippet: None,
                space_id,
                type_id,
                type_key,
            };
            &&& v.space_id_view() == space_id@
            &&& v.type_id_view() == Some(type_id@)
            &&& v.type_key_view() == Some(type_key@)
            &&& v.name_view() == match obj.name {
                Some(n) => n@,
                None => obj.id@,
            }
        }),
{
}

} // verus!
