//! The Nushell custom value that stands for every Anytype entity: its
//! accessors, and the record that Nushell sees in its place.

use vstd::prelude::*;
use nu_protocol::{casing::Casing, Record, ShellError, Span, Value};
use crate::nu_record::{
    cant_find_column, cant_find_column_fields, is_last_column, new_record, push_string_column,
    record_columns, record_get, record_has_column, record_into_value, span_bounds,
    value_record_columns, value_span, value_text, RecordColumn,
};
use crate::record_laws::{lemma_lookup_at, lemma_record_columns_distinct};

verus! {

/// One Anytype entity, with the context it was fetched in.
///
/// JSON documents (properties, space icons) are held as their JSON text;
/// type and template icons and tag colors as the text a record shows for
/// them.
#[allow(inconsistent_fields)]
#[derive(Debug, Clone, PartialEq)]
pub enum AnytypeValue {
    Space {
        id: String,
        name: String,
        description: Option<String>,
        /// The icon as JSON text.
        icon: Option<String>,
    },
    Type {
        id: String,
        name: String,
        /// Global type key (e.g., "ot_page", "ot_note")
        key: String,
        /// The icon as the record shows it.
        icon: Option<String>,
        layout: Option<String>,
        /// The type's properties as JSON text.
        properties: String,
        /// Context: parent space ID
        space_id: String,
    },
    Object {
        id: String,
        name: Option<String>,
        /// The object's properties as JSON text.
        properties: String,
        /// Markdown content for pages/notes
        markdown: Option<String>,
        /// Preview snippet for objects without names
        snippet: Option<String>,
        /// Context: parent space ID
        space_id: String,
        /// Context: space-specific type instance ID
        type_id: String,
        /// Context: global type key for reference
        type_key: String,
    },
    Property {
        id: String,
        name: String,
        key: String,
        format: String,
        /// Context: parent space ID
        space_id: String,
        /// Context: parent type ID
        type_id: String,
    },
    Tag {
        id: String,
        name: String,
        key: String,
        /// The color's name.
        color: Option<String>,
        /// Context: parent space ID
        space_id: String,
        /// Context: parent property ID
        property_id: String,
    },
    List {
        id: String,
        name: String,
        /// Context: parent space ID
        space_id: String,
    },
    Template {
        id: String,
        name: Option<String>,
        /// The icon as the record shows it.
        icon: Option<String>,
        markdown: Option<String>,
        snippet: Option<String>,
        /// Context: parent space ID
        space_id: String,
        /// Context: parent type ID
        type_id: String,
    },
    Member {
        id: String,
        name: Option<String>,
        role: String,
        status: String,
        /// Context: parent space ID
        space_id: String,
    },
}

/// The text of an optional string slice.
pub open spec fn opt_str_view(o: Option<&str>) -> Option<Seq<char>> {
    match o {
        Some(s) => Some(s@),
        None => None,
    }
}

/// One column of a record: its name and the text of its value.
pub type Column = (Seq<char>, Seq<char>);

/// The column `col` with text `text`.
pub open spec fn one_col(name: &str, text: Seq<char>) -> Seq<Column> {
    seq![(name@, text)]
}

/// The column `col` when the field holds a value, no column otherwise.
pub open spec fn opt_col(name: &str, field: Option<String>) -> Seq<Column> {
    match field {
        Some(t) => seq![(name@, t@)],
        None => Seq::empty(),
    }
}

/// The columns of owned name/text pairs, as text.
pub open spec fn columns_view(cols: Seq<(String, String)>) -> Seq<Column> {
    cols.map_values(|c: (String, String)| (c.0@, c.1@))
}

/// The columns as a record holds them: every value a string carrying a
/// span with bounds `bounds`.
pub open spec fn string_columns(cols: Seq<Column>, bounds: (usize, usize)) -> Seq<RecordColumn> {
    cols.map_values(|c: Column| (c.0, Some(c.1), bounds))
}

/// The text of the first column named `name`, if there is one.
pub open spec fn column_lookup(cols: Seq<Column>, name: Seq<char>) -> Option<Seq<char>>
    decreases cols.len(),
{
    if cols.len() == 0 {
        None
    } else if cols[0].0 == name {
        Some(cols[0].1)
    } else {
        column_lookup(cols.drop_first(), name)
    }
}

/// Some column of `cols` is named `name`.
pub open spec fn has_column(cols: Seq<Column>, name: Seq<char>) -> bool {
    exists|i: int| 0 <= i < cols.len() && #[trigger] cols[i].0 == name
}

/// No two columns of `cols` have the same name.
pub open spec fn distinct_columns(cols: Seq<Column>) -> bool {
    forall|i: int, j: int| 0 <= i < j < cols.len() ==> #[trigger] cols[i].0 != #[trigger] cols[j].0
}

impl AnytypeValue {
    /// The entity's ID.
    pub open spec fn id_view(&self) -> Seq<char> {
        match self {
            AnytypeValue::Space { id, .. } => id@,
            AnytypeValue::Type { id, .. } => id@,
            AnytypeValue::Object { id, .. } => id@,
            AnytypeValue::Property { id, .. } => id@,
            AnytypeValue::Tag { id, .. } => id@,
            AnytypeValue::List { id, .. } => id@,
            AnytypeValue::Template { id, .. } => id@,
            AnytypeValue::Member { id, .. } => id@,
        }
    }

    /// The space the entity belongs to: a space is its own.
    pub open spec fn space_id_view(&self) -> Seq<char> {
        match self {
            AnytypeValue::Space { id, .. } => id@,
            AnytypeValue::Type { space_id, .. } => space_id@,
            AnytypeValue::Object { space_id, .. } => space_id@,
            AnytypeValue::Property { space_id, .. } => space_id@,
            AnytypeValue::Tag { space_id, .. } => space_id@,
            AnytypeValue::List { space_id, .. } => space_id@,
            AnytypeValue::Template { space_id, .. } => space_id@,
            AnytypeValue::Member { space_id, .. } => space_id@,
        }
    }

    /// The space-specific type of the entity: a type is its own; objects,
    /// properties and templates know theirs; other entities have none.
    pub open spec fn type_id_view(&self) -> Option<Seq<char>> {
        match self {
            AnytypeValue::Type { id, .. } => Some(id@),
            AnytypeValue::Object { type_id, .. } => Some(type_id@),
            AnytypeValue::Property { type_id, .. } => Some(type_id@),
            AnytypeValue::Template { type_id, .. } => Some(type_id@),
            _ => None,
        }
    }

    /// The property of the entity: a property is its own, a tag knows its
    /// property; other entities have none.
    pub open spec fn property_id_view(&self) -> Option<Seq<char>> {
        match self {
            AnytypeValue::Property { id, .. } => Some(id@),
            AnytypeValue::Tag { property_id, .. } => Some(property_id@),
            _ => None,
        }
    }

    /// The name to show: the entity's name; for objects, templates and
    /// members without one, the snippet (objects and templates), else the ID.
    pub open spec fn name_view(&self) -> Seq<char> {
        match self {
            AnytypeValue::Space { name, .. } => name@,
            AnytypeValue::Type { name, .. } => name@,
            AnytypeValue::Property { name, .. } => name@,
            AnytypeValue::Tag { name, .. } => name@,
            AnytypeValue::List { name, .. } => name@,
            AnytypeValue::Object { name, snippet, id, .. } => match (name, snippet) {
                (Some(n), _) => n@,
                (None, Some(s)) => s@,
                (None, None) => id@,
            },
            AnytypeValue::Template { name, snippet, id, .. } => match (name, snippet) {
                (Some(n), _) => n@,
                (None, Some(s)) => s@,
                (None, None) => id@,
            },
            AnytypeValue::Member { name, id, .. } => match name {
                Some(n) => n@,
                None => id@,
            },
        }
    }

    /// The global type key: a type's key, an object's type key; other
    /// entities have none.
    pub open spec fn type_key_view(&self) -> Option<Seq<char>> {
        match self {
            AnytypeValue::Type { key, .. } => Some(key@),
            AnytypeValue::Object { type_key, .. } => Some(type_key@),
            _ => None,
        }
    }

    /// The columns, in order, of the record that Nushell sees in place of
    /// the value; every value is a string.
    pub open spec fn base_columns(&self) -> Seq<Column> {
        match self {
            AnytypeValue::Space { id, name, description, icon } =>
                one_col("id", id@) + one_col("name", name@) + opt_col("description", *description)
                    + opt_col("icon", *icon) + one_col("_type", "space"@),
            AnytypeValue::Type { id, name, key, icon, layout, properties, space_id } =>
                one_col("id", id@) + one_col("name", name@) + one_col("key", key@) + one_col("space_id", space_id@)
                    + opt_col("layout", *layout) + opt_col("icon", *icon)
                    + one_col("properties", properties@) + one_col("_type", "type"@),
            AnytypeValue::Object {
                id,
                name,
                properties,
                markdown,
                snippet,
                space_id,
                type_id,
                type_key,
            } =>
                one_col("id", id@) + opt_col("name", *name) + opt_col("snippet", *snippet)
                    + opt_col("markdown", *markdown) + one_col("space_id", space_id@)
                    + one_col("type_id", type_id@) + one_col("type_key", type_key@)
                    + one_col("properties", properties@) + one_col("_type", "object"@),
            AnytypeValue::Property { id, name, key, format, space_id, type_id } =>
                one_col("id", id@) + one_col("name", name@) + one_col("key", key@) + one_col("format", format@)
                    + one_col("space_id", space_id@) + one_col("type_id", type_id@)
                    + one_col("_type", "property"@),
            AnytypeValue::Tag { id, name, key, color, space_id, property_id } =>
                one_col("id", id@) + one_col("name", name@) + one_col("key", key@) + opt_col("color", *color)
                    + one_col("space_id", space_id@) + one_col("property_id", property_id@)
                    + one_col("_type", "tag"@),
            AnytypeValue::List { id, name, space_id } =>
                one_col("id", id@) + one_col("name", name@) + one_col("space_id", space_id@)
                    + one_col("_type", "list"@),
            AnytypeValue::Template { id, name, markdown, snippet, space_id, type_id, .. } =>
                one_col("id", id@) + opt_col("name", *name) + opt_col("snippet", *snippet)
                    + opt_col("markdown", *markdown) + one_col("space_id", space_id@)
                    + one_col("type_id", type_id@) + one_col("_type", "template"@),
            AnytypeValue::Member { id, name, role, status, space_id } =>
                one_col("id", id@) + opt_col("name", *name) + one_col("role", role@)
                    + one_col("status", status@) + one_col("space_id", space_id@)
                    + one_col("_type", "member"@),
        }
    }

    /// Extract ID from any variant
    pub fn id(&self) -> (id: &str)
        ensures
            id@ == self.id_view(),
    {
        match self {
            AnytypeValue::Space { id, .. } => id.as_str(),
            AnytypeValue::Type { id, .. } => id.as_str(),
            AnytypeValue::Object { id, .. } => id.as_str(),
            AnytypeValue::Property { id, .. } => id.as_str(),
            AnytypeValue::Tag { id, .. } => id.as_str(),
            AnytypeValue::List { id, .. } => id.as_str(),
            AnytypeValue::Template { id, .. } => id.as_str(),
            AnytypeValue::Member { id, .. } => id.as_str(),
        }
    }

    /// Extract space_id from any variant that has it (every variant does;
    /// a space is its own)
    pub fn space_id(&self) -> (space_id: Option<&str>)
        ensures
            opt_str_view(space_id) == Some(self.space_id_view()),
    {
        match self {
            AnytypeValue::Space { id, .. } => Some(id.as_str()),
            AnytypeValue::Type { space_id, .. } => Some(space_id.as_str()),
            AnytypeValue::Object { space_id, .. } => Some(space_id.as_str()),
            AnytypeValue::Property { space_id, .. } => Some(space_id.as_str()),
            AnytypeValue::Tag { space_id, .. } => Some(space_id.as_str()),
            AnytypeValue::List { space_id, .. } => Some(space_id.as_str()),
            AnytypeValue::Template { space_id, .. } => Some(space_id.as_str()),
            AnytypeValue::Member { space_id, .. } => Some(space_id.as_str()),
        }
    }

    /// Extract type_id from variants that have it
    pub fn type_id(&self) -> (type_id: Option<&str>)
        ensures
            opt_str_view(type_id) == self.type_id_view(),
    {
        match self {
            AnytypeValue::Type { id, .. } => Some(id.as_str()),
            AnytypeValue::Object { type_id, .. } => Some(type_id.as_str()),
            AnytypeValue::Property { type_id, .. } => Some(type_id.as_str()),
            AnytypeValue::Template { type_id, .. } => Some(type_id.as_str()),
            _ => None,
        }
    }

    /// Extract property_id from variants that have it
    pub fn property_id(&self) -> (property_id: Option<&str>)
        ensures
            opt_str_view(property_id) == self.property_id_view(),
    {
        match self {
            AnytypeValue::Property { id, .. } => Some(id.as_str()),
            AnytypeValue::Tag { property_id, .. } => Some(property_id.as_str()),
            _ => None,
        }
    }

    /// Get display name for any variant
    pub fn name(&self) -> (name: &str)
        ensures
            name@ == self.name_view(),
    {
        match self {
            AnytypeValue::Space { name, .. } => name.as_str(),
            AnytypeValue::Type { name, .. } => name.as_str(),
            AnytypeValue::Property { name, .. } => name.as_str(),
            AnytypeValue::Tag { name, .. } => name.as_str(),
            AnytypeValue::List { name, .. } => name.as_str(),
            AnytypeValue::Object { name: Some(n), .. } => n.as_str(),
            AnytypeValue::Template { name: Some(n), .. } => n.as_str(),
            AnytypeValue::Member { name: Some(n), .. } => n.as_str(),
            AnytypeValue::Object { snippet: Some(s), .. } => s.as_str(),
            AnytypeValue::Template { snippet: Some(s), .. } => s.as_str(),
            AnytypeValue::Object { id, .. } => id.as_str(),
            AnytypeValue::Template { id, .. } => id.as_str(),
            AnytypeValue::Member { id, .. } => id.as_str(),
        }
    }

    /// Get type_key from variants that have it (for global type identification)
    pub fn type_key(&self) -> (type_key: Option<&str>)
        ensures
            opt_str_view(type_key) == self.type_key_view(),
    {
        match self {
            AnytypeValue::Type { key, .. } => Some(key.as_str()),
            AnytypeValue::Object { type_key, .. } => Some(type_key.as_str()),
            _ => None,
        }
    }
}


/// Appends the column `col` with text `text`.
fn push_col(cols: &mut Vec<(String, String)>, col: &str, text: &str)
    ensures
        columns_view(final(cols)@) == columns_view(old(cols)@) + one_col(col, text@),
{
    let ghost before = cols@;
    cols.push((String::from_str(col), String::from_str(text)));
    assert(columns_view(cols@) =~= columns_view(before) + one_col(col, text@));
}

/// Appends the column `col` when the field holds a value.
fn push_opt_col(cols: &mut Vec<(String, String)>, col: &str, field: &Option<String>)
    ensures
        columns_view(final(cols)@) == columns_view(old(cols)@) + opt_col(col, *field),
{
    match field {
        Some(t) => push_col(cols, col, t.as_str()),
        None => {
            assert(columns_view(cols@) =~= columns_view(cols@) + opt_col(col, *field));
        },
    }
}

impl AnytypeValue {
    /// The columns of the record that Nushell sees in place of the value,
    /// in order, each name with its text.
    pub fn columns(&self) -> (cols: Vec<(String, String)>)
        ensures
            columns_view(cols@) == self.base_columns(),
    {
        let mut c: Vec<(String, String)> = Vec::new();
        assert(columns_view(c@) =~= Seq::<Column>::empty());
        match self {
            AnytypeValue::Space { id, name, description, icon } => {
                push_col(&mut c, "id", id.as_str());
                assert(columns_view(c@) =~= one_col("id", id@));
                push_col(&mut c, "name", name.as_str());
                push_opt_col(&mut c, "description", description);
                push_opt_col(&mut c, "icon", icon);
                push_col(&mut c, "_type", "space");
            },
            AnytypeValue::Type { id, name, key, icon, layout, properties, space_id } => {
                push_col(&mut c, "id", id.as_str());
                assert(columns_view(c@) =~= one_col("id", id@));
                push_col(&mut c, "name", name.as_str());
                push_col(&mut c, "key", key.as_str());
                push_col(&mut c, "space_id", space_id.as_str());
                push_opt_col(&mut c, "layout", layout);
                push_opt_col(&mut c, "icon", icon);
                push_col(&mut c, "properties", properties.as_str());
                push_col(&mut c, "_type", "type");
            },
            AnytypeValue::Object {
                id,
                name,
                properties,
                markdown,
                snippet,
                space_id,
                type_id,
                type_key,
            } => {
                push_col(&mut c, "id", id.as_str());
                assert(columns_view(c@) =~= one_col("id", id@));
                push_opt_col(&mut c, "name", name);
                push_opt_col(&mut c, "snippet", snippet);
                push_opt_col(&mut c, "markdown", markdown);
                push_col(&mut c, "space_id", space_id.as_str());
                push_col(&mut c, "type_id", type_id.as_str());
                push_col(&mut c, "type_key", type_key.as_str());
                push_col(&mut c, "properties", properties.as_str());
                push_col(&mut c, "_type", "object");
            },
            AnytypeValue::Property { id, name, key, format, space_id, type_id } => {
                push_col(&mut c, "id", id.as_str());
                assert(columns_view(c@) =~= one_col("id", id@));
                push_col(&mut c, "name", name.as_str());
                push_col(&mut c, "key", key.as_str());
                push_col(&mut c, "format", format.as_str());
                push_col(&mut c, "space_id", space_id.as_str());
                push_col(&mut c, "type_id", type_id.as_str());
                push_col(&mut c, "_type", "property");
            },
            AnytypeValue::Tag { id, name, key, color, space_id, property_id } => {
                push_col(&mut c, "id", id.as_str());
                assert(columns_view(c@) =~= one_col("id", id@));
                push_col(&mut c, "name", name.as_str());
                push_col(&mut c, "key", key.as_str());
                push_opt_col(&mut c, "color", color);
                push_col(&mut c, "space_id", space_id.as_str());
                push_col(&mut c, "property_id", property_id.as_str());
                push_col(&mut c, "_type", "tag");
            },
            AnytypeValue::List { id, name, space_id } => {
                push_col(&mut c, "id", id.as_str());
                assert(columns_view(c@) =~= one_col("id", id@));
                push_col(&mut c, "name", name.as_str());
                push_col(&mut c, "space_id", space_id.as_str());
                push_col(&mut c, "_type", "list");
            },
            AnytypeValue::Template { id, name, markdown, snippet, space_id, type_id, .. } => {
                push_col(&mut c, "id", id.as_str());
                assert(columns_view(c@) =~= one_col("id", id@));
                push_opt_col(&mut c, "name", name);
                push_opt_col(&mut c, "snippet", snippet);
                push_opt_col(&mut c, "markdown", markdown);
                push_col(&mut c, "space_id", space_id.as_str());
                push_col(&mut c, "type_id", type_id.as_str());
                push_col(&mut c, "_type", "template");
            },
            AnytypeValue::Member { id, name, role, status, space_id } => {
                push_col(&mut c, "id", id.as_str());
                assert(columns_view(c@) =~= one_col("id", id@));
                push_opt_col(&mut c, "name", name);
                push_col(&mut c, "role", role.as_str());
                push_col(&mut c, "status", status.as_str());
                push_col(&mut c, "space_id", space_id.as_str());
                push_col(&mut c, "_type", "member");
            },
        }
        c
    }

    /// The Nushell record that stands for the value: its columns are
    /// exactly `base_columns`, each holding a string value at `span`.
    pub fn to_base_record(&self, span: Span) -> (r: Record)
        ensures
            record_columns(r) == string_columns(self.base_columns(), span_bounds(span)),
    {
        let cols = self.columns();
        let mut r = new_record();
        let mut i: usize = 0;
        while i < cols.len()
            invariant
                i <= cols.len(),
                columns_view(cols@) == self.base_columns(),
                record_columns(r) == string_columns(
                    columns_view(cols@).take(i as int),
                    span_bounds(span),
                ),
            decreases cols.len() - i,
        {
            push_string_column(&mut r, cols[i].0.as_str(), cols[i].1.as_str(), span);
            assert(string_columns(columns_view(cols@).take(i + 1), span_bounds(span))
                =~= string_columns(columns_view(cols@).take(i as int), span_bounds(span)).push(
                (cols@[i as int].0@, Some(cols@[i as int].1@), span_bounds(span)),
            ));
            i = i + 1;
        }
        assert(columns_view(cols@).take(cols.len() as int) =~= columns_view(cols@));
        r
    }

    /// Converts the value to a base Nushell value: the record of
    /// `to_base_record`, at `span`. It never fails.
    pub fn to_base_value(&self, span: Span) -> (res: Result<Value, ShellError>)
        ensures
            res matches Ok(v) && value_record_columns(v) == Some(
                string_columns(self.base_columns(), span_bounds(span)),
            ) && value_span(v) == span_bounds(span),
    {
        Ok(record_into_value(self.to_base_record(span), span))
    }

    /// The text of the column `name` of the value's record, if it has one.
    pub fn column_text(&self, name: &str) -> (text: Option<String>)
        ensures
            match text {
                Some(t) => column_lookup(self.base_columns(), name@) == Some(t@),
                None => column_lookup(self.base_columns(), name@) is None,
            },
    {
        let cols = self.columns();
        let target = String::from_str(name);
        let ghost view = columns_view(cols@);
        assert(view.skip(0) =~= view);
        let mut i: usize = 0;
        while i < cols.len()
            invariant
                i <= cols.len(),
                view == columns_view(cols@),
                view == self.base_columns(),
                target@ == name@,
                column_lookup(view, name@) == column_lookup(view.skip(i as int), name@),
            decreases cols.len() - i,
        {
            assert(view.skip(i as int).drop_first() =~= view.skip(i + 1));
            if cols[i].0 == target {
                return Some(cols[i].1.clone());
            }
            i = i + 1;
        }
        None
    }

    /// Follows a column name into the value's record: the string stored
    /// under that column, at `path_span`, or `CantFindColumn` naming the
    /// column at `path_span` when the record has none of that name. Names
    /// are compared exactly; the value's own span, the sensitivity flag and
    /// the casing change nothing.
    pub fn follow_path_string(
        &self,
        self_span: Span,
        column_name: String,
        path_span: Span,
        sensitive: bool,
        casing: Casing,
    ) -> (res: Result<Value, ShellError>)
        ensures
            res is Ok <==> has_column(self.base_columns(), column_name@),
            res matches Ok(x) ==> value_text(x) == column_lookup(
                self.base_columns(),
                column_name@,
            ) && value_span(x) == span_bounds(path_span),
            res matches Err(e) ==> cant_find_column_fields(e) == Some(
                (column_name@, Some(span_bounds(path_span)), span_bounds(path_span)),
            ),
    {
        let record = self.to_base_record(path_span);
        let ghost cols = self.base_columns();
        proof {
            assert forall|n: Seq<char>|
                has_column(cols, n) <==> #[trigger] record_has_column(record, n) by {
                if has_column(cols, n) {
                    let i = choose|i: int| 0 <= i < cols.len() && #[trigger] cols[i].0 == n;
                    assert(record_columns(record)[i].0 == n);
                }
                if record_has_column(record, n) {
                    let i = choose|i: int|
                        0 <= i < record_columns(record).len() && #[trigger] record_columns(
                            record,
                        )[i].0 == n;
                    assert(cols[i].0 == n);
                }
            }
        }
        match record_get(&record, column_name.as_str()) {
            Some(v) => {
                proof {
                    let i = choose|i: int|
                        is_last_column(record, i, column_name@, value_text(v), value_span(v));
                    assert(record_columns(record)[i] == (
                        cols[i].0,
                        Some(cols[i].1),
                        span_bounds(path_span),
                    ));
                    lemma_record_columns_distinct(*self);
                    lemma_lookup_at(cols, i, column_name@);
                }
                Ok(v)
            },
            None => Err(cant_find_column(column_name, path_span)),
        }
    }

    /// The friendly type name Nushell shows for the value.
    pub fn value_type_name(&self) -> (name: String)
        ensures
            name@ == "AnytypeValue"@,
    {
        String::from_str("AnytypeValue")
    }
}


impl AnytypeValue {
    /// The kind of entity, as the record's `_type` column names it.
    pub open spec fn kind_view(&self) -> Seq<char> {
        match self {
            AnytypeValue::Space { .. } => "space"@,
            AnytypeValue::Type { .. } => "type"@,
            AnytypeValue::Object { .. } => "object"@,
            AnytypeValue::Property { .. } => "property"@,
            AnytypeValue::Tag { .. } => "tag"@,
            AnytypeValue::List { .. } => "list"@,
            AnytypeValue::Template { .. } => "template"@,
            AnytypeValue::Member { .. } => "member"@,
        }
    }
}

} // verus!
