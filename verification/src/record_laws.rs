//! Laws of the record that stands for a value: how column lookups go
//! through the pieces of a record, that column names never repeat, and that
//! the record agrees with the value's accessors.

use vstd::prelude::*;
use crate::value::{
    column_lookup, distinct_columns, has_column, one_col, opt_col, AnytypeValue, Column,
};

verus! {

/// Looking a name up in two column lists laid end to end finds it in the
/// first list if it is there, else in the second.
pub broadcast proof fn lemma_lookup_concat(a: Seq<Column>, b: Seq<Column>, name: Seq<char>)
    ensures
        #[trigger] column_lookup(a + b, name) == match column_lookup(a, name) {
            Some(t) => Some(t),
            None => column_lookup(b, name),
        },
    decreases a.len(),
{
    if a.len() == 0 {
        assert(a + b =~= b);
    } else {
        assert((a + b).drop_first() =~= a.drop_first() + b);
        lemma_lookup_concat(a.drop_first(), b, name);
    }
}

/// A name is a column of two lists laid end to end exactly when it is a
/// column of one of them.
pub broadcast proof fn lemma_has_column_concat(a: Seq<Column>, b: Seq<Column>, name: Seq<char>)
    ensures
        #[trigger] has_column(a + b, name) == (has_column(a, name) || has_column(b, name)),
{
    if has_column(a + b, name) {
        let i = choose|i: int| 0 <= i < (a + b).len() && #[trigger] (a + b)[i].0 == name;
        if i < a.len() {
            assert(a[i].0 == name);
        } else {
            assert(b[i - a.len()].0 == name);
        }
    }
    if has_column(a, name) {
        let i = choose|i: int| 0 <= i < a.len() && #[trigger] a[i].0 == name;
        assert((a + b)[i].0 == name);
    }
    if has_column(b, name) {
        let i = choose|i: int| 0 <= i < b.len() && #[trigger] b[i].0 == name;
        assert((a + b)[a.len() + i].0 == name);
    }
}

/// Two column lists laid end to end have distinct names exactly when each
/// has and no name of the second is a name of the first.
pub proof fn lemma_distinct_concat(a: Seq<Column>, b: Seq<Column>)
    requires
        distinct_columns(a),
        distinct_columns(b),
        forall|j: int| 0 <= j < b.len() ==> !has_column(a, #[trigger] b[j].0),
    ensures
        distinct_columns(a + b),
{
    assert forall|i: int, j: int| 0 <= i < j < (a + b).len() implies #[trigger] (a + b)[i].0
        != #[trigger] (a + b)[j].0 by {
        if j >= a.len() && i < a.len() {
            let k = j - a.len();
            assert((a + b)[j].0 == b[k].0);
            if a[i].0 == b[k].0 {
                assert(has_column(a, b[k].0));
            }
        } else if j >= a.len() {
            assert((a + b)[i].0 == b[i - a.len()].0);
        }
    }
}

/// In a list of distinct names, looking up the name of the column at `i`
/// finds that column's text.
pub proof fn lemma_lookup_at(cols: Seq<Column>, i: int, name: Seq<char>)
    requires
        distinct_columns(cols),
        0 <= i < cols.len(),
        cols[i].0 == name,
    ensures
        column_lookup(cols, name) == Some(cols[i].1),
    decreases i,
{
    if i > 0 {
        assert(cols[0].0 != cols[i].0);
        let rest = cols.drop_first();
        assert forall|a: int, b: int| 0 <= a < b < rest.len() implies #[trigger] rest[a].0
            != #[trigger] rest[b].0 by {
            assert(rest[a] == cols[a + 1] && rest[b] == cols[b + 1]);
        }
        assert(rest[i - 1] == cols[i]);
        lemma_lookup_at(rest, i - 1, name);
    }
}

/// A name is a column of a list exactly when looking it up finds text.
pub proof fn lemma_has_column_iff_lookup(cols: Seq<Column>, name: Seq<char>)
    ensures
        has_column(cols, name) <==> column_lookup(cols, name) is Some,
    decreases cols.len(),
{
    if cols.len() > 0 {
        lemma_has_column_iff_lookup(cols.drop_first(), name);
        if has_column(cols.drop_first(), name) {
            let i = choose|i: int|
                0 <= i < cols.drop_first().len() && #[trigger] cols.drop_first()[i].0 == name;
            assert(cols[i + 1].0 == name);
        }
        if has_column(cols, name) && cols[0].0 != name {
            let i = choose|i: int| 0 <= i < cols.len() && #[trigger] cols[i].0 == name;
            assert(cols.drop_first()[i - 1].0 == name);
        }
    }
}

/// Looking a name up in a single column.
pub broadcast proof fn lemma_lookup_one(name: &str, text: Seq<char>, n: Seq<char>)
    ensures
        #[trigger] column_lookup(one_col(name, text), n) == if name@ == n {
            Some(text)
        } else {
            None
        },
{
    assert(one_col(name, text).drop_first() =~= Seq::<Column>::empty());
    assert(column_lookup(Seq::<Column>::empty(), n) is None);
}

/// Looking a name up in an optional column.
pub broadcast proof fn lemma_lookup_opt(name: &str, field: Option<String>, n: Seq<char>)
    ensures
        #[trigger] column_lookup(opt_col(name, field), n) == match field {
            Some(t) => if name@ == n {
                Some(t@)
            } else {
                None
            },
            None => None,
        },
{
    assert(opt_col(name, field).len() > 0 ==> opt_col(name, field).drop_first()
        =~= Seq::<Column>::empty());
    assert(column_lookup(Seq::<Column>::empty(), n) is None);
}

/// A single column has exactly its own name.
pub broadcast proof fn lemma_has_one(name: &str, text: Seq<char>, n: Seq<char>)
    ensures
        #[trigger] has_column(one_col(name, text), n) == (name@ == n),
{
    if name@ == n {
        assert(one_col(name, text)[0].0 == n);
    }
}

/// An optional column has its name exactly when the field holds a value.
pub broadcast proof fn lemma_has_opt(name: &str, field: Option<String>, n: Seq<char>)
    ensures
        #[trigger] has_column(opt_col(name, field), n) == (field is Some && name@ == n),
{
    if field is Some && name@ == n {
        assert(opt_col(name, field)[0].0 == n);
    }
}

/// Appending a column with a new name keeps names distinct.
pub broadcast proof fn lemma_distinct_append_one(a: Seq<Column>, name: &str, text: Seq<char>)
    requires
        distinct_columns(a),
        !has_column(a, name@),
    ensures
        #[trigger] distinct_columns(a + one_col(name, text)),
{
    lemma_distinct_concat(a, one_col(name, text));
}

/// Appending an optional column with a new name keeps names distinct.
pub broadcast proof fn lemma_distinct_append_opt(a: Seq<Column>, name: &str, field: Option<String>)
    requires
        distinct_columns(a),
        field is Some ==> !has_column(a, name@),
    ensures
        #[trigger] distinct_columns(a + opt_col(name, field)),
{
    lemma_distinct_concat(a, opt_col(name, field));
}

/// A single column has distinct names.
pub broadcast proof fn lemma_distinct_one(name: &str, text: Seq<char>)
    ensures
        #[trigger] distinct_columns(one_col(name, text)),
{
}

pub broadcast group group_columns {
    lemma_lookup_concat,
    lemma_has_column_concat,
    lemma_lookup_one,
    lemma_lookup_opt,
    lemma_has_one,
    lemma_has_opt,
    lemma_distinct_append_one,
    lemma_distinct_append_opt,
    lemma_distinct_one,
}

/// The column names of records: their lengths and first letters, which
/// tell any two of them apart.
proof fn lemma_column_name_literals()
    ensures
        "id"@.len() == 2,
        "id"@[0] == 'i',
        "name"@.len() == 4,
        "name"@[0] == 'n',
        "description"@.len() == 11,
        "description"@[0] == 'd',
        "icon"@.len() == 4,
        "icon"@[0] == 'i',
        "_type"@.len() == 5,
        "_type"@[0] == '_',
        "key"@.len() == 3,
        "key"@[0] == 'k',
        "space_id"@.len() == 8,
        "space_id"@[0] == 's',
        "layout"@.len() == 6,
        "layout"@[0] == 'l',
        "properties"@.len() == 10,
        "properties"@[0] == 'p',
        "snippet"@.len() == 7,
        "snippet"@[0] == 's',
        "markdown"@.len() == 8,
        "markdown"@[0] == 'm',
        "type_id"@.len() == 7,
        "type_id"@[0] == 't',
        "type_key"@.len() == 8,
        "type_key"@[0] == 't',
        "format"@.len() == 6,
        "format"@[0] == 'f',
        "color"@.len() == 5,
        "color"@[0] == 'c',
        "property_id"@.len() == 11,
        "property_id"@[0] == 'p',
        "role"@.len() == 4,
        "role"@[0] == 'r',
        "status"@.len() == 6,
        "status"@[0] == 's',
{
    reveal_strlit("id");
    reveal_strlit("name");
    reveal_strlit("description");
    reveal_strlit("icon");
    reveal_strlit("_type");
    reveal_strlit("key");
    reveal_strlit("space_id");
    reveal_strlit("layout");
    reveal_strlit("properties");
    reveal_strlit("snippet");
    reveal_strlit("markdown");
    reveal_strlit("type_id");
    reveal_strlit("type_key");
    reveal_strlit("format");
    reveal_strlit("color");
    reveal_strlit("property_id");
    reveal_strlit("role");
    reveal_strlit("status");
}


/// Each kind of entity: its record has distinct column names, and the
/// columns that carry the accessors' answers carry them.
proof fn lemma_space_record(v: AnytypeValue)
    requires
        v is Space,
    ensures
        distinct_columns(v.base_columns()),
        column_lookup(v.base_columns(), "id"@) == Some(v.id_view()),
        column_lookup(v.base_columns(), "name"@) == Some(v.name_view()),
        column_lookup(v.base_columns(), "space_id"@) is None,
        column_lookup(v.base_columns(), "_type"@) == Some(v.kind_view()),
{
    broadcast use group_columns;
    lemma_column_name_literals();
}

proof fn lemma_type_record(v: AnytypeValue)
    requires
        v is Type,
    ensures
        distinct_columns(v.base_columns()),
        column_lookup(v.base_columns(), "id"@) == Some(v.id_view()),
        column_lookup(v.base_columns(), "name"@) == Some(v.name_view()),
        column_lookup(v.base_columns(), "key"@) == v.type_key_view(),
        column_lookup(v.base_columns(), "space_id"@) == Some(v.space_id_view()),
        column_lookup(v.base_columns(), "_type"@) == Some(v.kind_view()),
{
    broadcast use group_columns;
    lemma_column_name_literals();
}

proof fn lemma_object_record(v: AnytypeValue)
    requires
        v is Object,
    ensures
        distinct_columns(v.base_columns()),
        column_lookup(v.base_columns(), "id"@) == Some(v.id_view()),
        column_lookup(v.base_columns(), "name"@) matches Some(t) ==> t == v.name_view(),
        column_lookup(v.base_columns(), "space_id"@) == Some(v.space_id_view()),
        column_lookup(v.base_columns(), "type_id"@) == v.type_id_view(),
        column_lookup(v.base_columns(), "type_key"@) == v.type_key_view(),
        column_lookup(v.base_columns(), "_type"@) == Some(v.kind_view()),
{
    broadcast use group_columns;
    lemma_column_name_literals();
}

proof fn lemma_property_record(v: AnytypeValue)
    requires
        v is Property,
    ensures
        distinct_columns(v.base_columns()),
        column_lookup(v.base_columns(), "id"@) == Some(v.id_view()),
        column_lookup(v.base_columns(), "name"@) == Some(v.name_view()),
        column_lookup(v.base_columns(), "space_id"@) == Some(v.space_id_view()),
        column_lookup(v.base_columns(), "type_id"@) == v.type_id_view(),
        column_lookup(v.base_columns(), "_type"@) == Some(v.kind_view()),
{
    broadcast use group_columns;
    lemma_column_name_literals();
}

proof fn lemma_tag_record(v: AnytypeValue)
    requires
        v is Tag,
    ensures
        distinct_columns(v.base_columns()),
        column_lookup(v.base_columns(), "id"@) == Some(v.id_view()),
        column_lookup(v.base_columns(), "name"@) == Some(v.name_view()),
        column_lookup(v.base_columns(), "space_id"@) == Some(v.space_id_view()),
        column_lookup(v.base_columns(), "property_id"@) == v.property_id_view(),
        column_lookup(v.base_columns(), "_type"@) == Some(v.kind_view()),
{
    broadcast use group_columns;
    lemma_column_name_literals();
}

proof fn lemma_list_record(v: AnytypeValue)
    requires
        v is List,
    ensures
        distinct_columns(v.base_columns()),
        column_lookup(v.base_columns(), "id"@) == Some(v.id_view()),
        column_lookup(v.base_columns(), "name"@) == Some(v.name_view()),
        column_lookup(v.base_columns(), "space_id"@) == Some(v.space_id_view()),
        column_lookup(v.base_columns(), "_type"@) == Some(v.kind_view()),
{
    broadcast use group_columns;
    lemma_column_name_literals();
}

proof fn lemma_template_record(v: AnytypeValue)
    requires
        v is Template,
    ensures
        distinct_columns(v.base_columns()),
        column_lookup(v.base_columns(), "id"@) == Some(v.id_view()),
        column_lookup(v.base_columns(), "name"@) matches Some(t) ==> t == v.name_view(),
        column_lookup(v.base_columns(), "space_id"@) == Some(v.space_id_view()),
        column_lookup(v.base_columns(), "type_id"@) == v.type_id_view(),
        column_lookup(v.base_columns(), "_type"@) == Some(v.kind_view()),
{
    broadcast use group_columns;
    lemma_column_name_literals();
}

proof fn lemma_member_record(v: AnytypeValue)
    requires
        v is Member,
    ensures
        distinct_columns(v.base_columns()),
        column_lookup(v.base_columns(), "id"@) == Some(v.id_view()),
        column_lookup(v.base_columns(), "name"@) matches Some(t) ==> t == v.name_view(),
        column_lookup(v.base_columns(), "space_id"@) == Some(v.space_id_view()),
        column_lookup(v.base_columns(), "_type"@) == Some(v.kind_view()),
{
    broadcast use group_columns;
    lemma_column_name_literals();
}

/// No column name occurs twice in the record that stands for a value, so
/// a column name finds the same value whichever end a lookup starts from.
pub proof fn lemma_record_columns_distinct(v: AnytypeValue)
    ensures
        distinct_columns(v.base_columns()),
{
    lemma_record_agrees_with_accessors(v);
}

/// The record that stands for a value agrees with the value's accessors:
/// its `id` column is `id()`, its `_type` column names the kind of entity,
/// its `name` column, where there is one, is `name()`; entities other than
/// spaces carry `space_id()` in a `space_id` column (a space, its own space,
/// has none); `type_id()` and `type_key()` (a type's `key`) and
/// `property_id()` of a tag are columns too.
pub proof fn lemma_record_agrees_with_accessors(v: AnytypeValue)
    ensures
        distinct_columns(v.base_columns()),
        column_lookup(v.base_columns(), "id"@) == Some(v.id_view()),
        column_lookup(v.base_columns(), "_type"@) == Some(v.kind_view()),
        column_lookup(v.base_columns(), "name"@) matches Some(t) ==> t == v.name_view(),
        v is Space ==> column_lookup(v.base_columns(), "space_id"@) is None && v.space_id_view()
            == v.id_view(),
        !(v is Space) ==> column_lookup(v.base_columns(), "space_id"@) == Some(v.space_id_view()),
        v is Object || v is Property || v is Template ==> column_lookup(v.base_columns(), "type_id"@)
            == v.type_id_view(),
        v is Object ==> column_lookup(v.base_columns(), "type_key"@) == v.type_key_view(),
        v is Type ==> column_lookup(v.base_columns(), "key"@) == v.type_key_view(),
        v is Tag ==> column_lookup(v.base_columns(), "property_id"@) == v.property_id_view(),
{
    match v {
        AnytypeValue::Space { .. } => lemma_space_record(v),
        AnytypeValue::Type { .. } => lemma_type_record(v),
        AnytypeValue::Object { .. } => lemma_object_record(v),
        AnytypeValue::Property { .. } => lemma_property_record(v),
        AnytypeValue::Tag { .. } => lemma_tag_record(v),
        AnytypeValue::List { .. } => lemma_list_record(v),
        AnytypeValue::Template { .. } => lemma_template_record(v),
        AnytypeValue::Member { .. } => lemma_member_record(v),
    }
}

/// Following a column name into a value succeeds exactly when
/// `column_text` finds text under that name.
pub proof fn lemma_follow_path_agrees_with_column_text(v: AnytypeValue, name: Seq<char>)
    ensures
        has_column(v.base_columns(), name) <==> column_lookup(v.base_columns(), name) is Some,
{
    lemma_has_column_iff_lookup(v.base_columns(), name);
}

/// The text of an optional field.
pub open spec fn text_of(field: Option<String>) -> Option<Seq<char>> {
    match field {
        Some(t) => Some(t@),
        None => None,
    }
}

/// Every column of the record that stands for a value is named after a
/// field of the value and holds that field: `id` the ID, `name` the name,
/// `status` the status, and so on; a field left empty has no column, a
/// column name no field of the value carries is absent, and `_type` names
/// the kind of entity.
pub proof fn lemma_record_holds_fields(v: AnytypeValue)
    ensures
        match v {
        AnytypeValue::Space { id, name, description, icon } => {
            &&& column_lookup(v.base_columns(), "id"@) == Some(id@)
            &&& column_lookup(v.base_columns(), "name"@) == Some(name@)
            &&& column_lookup(v.base_columns(), "description"@) == text_of(description)
            &&& column_lookup(v.base_columns(), "icon"@) == text_of(icon)
            &&& column_lookup(v.base_columns(), "_type"@) == Some("space"@)
            &&& column_lookup(v.base_columns(), "key"@) is None
            &&& column_lookup(v.base_columns(), "space_id"@) is None
            &&& column_lookup(v.base_columns(), "layout"@) is None
            &&& column_lookup(v.base_columns(), "properties"@) is None
            &&& column_lookup(v.base_columns(), "snippet"@) is None
            &&& column_lookup(v.base_columns(), "markdown"@) is None
            &&& column_lookup(v.base_columns(), "type_id"@) is None
            &&& column_lookup(v.base_columns(), "type_key"@) is None
            &&& column_lookup(v.base_columns(), "format"@) is None
            &&& column_lookup(v.base_columns(), "color"@) is None
            &&& column_lookup(v.base_columns(), "property_id"@) is None
            &&& column_lookup(v.base_columns(), "role"@) is None
            &&& column_lookup(v.base_columns(), "status"@) is None
        },
        AnytypeValue::Type { id, name, key, icon, layout, properties, space_id } => {
            &&& column_lookup(v.base_columns(), "id"@) == Some(id@)
            &&& column_lookup(v.base_columns(), "name"@) == Some(name@)
            &&& column_lookup(v.base_columns(), "description"@) is None
            &&& column_lookup(v.base_columns(), "icon"@) == text_of(icon)
            &&& column_lookup(v.base_columns(), "_type"@) == Some("type"@)
            &&& column_lookup(v.base_columns(), "key"@) == Some(key@)
            &&& column_lookup(v.base_columns(), "space_id"@) == Some(space_id@)
            &&& column_lookup(v.base_columns(), "layout"@) == text_of(layout)
            &&& column_lookup(v.base_columns(), "properties"@) == Some(properties@)
            &&& column_lookup(v.base_columns(), "snippet"@) is None
            &&& column_lookup(v.base_columns(), "markdown"@) is None
            &&& column_lookup(v.base_columns(), "type_id"@) is None
            &&& column_lookup(v.base_columns(), "type_key"@) is None
            &&& column_lookup(v.base_columns(), "format"@) is None
            &&& column_lookup(v.base_columns(), "color"@) is None
            &&& column_lookup(v.base_columns(), "property_id"@) is None
            &&& column_lookup(v.base_columns(), "role"@) is None
            &&& column_lookup(v.base_columns(), "status"@) is None
        },
        AnytypeValue::Object { id, name, properties, markdown, snippet, space_id, type_id, type_key } => {
            &&& column_lookup(v.base_columns(), "id"@) == Some(id@)
            &&& column_lookup(v.base_columns(), "name"@) == text_of(name)
            &&& column_lookup(v.base_columns(), "description"@) is None
            &&& column_lookup(v.base_columns(), "icon"@) is None
            &&& column_lookup(v.base_columns(), "_type"@) == Some("object"@)
            &&& column_lookup(v.base_columns(), "key"@) is None
            &&& column_lookup(v.base_columns(), "space_id"@) == Some(space_id@)
            &&& column_lookup(v.base_columns(), "layout"@) is None
            &&& column_lookup(v.base_columns(), "properties"@) == Some(properties@)
            &&& column_lookup(v.base_columns(), "snippet"@) == text_of(snippet)
            &&& column_lookup(v.base_columns(), "markdown"@) == text_of(markdown)
            &&& column_lookup(v.base_columns(), "type_id"@) == Some(type_id@)
            &&& column_lookup(v.base_columns(), "type_key"@) == Some(type_key@)
            &&& column_lookup(v.base_columns(), "format"@) is None
            &&& column_lookup(v.base_columns(), "color"@) is None
            &&& column_lookup(v.base_columns(), "property_id"@) is None
            &&& column_lookup(v.base_columns(), "role"@) is None
            &&& column_lookup(v.base_columns(), "status"@) is None
        },
        AnytypeValue::Property { id, name, key, format, space_id, type_id } => {
            &&& column_lookup(v.base_columns(), "id"@) == Some(id@)
            &&& column_lookup(v.base_columns(), "name"@) == Some(name@)
            &&& column_lookup(v.base_columns(), "description"@) is None
            &&& column_lookup(v.base_columns(), "icon"@) is None
            &&& column_lookup(v.base_columns(), "_type"@) == Some("property"@)
            &&& column_lookup(v.base_columns(), "key"@) == Some(key@)
            &&& column_lookup(v.base_columns(), "space_id"@) == Some(space_id@)
            &&& column_lookup(v.base_columns(), "layout"@) is None
            &&& column_lookup(v.base_columns(), "properties"@) is None
            &&& column_lookup(v.base_columns(), "snippet"@) is None
            &&& column_lookup(v.base_columns(), "markdown"@) is None
            &&& column_lookup(v.base_columns(), "type_id"@) == Some(type_id@)
            &&& column_lookup(v.base_columns(), "type_key"@) is None
            &&& column_lookup(v.base_columns(), "format"@) == Some(format@)
            &&& column_lookup(v.base_columns(), "color"@) is None
            &&& column_lookup(v.base_columns(), "property_id"@) is None
            &&& column_lookup(v.base_columns(), "role"@) is None
            &&& column_lookup(v.base_columns(), "status"@) is None
        },
        AnytypeValue::Tag { id, name, key, color, space_id, property_id } => {
            &&& column_lookup(v.base_columns(), "id"@) == Some(id@)
            &&& column_lookup(v.base_columns(), "name"@) == Some(name@)
            &&& column_lookup(v.base_columns(), "description"@) is None
            &&& column_lookup(v.base_columns(), "icon"@) is None
            &&& column_lookup(v.base_columns(), "_type"@) == Some("tag"@)
            &&& column_lookup(v.base_columns(), "key"@) == Some(key@)
            &&& column_lookup(v.base_columns(), "space_id"@) == Some(space_id@)
            &&& column_lookup(v.base_columns(), "layout"@) is None
            &&& column_lookup(v.base_columns(), "properties"@) is None
            &&& column_lookup(v.base_columns(), "snippet"@) is None
            &&& column_lookup(v.base_columns(), "markdown"@) is None
            &&& column_lookup(v.base_columns(), "type_id"@) is None
            &&& column_lookup(v.base_columns(), "type_key"@) is None
            &&& column_lookup(v.base_columns(), "format"@) is None
            &&& column_lookup(v.base_columns(), "color"@) == text_of(color)
            &&& column_lookup(v.base_columns(), "property_id"@) == Some(property_id@)
            &&& column_lookup(v.base_columns(), "role"@) is None
            &&& column_lookup(v.base_columns(), "status"@) is None
        },
        AnytypeValue::List { id, name, space_id } => {
            &&& column_lookup(v.base_columns(), "id"@) == Some(id@)
            &&& column_lookup(v.base_columns(), "name"@) == Some(name@)
            &&& column_lookup(v.base_columns(), "description"@) is None
            &&& column_lookup(v.base_columns(), "icon"@) is None
            &&& column_lookup(v.base_columns(), "_type"@) == Some("list"@)
            &&& column_lookup(v.base_columns(), "key"@) is None
            &&& column_lookup(v.base_columns(), "space_id"@) == Some(space_id@)
            &&& column_lookup(v.base_columns(), "layout"@) is None
            &&& column_lookup(v.base_columns(), "properties"@) is None
            &&& column_lookup(v.base_columns(), "snippet"@) is None
            &&& column_lookup(v.base_columns(), "markdown"@) is None
            &&& column_lookup(v.base_columns(), "type_id"@) is None
            &&& column_lookup(v.base_columns(), "type_key"@) is None
            &&& column_lookup(v.base_columns(), "format"@) is None
            &&& column_lookup(v.base_columns(), "color"@) is None
            &&& column_lookup(v.base_columns(), "property_id"@) is None
            &&& column_lookup(v.base_columns(), "role"@) is None
            &&& column_lookup(v.base_columns(), "status"@) is None
        },
        AnytypeValue::Template { id, name, icon, markdown, snippet, space_id, type_id } => {
            &&& column_lookup(v.base_columns(), "id"@) == Some(id@)
            &&& column_lookup(v.base_columns(), "name"@) == text_of(name)
            &&& column_lookup(v.base_columns(), "description"@) is None
            &&& column_lookup(v.base_columns(), "icon"@) is None
            &&& column_lookup(v.base_columns(), "_type"@) == Some("template"@)
            &&& column_lookup(v.base_columns(), "key"@) is None
            &&& column_lookup(v.base_columns(), "space_id"@) == Some(space_id@)
            &&& column_lookup(v.base_columns(), "layout"@) is None
            &&& column_lookup(v.base_columns(), "properties"@) is None
            &&& column_lookup(v.base_columns(), "snippet"@) == text_of(snippet)
            &&& column_lookup(v.base_columns(), "markdown"@) == text_of(markdown)
            &&& column_lookup(v.base_columns(), "type_id"@) == Some(type_id@)
            &&& column_lookup(v.base_columns(), "type_key"@) is None
            &&& column_lookup(v.base_columns(), "format"@) is None
            &&& column_lookup(v.base_columns(), "color"@) is None
            &&& column_lookup(v.base_columns(), "property_id"@) is None
            &&& column_lookup(v.base_columns(), "role"@) is None
            &&& column_lookup(v.base_columns(), "status"@) is None
        },
        AnytypeValue::Member { id, name, role, status, space_id } => {
            &&& column_lookup(v.base_columns(), "id"@) == Some(id@)
            &&& column_lookup(v.base_columns(), "name"@) == text_of(name)
            &&& column_lookup(v.base_columns(), "description"@) is None
            &&& column_lookup(v.base_columns(), "icon"@) is None
            &&& column_lookup(v.base_columns(), "_type"@) == Some("member"@)
            &&& column_lookup(v.base_columns(), "key"@) is None
            &&& column_lookup(v.base_columns(), "space_id"@) == Some(space_id@)
            &&& column_lookup(v.base_columns(), "layout"@) is None
            &&& column_lookup(v.base_columns(), "properties"@) is None
            &&& column_lookup(v.base_columns(), "snippet"@) is None
            &&& column_lookup(v.base_columns(), "markdown"@) is None
            &&& column_lookup(v.base_columns(), "type_id"@) is None
            &&& column_lookup(v.base_columns(), "type_key"@) is None
            &&& column_lookup(v.base_columns(), "format"@) is None
            &&& column_lookup(v.base_columns(), "color"@) is None
            &&& column_lookup(v.base_columns(), "property_id"@) is None
            &&& column_lookup(v.base_columns(), "role"@) == Some(role@)
            &&& column_lookup(v.base_columns(), "status"@) == Some(status@)
        },
        },
{
    match v {
        AnytypeValue::Space { id, name, description, icon } => lemma_space_fields(id, name, description, icon),
        AnytypeValue::Type { id, name, key, icon, layout, properties, space_id } => lemma_type_fields(id, name, key, icon, layout, properties, space_id),
        AnytypeValue::Object { id, name, properties, markdown, snippet, space_id, type_id, type_key } => lemma_object_fields(id, name, properties, markdown, snippet, space_id, type_id, type_key),
        AnytypeValue::Property { id, name, key, format, space_id, type_id } => lemma_property_fields(id, name, key, format, space_id, type_id),
        AnytypeValue::Tag { id, name, key, color, space_id, property_id } => lemma_tag_fields(id, name, key, color, space_id, property_id),
        AnytypeValue::List { id, name, space_id } => lemma_list_fields(id, name, space_id),
        AnytypeValue::Template { id, name, icon, markdown, snippet, space_id, type_id } => lemma_template_fields(id, name, icon, markdown, snippet, space_id, type_id),
        AnytypeValue::Member { id, name, role, status, space_id } => lemma_member_fields(id, name, role, status, space_id),
    }
}

/// The name shown for a value: the name field of a space, type, property,
/// tag or list; for an object or a template its name, else its snippet,
/// else its ID; for a member its name, else its ID.
pub proof fn lemma_display_name(v: AnytypeValue)
    ensures
        match v {
            AnytypeValue::Space { name, .. } => v.name_view() == name@,
            AnytypeValue::Type { name, .. } => v.name_view() == name@,
            AnytypeValue::Property { name, .. } => v.name_view() == name@,
            AnytypeValue::Tag { name, .. } => v.name_view() == name@,
            AnytypeValue::List { name, .. } => v.name_view() == name@,
            AnytypeValue::Object { id, name, snippet, .. } => v.name_view() == if name is Some {
                name->0@
            } else if snippet is Some {
                snippet->0@
            } else {
                id@
            },
            AnytypeValue::Template { id, name, snippet, .. } => v.name_view() == if name is Some {
                name->0@
            } else if snippet is Some {
                snippet->0@
            } else {
                id@
            },
            AnytypeValue::Member { id, name, .. } => v.name_view() == if name is Some {
                name->0@
            } else {
                id@
            },
        },
{
}

proof fn lemma_space_fields(id: String, name: String, description: Option<String>, icon: Option<String>)
    ensures
        ({
            let v = AnytypeValue::Space { id, name, description, icon };
            &&& column_lookup(v.base_columns(), "id"@) == Some(id@)
            &&& column_lookup(v.base_columns(), "name"@) == Some(name@)
            &&& column_lookup(v.base_columns(), "description"@) == text_of(description)
            &&& column_lookup(v.base_columns(), "icon"@) == text_of(icon)
            &&& column_lookup(v.base_columns(), "_type"@) == Some("space"@)
            &&& column_lookup(v.base_columns(), "key"@) is None
            &&& column_lookup(v.base_columns(), "space_id"@) is None
            &&& column_lookup(v.base_columns(), "layout"@) is None
            &&& column_lookup(v.base_columns(), "properties"@) is None
            &&& column_lookup(v.base_columns(), "snippet"@) is None
            &&& column_lookup(v.base_columns(), "markdown"@) is None
            &&& column_lookup(v.base_columns(), "type_id"@) is None
            &&& column_lookup(v.base_columns(), "type_key"@) is None
            &&& column_lookup(v.base_columns(), "format"@) is None
            &&& column_lookup(v.base_columns(), "color"@) is None
            &&& column_lookup(v.base_columns(), "property_id"@) is None
            &&& column_lookup(v.base_columns(), "role"@) is None
            &&& column_lookup(v.base_columns(), "status"@) is None
        }),
{
    broadcast use group_columns;
    lemma_column_name_literals();
}

proof fn lemma_type_fields(id: String, name: String, key: String, icon: Option<String>, layout: Option<String>, properties: String, space_id: String)
    ensures
        ({
            let v = AnytypeValue::Type { id, name, key, icon, layout, properties, space_id };
            &&& column_lookup(v.base_columns(), "id"@) == Some(id@)
            &&& column_lookup(v.base_columns(), "name"@) == Some(name@)
            &&& column_lookup(v.base_columns(), "description"@) is None
            &&& column_lookup(v.base_columns(), "icon"@) == text_of(icon)
            &&& column_lookup(v.base_columns(), "_type"@) == Some("type"@)
            &&& column_lookup(v.base_columns(), "key"@) == Some(key@)
            &&& column_lookup(v.base_columns(), "space_id"@) == Some(space_id@)
            &&& column_lookup(v.base_columns(), "layout"@) == text_of(layout)
            &&& column_lookup(v.base_columns(), "properties"@) == Some(properties@)
            &&& column_lookup(v.base_columns(), "snippet"@) is None
            &&& column_lookup(v.base_columns(), "markdown"@) is None
            &&& column_lookup(v.base_columns(), "type_id"@) is None
            &&& column_lookup(v.base_columns(), "type_key"@) is None
            &&& column_lookup(v.base_columns(), "format"@) is None
            &&& column_lookup(v.base_columns(), "color"@) is None
            &&& column_lookup(v.base_columns(), "property_id"@) is None
            &&& column_lookup(v.base_columns(), "role"@) is None
            &&& column_lookup(v.base_columns(), "status"@) is None
        }),
{
    broadcast use group_columns;
    lemma_column_name_literals();
}

proof fn lemma_object_fields(id: String, name: Option<String>, properties: String, markdown: Option<String>, snippet: Option<String>, space_id: String, type_id: String, type_key: String)
    ensures
        ({
            let v = AnytypeValue::Object { id, name, properties, markdown, snippet, space_id, type_id, type_key };
            &&& column_lookup(v.base_columns(), "id"@) == Some(id@)
            &&& column_lookup(v.base_columns(), "name"@) == text_of(name)
            &&& column_lookup(v.base_columns(), "description"@) is None
            &&& column_lookup(v.base_columns(), "icon"@) is None
            &&& column_lookup(v.base_columns(), "_type"@) == Some("object"@)
            &&& column_lookup(v.base_columns(), "key"@) is None
            &&& column_lookup(v.base_columns(), "space_id"@) == Some(space_id@)
            &&& column_lookup(v.base_columns(), "layout"@) is None
            &&& column_lookup(v.base_columns(), "properties"@) == Some(properties@)
            &&& column_lookup(v.base_columns(), "snippet"@) == text_of(snippet)
            &&& column_lookup(v.base_columns(), "markdown"@) == text_of(markdown)
            &&& column_lookup(v.base_columns(), "type_id"@) == Some(type_id@)
            &&& column_lookup(v.base_columns(), "type_key"@) == Some(type_key@)
            &&& column_lookup(v.base_columns(), "format"@) is None
            &&& column_lookup(v.base_columns(), "color"@) is None
            &&& column_lookup(v.base_columns(), "property_id"@) is None
            &&& column_lookup(v.base_columns(), "role"@) is None
            &&& column_lookup(v.base_columns(), "status"@) is None
        }),
{
    broadcast use group_columns;
    lemma_column_name_literals();
}

proof fn lemma_property_fields(id: String, name: String, key: String, format: String, space_id: String, type_id: String)
    ensures
        ({
            let v = AnytypeValue::Property { id, name, key, format, space_id, type_id };
            &&& column_lookup(v.base_columns(), "id"@) == Some(id@)
            &&& column_lookup(v.base_columns(), "name"@) == Some(name@)
            &&& column_lookup(v.base_columns(), "description"@) is None
            &&& column_lookup(v.base_columns(), "icon"@) is None
            &&& column_lookup(v.base_columns(), "_type"@) == Some("property"@)
            &&& column_lookup(v.base_columns(), "key"@) == Some(key@)
            &&& column_lookup(v.base_columns(), "space_id"@) == Some(space_id@)
            &&& column_lookup(v.base_columns(), "layout"@) is None
            &&& column_lookup(v.base_columns(), "properties"@) is None
            &&& column_lookup(v.base_columns(), "snippet"@) is None
            &&& column_lookup(v.base_columns(), "markdown"@) is None
            &&& column_lookup(v.base_columns(), "type_id"@) == Some(type_id@)
            &&& column_lookup(v.base_columns(), "type_key"@) is None
            &&& column_lookup(v.base_columns(), "format"@) == Some(format@)
            &&& column_lookup(v.base_columns(), "color"@) is None
            &&& column_lookup(v.base_columns(), "property_id"@) is None
            &&& column_lookup(v.base_columns(), "role"@) is None
            &&& column_lookup(v.base_columns(), "status"@) is None
        }),
{
    broadcast use group_columns;
    lemma_column_name_literals();
}

proof fn lemma_tag_fields(id: String, name: String, key: String, color: Option<String>, space_id: String, property_id: String)
    ensures
        ({
            let v = AnytypeValue::Tag { id, name, key, color, space_id, property_id };
            &&& column_lookup(v.base_columns(), "id"@) == Some(id@)
            &&& column_lookup(v.base_columns(), "name"@) == Some(name@)
            &&& column_lookup(v.base_columns(), "description"@) is None
            &&& column_lookup(v.base_columns(), "icon"@) is None
            &&& column_lookup(v.base_columns(), "_type"@) == Some("tag"@)
            &&& column_lookup(v.base_columns(), "key"@) == Some(key@)
            &&& column_lookup(v.base_columns(), "space_id"@) == Some(space_id@)
            &&& column_lookup(v.base_columns(), "layout"@) is None
            &&& column_lookup(v.base_columns(), "properties"@) is None
            &&& column_lookup(v.base_columns(), "snippet"@) is None
            &&& column_lookup(v.base_columns(), "markdown"@) is None
            &&& column_lookup(v.base_columns(), "type_id"@) is None
            &&& column_lookup(v.base_columns(), "type_key"@) is None
            &&& column_lookup(v.base_columns(), "format"@) is None
            &&& column_lookup(v.base_columns(), "color"@) == text_of(color)
            &&& column_lookup(v.base_columns(), "property_id"@) == Some(property_id@)
            &&& column_lookup(v.base_columns(), "role"@) is None
            &&& column_lookup(v.base_columns(), "status"@) is None
        }),
{
    broadcast use group_columns;
    lemma_column_name_literals();
}

proof fn lemma_list_fields(id: String, name: String, space_id: String)
    ensures
        ({
            let v = AnytypeValue::List { id, name, space_id };
            &&& column_lookup(v.base_columns(), "id"@) == Some(id@)
            &&& column_lookup(v.base_columns(), "name"@) == Some(name@)
            &&& column_lookup(v.base_columns(), "description"@) is None
            &&& column_lookup(v.base_columns(), "icon"@) is None
            &&& column_lookup(v.base_columns(), "_type"@) == Some("list"@)
            &&& column_lookup(v.base_columns(), "key"@) is None
            &&& column_lookup(v.base_columns(), "space_id"@) == Some(space_id@)
            &&& column_lookup(v.base_columns(), "layout"@) is None
            &&& column_lookup(v.base_columns(), "properties"@) is None
            &&& column_lookup(v.base_columns(), "snippet"@) is None
            &&& column_lookup(v.base_columns(), "markdown"@) is None
            &&& column_lookup(v.base_columns(), "type_id"@) is None
            &&& column_lookup(v.base_columns(), "type_key"@) is None
            &&& column_lookup(v.base_columns(), "format"@) is None
            &&& column_lookup(v.base_columns(), "color"@) is None
            &&& column_lookup(v.base_columns(), "property_id"@) is None
            &&& column_lookup(v.base_columns(), "role"@) is None
            &&& column_lookup(v.base_columns(), "status"@) is None
        }),
{
    broadcast use group_columns;
    lemma_column_name_literals();
}

proof fn lemma_template_fields(id: String, name: Option<String>, icon: Option<String>, markdown: Option<String>, snippet: Option<String>, space_id: String, type_id: String)
    ensures
        ({
            let v = AnytypeValue::Template { id, name, icon, markdown, snippet, space_id, type_id };
            &&& column_lookup(v.base_columns(), "id"@) == Some(id@)
            &&& column_lookup(v.base_columns(), "name"@) == text_of(name)
            &&& column_lookup(v.base_columns(), "description"@) is None
            &&& column_lookup(v.base_columns(), "icon"@) is None
            &&& column_lookup(v.base_columns(), "_type"@) == Some("template"@)
            &&& column_lookup(v.base_columns(), "key"@) is None
            &&& column_lookup(v.base_columns(), "space_id"@) == Some(space_id@)
            &&& column_lookup(v.base_columns(), "layout"@) is None
            &&& column_lookup(v.base_columns(), "properties"@) is None
            &&& column_lookup(v.base_columns(), "snippet"@) == text_of(snippet)
            &&& column_lookup(v.base_columns(), "markdown"@) == text_of(markdown)
            &&& column_lookup(v.base_columns(), "type_id"@) == Some(type_id@)
            &&& column_lookup(v.base_columns(), "type_key"@) is None
            &&& column_lookup(v.base_columns(), "format"@) is None
            &&& column_lookup(v.base_columns(), "color"@) is None
            &&& column_lookup(v.base_columns(), "property_id"@) is None
            &&& column_lookup(v.base_columns(), "role"@) is None
            &&& column_lookup(v.base_columns(), "status"@) is None
        }),
{
    broadcast use group_columns;
    lemma_column_name_literals();
}

proof fn lemma_member_fields(id: String, name: Option<String>, role: String, status: String, space_id: String)
    ensures
        ({
            let v = AnytypeValue::Member { id, name, role, status, space_id };
            &&& column_lookup(v.base_columns(), "id"@) == Some(id@)
            &&& column_lookup(v.base_columns(), "name"@) == text_of(name)
            &&& column_lookup(v.base_columns(), "description"@) is None
            &&& column_lookup(v.base_columns(), "icon"@) is None
            &&& column_lookup(v.base_columns(), "_type"@) == Some("member"@)
            &&& column_lookup(v.base_columns(), "key"@) is None
            &&& column_lookup(v.base_columns(), "space_id"@) == Some(space_id@)
            &&& column_lookup(v.base_columns(), "layout"@) is None
            &&& column_lookup(v.base_columns(), "properties"@) is None
            &&& column_lookup(v.base_columns(), "snippet"@) is None
            &&& column_lookup(v.base_columns(), "markdown"@) is None
            &&& column_lookup(v.base_columns(), "type_id"@) is None
            &&& column_lookup(v.base_columns(), "type_key"@) is None
            &&& column_lookup(v.base_columns(), "format"@) is None
            &&& column_lookup(v.base_columns(), "color"@) is None
            &&& column_lookup(v.base_columns(), "property_id"@) is None
            &&& column_lookup(v.base_columns(), "role"@) == Some(role@)
            &&& column_lookup(v.base_columns(), "status"@) == Some(status@)
        }),
{
    broadcast use group_columns;
    lemma_column_name_literals();
}

} // verus!
