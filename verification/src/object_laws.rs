//! Laws of the `object` command: the request a subcommand makes carries
//! the arguments it was given, and the reports show what they are about.

use vstd::prelude::*;
use crate::object_command::{
    created_lines, deleted_lines, entry_lines, get_lines, list_lines, listed_properties,
    listing, updated_lines, utf8_len, ObjectAction, ObjectCommand, ObjectSummary, PropertyText,
};
use crate::text::decimal;

verus! {

/// The text held, or `fallback` when there is none.
pub open spec fn text_or_else(o: Option<String>, fallback: Seq<char>) -> Seq<char> {
    if o is Some {
        o->0@
    } else {
        fallback
    }
}

/// The request a subcommand makes carries the arguments it was given: the
/// space, the object, the limit of a listing, the name and type key of a
/// new object (and nothing else), the new name and body of an update.
pub proof fn lemma_plan_keeps_arguments(cmd: ObjectCommand)
    ensures
        match cmd {
            ObjectCommand::List { space_id, limit } => cmd.planned_action() matches ObjectAction::List {
                space_id: s,
                limit: l,
            } && s == space_id && l == limit,
            ObjectCommand::Create { space_id, name, type_key } => cmd.planned_action() matches ObjectAction::Create {
                space_id: s,
                request,
            } && s == space_id && request.name == Some(name) && request.type_key == type_key
                && request.body is None && request.icon is None && request.template_id is None
                && request.properties is None,
            ObjectCommand::Update { space_id, object_id, name, body } => cmd.planned_action() matches ObjectAction::Update {
                space_id: s,
                object_id: oid,
                request,
            } && s == space_id && oid == object_id && request.name == name && request.body == body
                && request.properties is None,
            ObjectCommand::Get { space_id, object_id } => cmd.planned_action() matches ObjectAction::Get {
                space_id: s,
                object_id: oid,
            } && s == space_id && oid == object_id,
            ObjectCommand::Delete { space_id, object_id } => cmd.planned_action() matches ObjectAction::Delete {
                space_id: s,
                object_id: oid,
            } && s == space_id && oid == object_id,
        },
{
}

/// The lines, after the report's first, that tell what the object is: its
/// ID, its space (or `Unknown`), its name (or `Unnamed`), and its type when
/// it has one.
pub open spec fn tells_object(lines: Seq<Seq<char>>, o: ObjectSummary) -> bool {
    &&& lines.len() >= 4
    &&& lines[1] == "   📄 Object ID: "@ + o.id@
    &&& lines[2] == "   🏠 Space ID: "@ + text_or_else(o.space_id, "Unknown"@)
    &&& lines[3] == "   📝 Name: "@ + text_or_else(o.name, "Unnamed"@)
    &&& o.object is Some ==> lines.len() >= 5 && lines[4] == "   🏷️  Type: "@ + o.object->0@
}

/// How many lines the type of an object takes.
pub open spec fn type_lines(o: ObjectSummary) -> int {
    if o.object is Some {
        1
    } else {
        0
    }
}

/// Every report of one object tells its ID, space, name and type under its
/// own first line; create says no more, delete adds that the object was
/// archived, update adds the body's length in bytes when there is a body.
pub proof fn lemma_reports_tell_the_object(o: ObjectSummary, body: Option<String>)
    ensures
        tells_object(get_lines(o), o),
        get_lines(o)[0] == "✅ Object found!"@,
        tells_object(created_lines(o), o),
        created_lines(o)[0] == "✅ Object created successfully!"@,
        created_lines(o).len() == 4 + type_lines(o),
        tells_object(deleted_lines(o), o),
        deleted_lines(o)[0] == "✅ Object deleted successfully (archived)!"@,
        deleted_lines(o).len() == 5 + type_lines(o),
        deleted_lines(o)[4 + type_lines(o)]
            == "   📦 Archived: The object has been marked as archived"@,
        tells_object(updated_lines(o, body), o),
        updated_lines(o, body)[0] == "✅ Object updated successfully!"@,
        body is None ==> updated_lines(o, body).len() == 4 + type_lines(o),
        body is Some ==> updated_lines(o, body).len() == 5 + type_lines(o) && updated_lines(
            o,
            body,
        )[4 + type_lines(o)] == "   📄 Body: "@ + decimal(utf8_len(body->0@) as nat)
            + " characters"@,
{
}

/// `object get` shows every property of the object, in order, one line
/// each, `N/A` standing for a value with no JSON text; without properties
/// it shows none and no heading.
pub proof fn lemma_get_report_shows_every_property(o: ObjectSummary)
    ensures
        ({
            let lines = get_lines(o);
            let t = type_lines(o);
            if o.properties is Some && o.properties->0@.len() > 0 {
                let p = o.properties->0@;
                &&& lines.len() == 5 + t + p.len()
                &&& lines[4 + t] == "   🔑 Properties:"@
                &&& forall|k: int|
                    0 <= k < p.len() ==> #[trigger] lines[5 + t + k] == "      "@ + p[k].key@
                        + ": "@ + text_or_else(p[k].json, "N/A"@)
            } else {
                lines.len() == 4 + t
            }
        }),
{
}

/// `object list` shows the first three properties of an object, one line
/// each, then how many more there are when there are more.
pub proof fn lemma_list_shows_three_properties(props: Seq<PropertyText>)
    ensures
        ({
            let lines = listed_properties(props);
            let shown = if props.len() < 3 {
                props.len()
            } else {
                3
            };
            &&& lines.len() == shown + if props.len() > 3 {
                1int
            } else {
                0
            }
            &&& forall|k: int|
                0 <= k < shown ==> #[trigger] lines[k] == "    🔑 "@ + props[k].key@ + ": "@
                    + text_or_else(props[k].json, "N/A"@)
            &&& props.len() > 3 ==> lines[3] == "    ... and "@ + decimal((props.len() - 3) as nat)
                + " more properties"@
        }),
{
}

/// `object list` says when nothing was found; otherwise its first line
/// counts the objects and those shown, at most `limit`, and its last line
/// points to a larger `--limit` exactly when some are left out.
pub proof fn lemma_list_counts_and_hints(objs: Seq<ObjectSummary>, limit: nat)
    ensures
        ({
            let lines = list_lines(objs, limit);
            let shown = if limit < objs.len() {
                limit
            } else {
                objs.len()
            };
            if objs.len() == 0 {
                lines == seq!["📭 No objects found in this space."@]
            } else {
                &&& lines[0] == "✅ Found "@ + decimal(objs.len()) + " objects (showing first "@
                    + decimal(shown) + "):"@
                &&& limit < objs.len() ==> lines.last() == "💡 Use --limit "@ + decimal(objs.len())
                    + " to see more results"@
            }
        }),
{
}

/// `object list` shows each object starting with its ID and its space (or
/// `Unknown`), then the properties it lists, then an empty line.
pub proof fn lemma_list_entry(o: ObjectSummary)
    ensures
        ({
            let lines = entry_lines(o);
            let props = if o.properties is Some {
                listed_properties(o.properties->0@)
            } else {
                Seq::empty()
            };
            &&& lines.len() == props.len() + 2
            &&& lines[0] == "  📄 "@ + o.id@ + " (Space: "@ + text_or_else(o.space_id, "Unknown"@)
                + ")"@
            &&& forall|k: int| 0 <= k < props.len() ==> #[trigger] lines[1 + k] == props[k]
            &&& lines.last() == Seq::<char>::empty()
        }),
{
}

/// When some objects are shown, the listing after the count starts with
/// the first object's entry.
pub proof fn lemma_list_starts_with_first_object(objs: Seq<ObjectSummary>, limit: nat)
    requires
        objs.len() > 0,
        limit > 0,
    ensures
        list_lines(objs, limit)[1] == "  📄 "@ + objs[0].id@ + " (Space: "@ + text_or_else(
            objs[0].space_id,
            "Unknown"@,
        ) + ")"@,
{
    let shown = if limit < objs.len() {
        limit
    } else {
        objs.len()
    };
    let s = objs.take(shown as int);
    lemma_listing_starts_with_first(s);
}

proof fn lemma_listing_starts_with_first(s: Seq<ObjectSummary>)
    requires
        s.len() > 0,
    ensures
        listing(s).len() > 0,
        listing(s)[0] == entry_lines(s[0])[0],
    decreases s.len(),
{
    lemma_list_entry(s.last());
    if s.len() > 1 {
        lemma_listing_starts_with_first(s.drop_last());
        assert(s.drop_last()[0] == s[0]);
    } else {
        assert(s.drop_last() =~= Seq::<ObjectSummary>::empty());
        assert(listing(s.drop_last()) =~= Seq::<Seq<char>>::empty());
        assert(listing(s) =~= entry_lines(s.last()));
    }
}

/// Before its request the command names, in quotes, the object it works
/// on (a new object by its name) and then the space.
pub proof fn lemma_banner_names_object_and_space(cmd: ObjectCommand)
    ensures
        match cmd {
            ObjectCommand::List { space_id, .. } => cmd.banner_text()
                == "📄 Fetching objects from space '"@ + space_id@ + "'..."@,
            ObjectCommand::Create { space_id, name, .. } => cmd.banner_text() == "📝 Creating object '"@
                + name@ + "' in space '"@ + space_id@ + "'..."@,
            ObjectCommand::Update { space_id, object_id, .. } => cmd.banner_text()
                == "🔄 Updating object '"@ + object_id@ + "' in space '"@ + space_id@ + "'..."@,
            ObjectCommand::Get { space_id, object_id } => cmd.banner_text() == "🔍 Fetching object '"@
                + object_id@ + "' from space '"@ + space_id@ + "'..."@,
            ObjectCommand::Delete { space_id, object_id } => cmd.banner_text()
                == "🗑️  Deleting object '"@ + object_id@ + "' in space '"@ + space_id@ + "'..."@,
        },
{
}

} // verus!
