//! The `object` command of the command-line tool: its arguments, the
//! request each subcommand makes, and the lines it reports.

use vstd::prelude::*;
use vstd::utf8::encode_utf8;
use crate::api::AnytypeClient;
use crate::text::{decimal, decimal_string, lines_view, push_line, push_lines};

verus! {

/// Number of objects `object list` shows unless told otherwise.
pub const DEFAULT_LIST_LIMIT: u32 = 10;

/// Type key `object create` uses unless told otherwise.
pub open spec fn default_type_key_text() -> Seq<char> {
    "page"@
}

/// Type key `object create` uses unless told otherwise.
pub fn default_type_key() -> (key: String)
    ensures
        key@ == default_type_key_text(),
{
    String::from_str("page")
}

/// Arguments of the `object` command.
#[derive(Debug)]
pub struct ObjectArgs {
    pub command: ObjectCommand,
}

/// The subcommands of `object`.
#[derive(Debug)]
pub enum ObjectCommand {
    /// List objects in a space
    List {
        /// Space ID
        space_id: String,
        /// Limit the number of results
        limit: u32,
    },
    /// Create a new object in a space
    Create {
        /// Space ID
        space_id: String,
        /// Name of the object
        name: String,
        /// Object type key (required)
        type_key: String,
    },
    /// Update an existing object in a space
    Update {
        /// Space ID
        space_id: String,
        /// Object ID to update
        object_id: String,
        /// New name for the object
        name: Option<String>,
        /// New body/content for the object (supports Markdown)
        body: Option<String>,
    },
    /// Get a single object by ID from a space
    Get {
        /// Space ID
        space_id: String,
        /// Object ID to fetch
        object_id: String,
    },
    /// Delete an object in a space (archives it)
    Delete {
        /// Space ID
        space_id: String,
        /// Object ID to delete
        object_id: String,
    },
}

/// Body of a request that creates an object. Icon and properties are held
/// as JSON text.
#[derive(Debug)]
pub struct CreateObjectRequest {
    pub name: Option<String>,
    pub type_key: String,
    pub body: Option<String>,
    pub icon: Option<String>,
    pub template_id: Option<String>,
    pub properties: Option<String>,
}

/// Body of a request that updates an object. Properties are held as JSON
/// text.
#[derive(Debug)]
pub struct UpdateObjectRequest {
    pub name: Option<String>,
    pub body: Option<String>,
    pub properties: Option<String>,
}

/// The request that a subcommand makes of the Anytype API.
#[derive(Debug)]
pub enum ObjectAction {
    List { space_id: String, limit: u32 },
    Create { space_id: String, request: CreateObjectRequest },
    Update { space_id: String, object_id: String, request: UpdateObjectRequest },
    Get { space_id: String, object_id: String },
    Delete { space_id: String, object_id: String },
}

/// Why the `object` command stops before making a request.
#[derive(Debug)]
pub enum ObjectCommandError {
    /// No API key is stored.
    NotAuthenticated,
    /// An update names neither a new name nor a new body.
    NothingToUpdate,
    /// The client could not be made.
    Client(crate::api::AnytypeError),
}

impl ObjectCommand {
    /// The subcommand is an update that changes nothing.
    pub open spec fn is_empty_update(&self) -> bool {
        self matches ObjectCommand::Update { name: None, body: None, .. }
    }

    /// The request that the subcommand makes.
    pub open spec fn planned_action(self) -> ObjectAction {
        match self {
            ObjectCommand::List { space_id, limit } => ObjectAction::List { space_id, limit },
            ObjectCommand::Create { space_id, name, type_key } => ObjectAction::Create {
                space_id,
                request: CreateObjectRequest {
                    name: Some(name),
                    type_key,
                    body: None,
                    icon: None,
                    template_id: None,
                    properties: None,
                },
            },
            ObjectCommand::Update { space_id, object_id, name, body } => ObjectAction::Update {
                space_id,
                object_id,
                request: UpdateObjectRequest { name, body, properties: None },
            },
            ObjectCommand::Get { space_id, object_id } => ObjectAction::Get { space_id, object_id },
            ObjectCommand::Delete { space_id, object_id } => ObjectAction::Delete {
                space_id,
                object_id,
            },
        }
    }

    /// What the command says before it makes its request.
    pub open spec fn banner_text(&self) -> Seq<char> {
        match self {
            ObjectCommand::List { space_id, .. } => "📄 Fetching objects from space '"@ + space_id@
                + "'..."@,
            ObjectCommand::Create { space_id, name, .. } => "📝 Creating object '"@ + name@
                + "' in space '"@ + space_id@ + "'..."@,
            ObjectCommand::Update { space_id, object_id, .. } => "🔄 Updating object '"@
                + object_id@ + "' in space '"@ + space_id@ + "'..."@,
            ObjectCommand::Get { space_id, object_id } => "🔍 Fetching object '"@ + object_id@
                + "' from space '"@ + space_id@ + "'..."@,
            ObjectCommand::Delete { space_id, object_id } => "🗑️  Deleting object '"@
                + object_id@ + "' in space '"@ + space_id@ + "'..."@,
        }
    }

    /// What the command says before it makes its request.
    pub fn banner(&self) -> (text: String)
        ensures
            text@ == self.banner_text(),
    {
        match self {
            ObjectCommand::List { space_id, .. } => {
                let mut s = String::from_str("📄 Fetching objects from space '");
                s.append(space_id.as_str());
                s.append("'...");
                s
            },
            ObjectCommand::Create { space_id, name, .. } => {
                let mut s = String::from_str("📝 Creating object '");
                s.append(name.as_str());
                s.append("' in space '");
                s.append(space_id.as_str());
                s.append("'...");
                s
            },
            ObjectCommand::Update { space_id, object_id, .. } => {
                let mut s = String::from_str("🔄 Updating object '");
                s.append(object_id.as_str());
                s.append("' in space '");
                s.append(space_id.as_str());
                s.append("'...");
                s
            },
            ObjectCommand::Get { space_id, object_id } => {
                let mut s = String::from_str("🔍 Fetching object '");
                s.append(object_id.as_str());
                s.append("' from space '");
                s.append(space_id.as_str());
                s.append("'...");
                s
            },
            ObjectCommand::Delete { space_id, object_id } => {
                let mut s = String::from_str("🗑️  Deleting object '");
                s.append(object_id.as_str());
                s.append("' in space '");
                s.append(space_id.as_str());
                s.append("'...");
                s
            },
        }
    }
}

/// Decides what the `object` command does with the API key that is stored,
/// if any: without a key it stops as not authenticated; an update that
/// changes nothing stops next; otherwise it makes the subcommand's request
/// with a client that holds the key.
pub fn plan_object_command(args: ObjectArgs, api_key: Option<String>) -> (res: Result<
    (AnytypeClient, ObjectAction),
    ObjectCommandError,
>)
    ensures
        match res {
            Ok((client, action)) => {
                &&& api_key matches Some(k) && client.key_spec() == Some(k@)
                &&& client.config_spec().is_default()
                &&& !args.command.is_empty_update()
                &&& action == args.command.planned_action()
            },
            Err(ObjectCommandError::NotAuthenticated) => api_key is None,
            Err(ObjectCommandError::NothingToUpdate) => api_key is Some
                && args.command.is_empty_update(),
            Err(ObjectCommandError::Client(_)) => false,
        },
{
    let api_key = match api_key {
        Some(k) => k,
        None => return Err(ObjectCommandError::NotAuthenticated),
    };
    let mut client = match AnytypeClient::new() {
        Ok(c) => c,
        Err(e) => return Err(ObjectCommandError::Client(e)),
    };
    client.set_api_key(api_key);
    let action = match args.command {
        ObjectCommand::List { space_id, limit } => ObjectAction::List { space_id, limit },
        ObjectCommand::Create { space_id, name, type_key } => ObjectAction::Create {
            space_id,
            request: CreateObjectRequest {
                name: Some(name),
                type_key,
                body: None,
                icon: None,
                template_id: None,
                properties: None,
            },
        },
        ObjectCommand::Update { space_id, object_id, name, body } => {
            if name.is_none() && body.is_none() {
                return Err(ObjectCommandError::NothingToUpdate);
            }
            ObjectAction::Update {
                space_id,
                object_id,
                request: UpdateObjectRequest { name, body, properties: None },
            }
        },
        ObjectCommand::Get { space_id, object_id } => ObjectAction::Get { space_id, object_id },
        ObjectCommand::Delete { space_id, object_id } => ObjectAction::Delete {
            space_id,
            object_id,
        },
    };
    Ok((client, action))
}


impl ObjectCommandError {
    /// The message the command fails with.
    pub open spec fn message_text(&self) -> Seq<char> {
        match self {
            ObjectCommandError::NotAuthenticated => "Not authenticated. Run 'anytype auth login' first."@,
            ObjectCommandError::NothingToUpdate =>
                "At least one field (name or body) must be provided to update"@,
            ObjectCommandError::Client(crate::api::AnytypeError::Auth { message }) => message@,
        }
    }

    /// The message the command fails with.
    pub fn message(&self) -> (text: String)
        ensures
            text@ == self.message_text(),
    {
        match self {
            ObjectCommandError::NotAuthenticated => String::from_str(
                "Not authenticated. Run 'anytype auth login' first.",
            ),
            ObjectCommandError::NothingToUpdate => String::from_str(
                "At least one field (name or body) must be provided to update",
            ),
            ObjectCommandError::Client(crate::api::AnytypeError::Auth { message }) => message.clone(),
        }
    }
}

impl ObjectAction {
    /// What a failed request is reported as.
    pub open spec fn failure_context_text(&self) -> Seq<char> {
        match self {
            ObjectAction::List { .. } => "Failed to fetch objects"@,
            ObjectAction::Create { .. } => "Failed to create object"@,
            ObjectAction::Update { .. } => "Failed to update object"@,
            ObjectAction::Get { .. } => "Failed to fetch object"@,
            ObjectAction::Delete { .. } => "Failed to delete object"@,
        }
    }

    /// What a failed request is reported as.
    pub fn failure_context(&self) -> (text: &'static str)
        ensures
            text@ == self.failure_context_text(),
    {
        match self {
            ObjectAction::List { .. } => "Failed to fetch objects",
            ObjectAction::Create { .. } => "Failed to create object",
            ObjectAction::Update { .. } => "Failed to update object",
            ObjectAction::Get { .. } => "Failed to fetch object",
            ObjectAction::Delete { .. } => "Failed to delete object",
        }
    }
}

/// One property of an object: its key, and its value as JSON text (none
/// when the value could not be written as JSON).
#[derive(Debug, Clone)]
pub struct PropertyText {
    pub key: String,
    pub json: Option<String>,
}

/// What the reports show of an object the API returned.
#[derive(Debug, Clone)]
pub struct ObjectSummary {
    pub id: String,
    pub space_id: Option<String>,
    pub name: Option<String>,
    /// The object's type, as the API names it.
    pub object: Option<String>,
    /// The object's properties in order, when they form a JSON object.
    pub properties: Option<Vec<PropertyText>>,
}

/// The text held, or `fallback` when there is none.
pub open spec fn or_text(o: Option<String>, fallback: Seq<char>) -> Seq<char> {
    match o {
        Some(t) => t@,
        None => fallback,
    }
}

fn text_or<'a>(o: &'a Option<String>, fallback: &'a str) -> (s: &'a str)
    ensures
        s@ == or_text(*o, fallback@),
{
    match o {
        Some(t) => t.as_str(),
        None => fallback,
    }
}

/// A property as `object list` shows it.
pub open spec fn list_property_line(p: PropertyText) -> Seq<char> {
    "    🔑 "@ + p.key@ + ": "@ + or_text(p.json, "N/A"@)
}

/// A property as `object get` shows it.
pub open spec fn get_property_line(p: PropertyText) -> Seq<char> {
    "      "@ + p.key@ + ": "@ + or_text(p.json, "N/A"@)
}

/// The properties `object list` shows of one object: the first three, and
/// how many more there are.
pub open spec fn listed_properties(props: Seq<PropertyText>) -> Seq<Seq<char>> {
    let shown = if props.len() < 3 { props.len() } else { 3 };
    props.take(shown as int).map_values(|p: PropertyText| list_property_line(p)) + if props.len()
        > 3 {
        seq!["    ... and "@ + decimal((props.len() - 3) as nat) + " more properties"@]
    } else {
        Seq::empty()
    }
}

/// The lines `object list` shows of one object.
pub open spec fn entry_lines(o: ObjectSummary) -> Seq<Seq<char>> {
    seq!["  📄 "@ + o.id@ + " (Space: "@ + or_text(o.space_id, "Unknown"@) + ")"@] + match o.properties {
        Some(p) => listed_properties(p@),
        None => Seq::empty(),
    } + seq![Seq::<char>::empty()]
}

/// The lines `object list` shows of the objects, one after the other.
pub open spec fn listing(objs: Seq<ObjectSummary>) -> Seq<Seq<char>>
    decreases objs.len(),
{
    if objs.len() == 0 {
        Seq::empty()
    } else {
        listing(objs.drop_last()) + entry_lines(objs.last())
    }
}

/// How many of `total` objects `object list` shows with limit `limit`.
pub open spec fn shown_count(total: nat, limit: nat) -> nat {
    if limit < total {
        limit
    } else {
        total
    }
}

/// What `object list` reports of the objects it fetched: none found; or how
/// many there are, the first `limit` of them, and a hint when some are
/// left out.
pub open spec fn list_lines(objs: Seq<ObjectSummary>, limit: nat) -> Seq<Seq<char>> {
    if objs.len() == 0 {
        seq!["📭 No objects found in this space."@]
    } else {
        let shown = shown_count(objs.len(), limit);
        seq![
            "✅ Found "@ + decimal(objs.len()) + " objects (showing first "@ + decimal(shown)
                + "):"@,
        ] + listing(objs.take(shown as int)) + if objs.len() > shown {
            seq!["💡 Use --limit "@ + decimal(objs.len()) + " to see more results"@]
        } else {
            Seq::empty()
        }
    }
}

/// The lines that tell what an object is.
pub open spec fn detail_lines(o: ObjectSummary) -> Seq<Seq<char>> {
    seq![
        "   📄 Object ID: "@ + o.id@,
        "   🏠 Space ID: "@ + or_text(o.space_id, "Unknown"@),
        "   📝 Name: "@ + or_text(o.name, "Unnamed"@),
    ] + match o.object {
        Some(t) => seq!["   🏷️  Type: "@ + t@],
        None => Seq::empty(),
    }
}

/// What `object get` reports of the object it fetched.
pub open spec fn get_lines(o: ObjectSummary) -> Seq<Seq<char>> {
    seq!["✅ Object found!"@] + detail_lines(o) + match o.properties {
        Some(p) => if p@.len() > 0 {
            seq!["   🔑 Properties:"@] + p@.map_values(|q: PropertyText| get_property_line(q))
        } else {
            Seq::empty()
        },
        None => Seq::empty(),
    }
}

/// What `object create` reports of the object it created.
pub open spec fn created_lines(o: ObjectSummary) -> Seq<Seq<char>> {
    seq!["✅ Object created successfully!"@] + detail_lines(o)
}

/// The length of text in bytes once written as UTF-8.
pub open spec fn utf8_len(text: Seq<char>) -> usize {
    encode_utf8(text).len() as usize
}

/// What `object update` reports of the object it updated and its body.
pub open spec fn updated_lines(o: ObjectSummary, body: Option<String>) -> Seq<Seq<char>> {
    seq!["✅ Object updated successfully!"@] + detail_lines(o) + match body {
        Some(b) => seq!["   📄 Body: "@ + decimal(utf8_len(b@) as nat) + " characters"@],
        None => Seq::empty(),
    }
}

/// What `object delete` reports of the object it archived.
pub open spec fn deleted_lines(o: ObjectSummary) -> Seq<Seq<char>> {
    seq!["✅ Object deleted successfully (archived)!"@] + detail_lines(o) + seq![
        "   📦 Archived: The object has been marked as archived"@,
    ]
}

/// `"{prefix}{key}: {value}"`, the value being `N/A` when it has no JSON text.
fn property_line(prefix: &str, p: &PropertyText) -> (line: String)
    ensures
        line@ == prefix@ + p.key@ + ": "@ + or_text(p.json, "N/A"@),
{
    let mut s = String::from_str(prefix);
    s.append(p.key.as_str());
    s.append(": ");
    s.append(text_or(&p.json, "N/A"));
    s
}

/// The properties `object list` shows of one object.
fn listed_property_lines(props: &Vec<PropertyText>) -> (lines: Vec<String>)
    ensures
        lines_view(lines@) == listed_properties(props@),
{
    let n = props.len();
    let shown: usize = if n < 3 {
        n
    } else {
        3
    };
    let mut lines: Vec<String> = Vec::new();
    let mut j: usize = 0;
    while j < shown
        invariant
            n == props@.len(),
            shown == if n < 3 { n } else { 3 },
            j <= shown,
            lines_view(lines@) == props@.take(j as int).map_values(
                |p: PropertyText| list_property_line(p),
            ),
        decreases shown - j,
    {
        push_line(&mut lines, property_line("    🔑 ", &props[j]));
        assert(props@.take(j + 1).map_values(|p: PropertyText| list_property_line(p))
            =~= props@.take(j as int).map_values(|p: PropertyText| list_property_line(p)).push(
            list_property_line(props@[j as int]),
        ));
        j = j + 1;
    }
    if n > 3 {
        let mut s = String::from_str("    ... and ");
        s.append(decimal_string(n - 3).as_str());
        s.append(" more properties");
        push_line(&mut lines, s);
    } else {
        assert(lines_view(lines@) =~= lines_view(lines@) + Seq::<Seq<char>>::empty());
    }
    lines
}

/// The lines `object list` shows of one object.
fn entry_report(o: &ObjectSummary) -> (lines: Vec<String>)
    ensures
        lines_view(lines@) == entry_lines(*o),
{
    let mut lines: Vec<String> = Vec::new();
    let mut head = String::from_str("  📄 ");
    head.append(o.id.as_str());
    head.append(" (Space: ");
    head.append(text_or(&o.space_id, "Unknown"));
    head.append(")");
    push_line(&mut lines, head);
    assert(lines_view(lines@) =~= seq![
        "  📄 "@ + o.id@ + " (Space: "@ + or_text(o.space_id, "Unknown"@) + ")"@,
    ]);
    match &o.properties {
        Some(p) => push_lines(&mut lines, listed_property_lines(p)),
        None => {
            assert(lines_view(lines@) =~= lines_view(lines@) + Seq::<Seq<char>>::empty());
        },
    }
    push_line(&mut lines, String::new());
    lines
}

/// What `object list` reports of the objects it fetched, shown at most
/// `limit` at a time.
pub fn list_report(objects: &Vec<ObjectSummary>, limit: u32) -> (lines: Vec<String>)
    ensures
        lines_view(lines@) == list_lines(objects@, limit as nat),
{
    let mut lines: Vec<String> = Vec::new();
    let total = objects.len();
    if total == 0 {
        push_line(&mut lines, String::from_str("📭 No objects found in this space."));
        return lines;
    }
    let limit = limit as usize;
    let shown = if limit < total {
        limit
    } else {
        total
    };
    let mut head = String::from_str("✅ Found ");
    head.append(decimal_string(total).as_str());
    head.append(" objects (showing first ");
    head.append(decimal_string(shown).as_str());
    head.append("):");
    push_line(&mut lines, head);
    let ghost first = lines_view(lines@);
    assert(objects@.take(0) =~= Seq::<ObjectSummary>::empty());
    assert(first + listing(objects@.take(0)) =~= first);
    let mut i: usize = 0;
    while i < shown
        invariant
            total == objects@.len(),
            shown <= total,
            i <= shown,
            lines_view(lines@) == first + listing(objects@.take(i as int)),
        decreases shown - i,
    {
        push_lines(&mut lines, entry_report(&objects[i]));
        assert(objects@.take(i + 1).drop_last() =~= objects@.take(i as int));
        assert(objects@.take(i + 1).last() == objects@[i as int]);
        i = i + 1;
    }
    if total > shown {
        let mut hint = String::from_str("💡 Use --limit ");
        hint.append(decimal_string(total).as_str());
        hint.append(" to see more results");
        push_line(&mut lines, hint);
    } else {
        assert(lines_view(lines@) =~= lines_view(lines@) + Seq::<Seq<char>>::empty());
    }
    lines
}

/// The lines that tell what an object is.
fn detail_report(o: &ObjectSummary) -> (lines: Vec<String>)
    ensures
        lines_view(lines@) == detail_lines(*o),
{
    let mut lines: Vec<String> = Vec::new();
    let mut id = String::from_str("   📄 Object ID: ");
    id.append(o.id.as_str());
    push_line(&mut lines, id);
    let mut space = String::from_str("   🏠 Space ID: ");
    space.append(text_or(&o.space_id, "Unknown"));
    push_line(&mut lines, space);
    let mut name = String::from_str("   📝 Name: ");
    name.append(text_or(&o.name, "Unnamed"));
    push_line(&mut lines, name);
    match &o.object {
        Some(t) => {
            let mut ty = String::from_str("   🏷️  Type: ");
            ty.append(t.as_str());
            push_line(&mut lines, ty);
        },
        None => {},
    }
    assert(lines_view(lines@) =~= detail_lines(*o));
    lines
}

/// What `object get` reports of the object it fetched.
pub fn get_report(o: &ObjectSummary) -> (lines: Vec<String>)
    ensures
        lines_view(lines@) == get_lines(*o),
{
    let mut lines: Vec<String> = Vec::new();
    push_line(&mut lines, String::from_str("✅ Object found!"));
    push_lines(&mut lines, detail_report(o));
    let ghost before = lines_view(lines@);
    match &o.properties {
        Some(p) => {
            if p.len() > 0 {
                push_line(&mut lines, String::from_str("   🔑 Properties:"));
                let ghost head = lines_view(lines@);
                let mut j: usize = 0;
                while j < p.len()
                    invariant
                        j <= p@.len(),
                        lines_view(lines@) == head + p@.take(j as int).map_values(
                            |q: PropertyText| get_property_line(q),
                        ),
                    decreases p@.len() - j,
                {
                    push_line(&mut lines, property_line("      ", &p[j]));
                    assert(p@.take(j + 1).map_values(|q: PropertyText| get_property_line(q))
                        =~= p@.take(j as int).map_values(
                        |q: PropertyText| get_property_line(q),
                    ).push(get_property_line(p@[j as int])));
                    j = j + 1;
                }
                assert(p@.take(p@.len() as int) =~= p@);
            }
        },
        None => {},
    }
    assert(lines_view(lines@) =~= get_lines(*o));
    lines
}

/// What `object create` reports of the object it created.
pub fn created_report(o: &ObjectSummary) -> (lines: Vec<String>)
    ensures
        lines_view(lines@) == created_lines(*o),
{
    let mut lines: Vec<String> = Vec::new();
    push_line(&mut lines, String::from_str("✅ Object created successfully!"));
    push_lines(&mut lines, detail_report(o));
    assert(lines_view(lines@) =~= created_lines(*o));
    lines
}

/// What `object update` reports of the object it updated and of its body.
pub fn updated_report(o: &ObjectSummary, body: &Option<String>) -> (lines: Vec<String>)
    ensures
        lines_view(lines@) == updated_lines(*o, *body),
{
    let mut lines: Vec<String> = Vec::new();
    push_line(&mut lines, String::from_str("✅ Object updated successfully!"));
    push_lines(&mut lines, detail_report(o));
    match body {
        Some(b) => {
            let mut s = String::from_str("   📄 Body: ");
            s.append(decimal_string(b.as_str().len()).as_str());
            s.append(" characters");
            push_line(&mut lines, s);
        },
        None => {},
    }
    assert(lines_view(lines@) =~= updated_lines(*o, *body));
    lines
}

/// What `object delete` reports of the object it archived.
pub fn deleted_report(o: &ObjectSummary) -> (lines: Vec<String>)
    ensures
        lines_view(lines@) == deleted_lines(*o),
{
    let mut lines: Vec<String> = Vec::new();
    push_line(&mut lines, String::from_str("✅ Object deleted successfully (archived)!"));
    push_lines(&mut lines, detail_report(o));
    push_line(
        &mut lines,
        String::from_str("   📦 Archived: The object has been marked as archived"),
    );
    assert(lines_view(lines@) =~= deleted_lines(*o));
    lines
}
} // verus!
