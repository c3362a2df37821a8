use vstd::prelude::*;
use crate::error::OdooErrorV;
use crate::json::{Json, JsonV, lemma_key_index, member, push_member, strs_value, view_members};
use super::{
    ToolPlanV,
    dispatch_spec,
    missing_array,
    missing_string,
    missing_value,
    non_integer,
};
use crate::text::views_of;

verus! {

/// A tool as it is announced to clients: its name, what it does, and the JSON schema of
/// its arguments (the members of a JSON object).
pub struct ToolDef {
    pub name: &'static str,
    pub description: &'static str,
    pub schema: Vec<(String, Json)>,
}

pub struct ToolDefV {
    pub name: Seq<char>,
    pub description: Seq<char>,
    pub schema: Seq<(Seq<char>, JsonV)>,
}

impl View for ToolDef {
    type V = ToolDefV;

    open spec fn view(&self) -> ToolDefV {
        ToolDefV { name: self.name@, description: self.description@, schema: view_members(self.schema@) }
    }
}

pub open spec fn tool_def_views(defs: Seq<ToolDef>) -> Seq<ToolDefV> {
    defs.map_values(|d: ToolDef| d@)
}

/// The schema of an argument of a given JSON type.
pub open spec fn plain_prop(ty: Seq<char>, description: Seq<char>) -> JsonV {
    JsonV::Object(seq![("type"@, JsonV::Str(ty)), ("description"@, JsonV::Str(description))])
}

/// The schema of an array argument whose items have a given JSON type.
pub open spec fn list_prop(item_ty: Seq<char>, description: Seq<char>) -> JsonV {
    JsonV::Object(
        seq![
            ("type"@, JsonV::Str("array"@)),
            ("items"@, JsonV::Object(seq![("type"@, JsonV::Str(item_ty))])),
            ("description"@, JsonV::Str(description)),
        ],
    )
}

/// The schema of an object argument list with `properties`, of which `required` must be given.
pub open spec fn object_schema(properties: Seq<(Seq<char>, JsonV)>, required: Seq<Seq<char>>) -> Seq<
    (Seq<char>, JsonV),
> {
    seq![
        ("type"@, JsonV::Str("object"@)),
        ("properties"@, JsonV::Object(properties)),
        ("required"@, strs_value(required)),
    ]
}

pub open spec fn tool_spec(name: Seq<char>, description: Seq<char>, schema: Seq<(Seq<char>, JsonV)>) -> ToolDefV {
    ToolDefV { name, description, schema }
}

/// The tools, in the order they are announced.
pub open spec fn tool_catalog() -> Seq<ToolDefV> {
    seq![
        tool_spec(
            "list_models"@,
            "List all Odoo models available (filtered by server configuration)"@,
            object_schema(seq![], seq![]),
        ),
        tool_spec(
            "describe_model"@,
            "Get field definitions for an Odoo model"@,
            object_schema(seq![
                ("model"@, plain_prop("string"@, "Technical model name (e.g. res.partner)"@)),
            ], seq!["model"@]),
        ),
        tool_spec(
            "search"@,
            "Search records in an Odoo model with domain filters. Returns paginated results with total count."@,
            object_schema(seq![
                ("model"@, plain_prop("string"@, "Technical model name (e.g. res.partner)"@)),
                ("domain"@, plain_prop("array"@, "Odoo domain filter (e.g. [[\"is_company\",\"=\",true]])"@)),
                ("fields"@, list_prop("string"@, "Fields to return"@)),
                ("limit"@, plain_prop("integer"@, "Maximum number of records"@)),
                ("offset"@, plain_prop("integer"@, "Number of records to skip"@)),
                ("order"@, plain_prop("string"@, "Sort order (e.g. \"name asc, id desc\")"@)),
            ], seq!["model"@, "domain"@]),
        ),
        tool_spec(
            "read"@,
            "Read specific records by their IDs"@,
            object_schema(seq![
                ("model"@, plain_prop("string"@, "Technical model name (e.g. res.partner)"@)),
                ("ids"@, list_prop("integer"@, "Record IDs to read"@)),
                ("fields"@, list_prop("string"@, "Fields to return"@)),
            ], seq!["model"@, "ids"@]),
        ),
        tool_spec(
            "create"@,
            "Create a new record in an Odoo model"@,
            object_schema(seq![
                ("model"@, plain_prop("string"@, "Technical model name (e.g. res.partner)"@)),
                ("values"@, plain_prop("object"@, "Field values for the new record"@)),
            ], seq!["model"@, "values"@]),
        ),
        tool_spec(
            "write"@,
            "Update existing records in an Odoo model"@,
            object_schema(seq![
                ("model"@, plain_prop("string"@, "Technical model name (e.g. res.partner)"@)),
                ("ids"@, list_prop("integer"@, "Record IDs to update"@)),
                ("values"@, plain_prop("object"@, "Field values to update"@)),
            ], seq!["model"@, "ids"@, "values"@]),
        ),
        tool_spec(
            "delete"@,
            "Delete records from an Odoo model"@,
            object_schema(seq![
                ("model"@, plain_prop("string"@, "Technical model name (e.g. res.partner)"@)),
                ("ids"@, list_prop("integer"@, "Record IDs to delete"@)),
            ], seq!["model"@, "ids"@]),
        ),
        tool_spec(
            "call_method"@,
            "Call an arbitrary method on an Odoo model"@,
            object_schema(seq![
                ("model"@, plain_prop("string"@, "Technical model name (e.g. res.partner)"@)),
                ("method"@, plain_prop("string"@, "Method name to call"@)),
                ("ids"@, list_prop("integer"@, "Record IDs (optional for @api.model methods)"@)),
                ("kwargs"@, plain_prop("object"@, "Keyword arguments to pass to the method"@)),
            ], seq!["model"@, "method"@]),
        ),
    ]
}

fn plain_prop_json(ty: &str, description: &str) -> (r: Json)
    ensures
        r@ == plain_prop(ty@, description@),
{
    let mut ms: Vec<(String, Json)> = Vec::new();
    assert(view_members(ms@) =~= seq![]);
    push_member(&mut ms, "type", Json::text(ty));
    push_member(&mut ms, "description", Json::text(description));
    assert(view_members(ms@) =~= seq![
        ("type"@, JsonV::Str(ty@)),
        ("description"@, JsonV::Str(description@)),
    ]);
    Json::Object(ms)
}

fn list_prop_json(item_ty: &str, description: &str) -> (r: Json)
    ensures
        r@ == list_prop(item_ty@, description@),
{
    let mut inner: Vec<(String, Json)> = Vec::new();
    assert(view_members(inner@) =~= seq![]);
    push_member(&mut inner, "type", Json::text(item_ty));
    let mut ms: Vec<(String, Json)> = Vec::new();
    assert(view_members(ms@) =~= seq![]);
    push_member(&mut ms, "type", Json::text("array"));
    push_member(&mut ms, "items", Json::Object(inner));
    push_member(&mut ms, "description", Json::text(description));
    assert(view_members(inner@) =~= seq![("type"@, JsonV::Str(item_ty@))]);
    assert(view_members(ms@) =~= seq![
        ("type"@, JsonV::Str("array"@)),
        ("items"@, JsonV::Object(seq![("type"@, JsonV::Str(item_ty@))])),
        ("description"@, JsonV::Str(description@)),
    ]);
    Json::Object(ms)
}

fn object_schema_json(properties: Vec<(String, Json)>, required: Vec<String>) -> (r: Vec<(String, Json)>)
    ensures
        view_members(r@) == object_schema(view_members(properties@), views_of(required@)),
{
    let mut ms: Vec<(String, Json)> = Vec::new();
    assert(view_members(ms@) =~= seq![]);
    push_member(&mut ms, "type", Json::text("object"));
    push_member(&mut ms, "properties", Json::Object(properties));
    push_member(&mut ms, "required", Json::str_array(&required));
    assert(view_members(ms@) =~= object_schema(view_members(properties@), views_of(required@)));
    ms
}

/// The tools announced to clients, with the schemas of their arguments.
pub fn tool_schemas() -> (r: Vec<ToolDef>)
    ensures
        tool_def_views(r@) == tool_catalog(),
{
    let mut defs: Vec<ToolDef> = Vec::new();
    // list_models
    let props: Vec<(String, Json)> = Vec::new();
    assert(view_members(props@) =~= seq![]);
    let required: Vec<String> = Vec::new();
    assert(views_of(required@) =~= seq![]);
    let ghost before = defs@;
    defs.push(
        ToolDef {
            name: "list_models",
            description: "List all Odoo models available (filtered by server configuration)",
            schema: object_schema_json(props, required),
        },
    );
    assert(tool_def_views(defs@) =~= tool_def_views(before).push(tool_catalog()[0]));
    // describe_model
    let mut props: Vec<(String, Json)> = Vec::new();
    assert(view_members(props@) =~= seq![]);
    push_member(&mut props, "model", plain_prop_json("string", "Technical model name (e.g. res.partner)"));
    assert(view_members(props@) =~= seq![
        ("model"@, plain_prop("string"@, "Technical model name (e.g. res.partner)"@)),
    ]);
    let mut required: Vec<String> = Vec::new();
    required.push(String::from_str("model"));
    assert(views_of(required@) =~= seq!["model"@]);
    let ghost before = defs@;
    defs.push(
        ToolDef {
            name: "describe_model",
            description: "Get field definitions for an Odoo model",
            schema: object_schema_json(props, required),
        },
    );
    assert(tool_def_views(defs@) =~= tool_def_views(before).push(tool_catalog()[1]));
    // search
    let mut props: Vec<(String, Json)> = Vec::new();
    assert(view_members(props@) =~= seq![]);
    push_member(&mut props, "model", plain_prop_json("string", "Technical model name (e.g. res.partner)"));
    push_member(&mut props, "domain", plain_prop_json("array", "Odoo domain filter (e.g. [[\"is_company\",\"=\",true]])"));
    push_member(&mut props, "fields", list_prop_json("string", "Fields to return"));
    push_member(&mut props, "limit", plain_prop_json("integer", "Maximum number of records"));
    push_member(&mut props, "offset", plain_prop_json("integer", "Number of records to skip"));
    push_member(&mut props, "order", plain_prop_json("string", "Sort order (e.g. \"name asc, id desc\")"));
    assert(view_members(props@) =~= seq![
        ("model"@, plain_prop("string"@, "Technical model name (e.g. res.partner)"@)),
        ("domain"@, plain_prop("array"@, "Odoo domain filter (e.g. [[\"is_company\",\"=\",true]])"@)),
        ("fields"@, list_prop("string"@, "Fields to return"@)),
        ("limit"@, plain_prop("integer"@, "Maximum number of records"@)),
        ("offset"@, plain_prop("integer"@, "Number of records to skip"@)),
        ("order"@, plain_prop("string"@, "Sort order (e.g. \"name asc, id desc\")"@)),
    ]);
    let mut required: Vec<String> = Vec::new();
    required.push(String::from_str("model"));
    required.push(String::from_str("domain"));
    assert(views_of(required@) =~= seq!["model"@, "domain"@]);
    let ghost before = defs@;
    defs.push(
        ToolDef {
            name: "search",
            description: "Search records in an Odoo model with domain filters. Returns paginated results with total count.",
            schema: object_schema_json(props, required),
        },
    );
    assert(tool_def_views(defs@) =~= tool_def_views(before).push(tool_catalog()[2]));
    // read
    let mut props: Vec<(String, Json)> = Vec::new();
    assert(view_members(props@) =~= seq![]);
    push_member(&mut props, "model", plain_prop_json("string", "Technical model name (e.g. res.partner)"));
    push_member(&mut props, "ids", list_prop_json("integer", "Record IDs to read"));
    push_member(&mut props, "fields", list_prop_json("string", "Fields to return"));
    assert(view_members(props@) =~= seq![
        ("model"@, plain_prop("string"@, "Technical model name (e.g. res.partner)"@)),
        ("ids"@, list_prop("integer"@, "Record IDs to read"@)),
        ("fields"@, list_prop("string"@, "Fields to return"@)),
    ]);
    let mut required: Vec<String> = Vec::new();
    required.push(String::from_str("model"));
    required.push(String::from_str("ids"));
    assert(views_of(required@) =~= seq!["model"@, "ids"@]);
    let ghost before = defs@;
    defs.push(
        ToolDef {
            name: "read",
            description: "Read specific records by their IDs",
            schema: object_schema_json(props, required),
        },
    );
    assert(tool_def_views(defs@) =~= tool_def_views(before).push(tool_catalog()[3]));
    // create
    let mut props: Vec<(String, Json)> = Vec::new();
    assert(view_members(props@) =~= seq![]);
    push_member(&mut props, "model", plain_prop_json("string", "Technical model name (e.g. res.partner)"));
    push_member(&mut props, "values", plain_prop_json("object", "Field values for the new record"));
    assert(view_members(props@) =~= seq![
        ("model"@, plain_prop("string"@, "Technical model name (e.g. res.partner)"@)),
        ("values"@, plain_prop("object"@, "Field values for the new record"@)),
    ]);
    let mut required: Vec<String> = Vec::new();
    required.push(String::from_str("model"));
    required.push(String::from_str("values"));
    assert(views_of(required@) =~= seq!["model"@, "values"@]);
    let ghost before = defs@;
    defs.push(
        ToolDef {
            name: "create",
            description: "Create a new record in an Odoo model",
            schema: object_schema_json(props, required),
        },
    );
    assert(tool_def_views(defs@) =~= tool_def_views(before).push(tool_catalog()[4]));
    // write
    let mut props: Vec<(String, Json)> = Vec::new();
    assert(view_members(props@) =~= seq![]);
    push_member(&mut props, "model", plain_prop_json("string", "Technical model name (e.g. res.partner)"));
    push_member(&mut props, "ids", list_prop_json("integer", "Record IDs to update"));
    push_member(&mut props, "values", plain_prop_json("object", "Field values to update"));
    assert(view_members(props@) =~= seq![
        ("model"@, plain_prop("string"@, "Technical model name (e.g. res.partner)"@)),
        ("ids"@, list_prop("integer"@, "Record IDs to update"@)),
        ("values"@, plain_prop("object"@, "Field values to update"@)),
    ]);
    let mut required: Vec<String> = Vec::new();
    required.push(String::from_str("model"));
    required.push(String::from_str("ids"));
    required.push(String::from_str("values"));
    assert(views_of(required@) =~= seq!["model"@, "ids"@, "values"@]);
    let ghost before = defs@;
    defs.push(
        ToolDef {
            name: "write",
            description: "Update existing records in an Odoo model",
            schema: object_schema_json(props, required),
        },
    );
    assert(tool_def_views(defs@) =~= tool_def_views(before).push(tool_catalog()[5]));
    // delete
    let mut props: Vec<(String, Json)> = Vec::new();
    assert(view_members(props@) =~= seq![]);
    push_member(&mut props, "model", plain_prop_json("string", "Technical model name (e.g. res.partner)"));
    push_member(&mut props, "ids", list_prop_json("integer", "Record IDs to delete"));
    assert(view_members(props@) =~= seq![
        ("model"@, plain_prop("string"@, "Technical model name (e.g. res.partner)"@)),
        ("ids"@, list_prop("integer"@, "Record IDs to delete"@)),
    ]);
    let mut required: Vec<String> = Vec::new();
    required.push(String::from_str("model"));
    required.push(String::from_str("ids"));
    assert(views_of(required@) =~= seq!["model"@, "ids"@]);
    let ghost before = defs@;
    defs.push(
        ToolDef {
            name: "delete",
            description: "Delete records from an Odoo model",
            schema: object_schema_json(props, required),
        },
    );
    assert(tool_def_views(defs@) =~= tool_def_views(before).push(tool_catalog()[6]));
    // call_method
    let mut props: Vec<(String, Json)> = Vec::new();
    assert(view_members(props@) =~= seq![]);
    push_member(&mut props, "model", plain_prop_json("string", "Technical model name (e.g. res.partner)"));
    push_member(&mut props, "method", plain_prop_json("string", "Method name to call"));
    push_member(&mut props, "ids", list_prop_json("integer", "Record IDs (optional for @api.model methods)"));
    push_member(&mut props, "kwargs", plain_prop_json("object", "Keyword arguments to pass to the method"));
    assert(view_members(props@) =~= seq![
        ("model"@, plain_prop("string"@, "Technical model name (e.g. res.partner)"@)),
        ("method"@, plain_prop("string"@, "Method name to call"@)),
        ("ids"@, list_prop("integer"@, "Record IDs (optional for @api.model methods)"@)),
        ("kwargs"@, plain_prop("object"@, "Keyword arguments to pass to the method"@)),
    ]);
    let mut required: Vec<String> = Vec::new();
    required.push(String::from_str("model"));
    required.push(String::from_str("method"));
    assert(views_of(required@) =~= seq!["model"@, "method"@]);
    let ghost before = defs@;
    defs.push(
        ToolDef {
            name: "call_method",
            description: "Call an arbitrary method on an Odoo model",
            schema: object_schema_json(props, required),
        },
    );
    assert(tool_def_views(defs@) =~= tool_def_views(before).push(tool_catalog()[7]));
    assert(tool_def_views(defs@) =~= tool_catalog());
    defs
}

/// The tool names are pairwise different.
pub proof fn lemma_tool_names_distinct()
    ensures
        "list_models"@ != "describe_model"@,
        "list_models"@ != "search"@,
        "list_models"@ != "read"@,
        "list_models"@ != "create"@,
        "list_models"@ != "write"@,
        "list_models"@ != "delete"@,
        "list_models"@ != "call_method"@,
        "describe_model"@ != "search"@,
        "describe_model"@ != "read"@,
        "describe_model"@ != "create"@,
        "describe_model"@ != "write"@,
        "describe_model"@ != "delete"@,
        "describe_model"@ != "call_method"@,
        "search"@ != "read"@,
        "search"@ != "create"@,
        "search"@ != "write"@,
        "search"@ != "delete"@,
        "search"@ != "call_method"@,
        "read"@ != "create"@,
        "read"@ != "write"@,
        "read"@ != "delete"@,
        "read"@ != "call_method"@,
        "create"@ != "write"@,
        "create"@ != "delete"@,
        "create"@ != "call_method"@,
        "write"@ != "delete"@,
        "write"@ != "call_method"@,
        "delete"@ != "call_method"@,
{
    reveal_strlit("list_models");
    reveal_strlit("describe_model");
    reveal_strlit("search");
    reveal_strlit("read");
    reveal_strlit("create");
    reveal_strlit("write");
    reveal_strlit("delete");
    reveal_strlit("call_method");
    assert("list_models"@[0] != "describe_model"@[0]);
    assert("list_models"@[0] != "search"@[0]);
    assert("list_models"@[0] != "read"@[0]);
    assert("list_models"@[0] != "create"@[0]);
    assert("list_models"@[0] != "write"@[0]);
    assert("list_models"@[0] != "delete"@[0]);
    assert("list_models"@[0] != "call_method"@[0]);
    assert("describe_model"@[0] != "search"@[0]);
    assert("describe_model"@[0] != "read"@[0]);
    assert("describe_model"@[0] != "create"@[0]);
    assert("describe_model"@[0] != "write"@[0]);
    assert("describe_model"@[2] != "delete"@[2]);
    assert("describe_model"@[0] != "call_method"@[0]);
    assert("search"@[0] != "read"@[0]);
    assert("search"@[0] != "create"@[0]);
    assert("search"@[0] != "write"@[0]);
    assert("search"@[0] != "delete"@[0]);
    assert("search"@[0] != "call_method"@[0]);
    assert("read"@[0] != "create"@[0]);
    assert("read"@[0] != "write"@[0]);
    assert("read"@[0] != "delete"@[0]);
    assert("read"@[0] != "call_method"@[0]);
    assert("create"@[0] != "write"@[0]);
    assert("create"@[0] != "delete"@[0]);
    assert("create"@[1] != "call_method"@[1]);
    assert("write"@[0] != "delete"@[0]);
    assert("write"@[0] != "call_method"@[0]);
    assert("delete"@[0] != "call_method"@[0]);
}

/// Whether `name` is one of the tools announced.
pub open spec fn announced(name: Seq<char>) -> bool {
    exists|i: int| 0 <= i < tool_catalog().len() && tool_catalog()[i].name == name
}

/// A call of a tool is refused as unknown exactly when the tool is not announced.
pub proof fn lemma_unknown_exactly_unannounced(
    name: Seq<char>,
    args: Seq<(Seq<char>, JsonV)>,
    read_only: bool,
    page_size: u32,
)
    ensures
        (dispatch_spec(name, args, read_only, page_size) == Err::<ToolPlanV, OdooErrorV>(
            OdooErrorV::Validation("unknown tool: "@ + name),
        )) <==> !announced(name),
{
    lemma_tool_names_distinct();
    reveal_strlit("unknown tool: ");
    reveal_strlit("missing required string parameter: ");
    reveal_strlit("missing required parameter: ");
    reveal_strlit("missing required array parameter: ");
    reveal_strlit("non-integer value in ");
    let u = "unknown tool: "@;
    assert forall|k: Seq<char>| #![trigger "missing required string parameter: "@ + k]
        ("missing required string parameter: "@ + k)[0] != (u + name)[0] by {}
    assert forall|k: Seq<char>| #![trigger "missing required parameter: "@ + k]
        ("missing required parameter: "@ + k)[0] != (u + name)[0] by {}
    assert forall|k: Seq<char>| #![trigger "missing required array parameter: "@ + k]
        ("missing required array parameter: "@ + k)[0] != (u + name)[0] by {}
    assert forall|k: Seq<char>| #![trigger "non-integer value in "@ + k]
        ("non-integer value in "@ + k + " array"@)[0] != (u + name)[0] by {}
    if announced(name) {
        let i = choose|i: int| 0 <= i < tool_catalog().len() && tool_catalog()[i].name == name;
        assert(tool_catalog()[0].name == "list_models"@);
        assert(tool_catalog()[1].name == "describe_model"@);
        assert(tool_catalog()[2].name == "search"@);
        assert(tool_catalog()[3].name == "read"@);
        assert(tool_catalog()[4].name == "create"@);
        assert(tool_catalog()[5].name == "write"@);
        assert(tool_catalog()[6].name == "delete"@);
        assert(tool_catalog()[7].name == "call_method"@);
    } else {
        assert(tool_catalog()[0].name == "list_models"@);
        assert(tool_catalog()[1].name == "describe_model"@);
        assert(tool_catalog()[2].name == "search"@);
        assert(tool_catalog()[3].name == "read"@);
        assert(tool_catalog()[4].name == "create"@);
        assert(tool_catalog()[5].name == "write"@);
        assert(tool_catalog()[6].name == "delete"@);
        assert(tool_catalog()[7].name == "call_method"@);
        assert(name != "list_models"@);
        assert(name != "describe_model"@);
        assert(name != "search"@);
        assert(name != "read"@);
        assert(name != "create"@);
        assert(name != "write"@);
        assert(name != "delete"@);
        assert(name != "call_method"@);
    }
}

/// The argument names that a schema lists as required.
pub open spec fn required_params(schema: Seq<(Seq<char>, JsonV)>) -> Seq<Seq<char>> {
    match member(schema, "required"@) {
        Some(JsonV::Array(items)) => items.map_values(
            |j: JsonV|
                match j {
                    JsonV::Str(s) => s,
                    _ => Seq::<char>::empty(),
                },
        ),
        _ => Seq::empty(),
    }
}

/// An announced tool whose schema requires an argument refuses a call without it.
pub proof fn lemma_required_params_enforced(
    i: int,
    k: Seq<char>,
    args: Seq<(Seq<char>, JsonV)>,
    read_only: bool,
    page_size: u32,
)
    requires
        0 <= i < tool_catalog().len(),
        required_params(tool_catalog()[i].schema).contains(k),
        member(args, k) is None,
    ensures
        dispatch_spec(tool_catalog()[i].name, args, read_only, page_size) is Err,
{
    lemma_tool_names_distinct();
    reveal_strlit("type");
    reveal_strlit("properties");
    reveal_strlit("required");
    assert("type"@[0] != "required"@[0]);
    assert("properties"@[0] != "required"@[0]);
    if i == 0 {
        let schema = tool_catalog()[0].schema;
        lemma_key_index(schema, "required"@, 2);
        assert(required_params(schema) =~= seq![]);
        assert(tool_catalog()[0].name == "list_models"@);
    }
    if i == 1 {
        let schema = tool_catalog()[1].schema;
        lemma_key_index(schema, "required"@, 2);
        assert(required_params(schema) =~= seq!["model"@]);
        assert(tool_catalog()[1].name == "describe_model"@);
    }
    if i == 2 {
        let schema = tool_catalog()[2].schema;
        lemma_key_index(schema, "required"@, 2);
        assert(required_params(schema) =~= seq!["model"@, "domain"@]);
        assert(tool_catalog()[2].name == "search"@);
    }
    if i == 3 {
        let schema = tool_catalog()[3].schema;
        lemma_key_index(schema, "required"@, 2);
        assert(required_params(schema) =~= seq!["model"@, "ids"@]);
        assert(tool_catalog()[3].name == "read"@);
    }
    if i == 4 {
        let schema = tool_catalog()[4].schema;
        lemma_key_index(schema, "required"@, 2);
        assert(required_params(schema) =~= seq!["model"@, "values"@]);
        assert(tool_catalog()[4].name == "create"@);
    }
    if i == 5 {
        let schema = tool_catalog()[5].schema;
        lemma_key_index(schema, "required"@, 2);
        assert(required_params(schema) =~= seq!["model"@, "ids"@, "values"@]);
        assert(tool_catalog()[5].name == "write"@);
    }
    if i == 6 {
        let schema = tool_catalog()[6].schema;
        lemma_key_index(schema, "required"@, 2);
        assert(required_params(schema) =~= seq!["model"@, "ids"@]);
        assert(tool_catalog()[6].name == "delete"@);
    }
    if i == 7 {
        let schema = tool_catalog()[7].schema;
        lemma_key_index(schema, "required"@, 2);
        assert(required_params(schema) =~= seq!["model"@, "method"@]);
        assert(tool_catalog()[7].name == "call_method"@);
    }
}

/// The refusals a tool can make agree with its schema: apart from the read-only refusal,
/// every refusal of an announced tool names an argument that the schema marks required,
/// as missing or as an array with a non-integer item.
pub proof fn lemma_refusals_name_required_params(
    i: int,
    args: Seq<(Seq<char>, JsonV)>,
    read_only: bool,
    page_size: u32,
)
    requires
        0 <= i < tool_catalog().len(),
    ensures
        dispatch_spec(tool_catalog()[i].name, args, read_only, page_size) matches Err(e) ==> (e
            == OdooErrorV::ReadOnly || exists|k: Seq<char>|
            #![trigger required_params(tool_catalog()[i].schema).contains(k)]
            required_params(tool_catalog()[i].schema).contains(k) && (e == missing_string(k) || e
                == missing_value(k) || e == missing_array(k) || e == non_integer(k))),
{
    lemma_tool_names_distinct();
    reveal_strlit("type");
    reveal_strlit("properties");
    reveal_strlit("required");
    assert("type"@[0] != "required"@[0]);
    assert("properties"@[0] != "required"@[0]);
    let schema = tool_catalog()[i].schema;
    lemma_key_index(schema, "required"@, 2);
    let req = required_params(schema);
    if i == 0 {
        assert(tool_catalog()[0].name == "list_models"@);
        assert(req =~= seq![]);
    }
    if i == 1 {
        assert(tool_catalog()[1].name == "describe_model"@);
        assert(req =~= seq!["model"@]);
        assert(req[0] == "model"@);
        assert(req.contains("model"@));
    }
    if i == 2 {
        assert(tool_catalog()[2].name == "search"@);
        assert(req =~= seq!["model"@, "domain"@]);
        assert(req[0] == "model"@);
        assert(req.contains("model"@));
        assert(req[1] == "domain"@);
        assert(req.contains("domain"@));
    }
    if i == 3 {
        assert(tool_catalog()[3].name == "read"@);
        assert(req =~= seq!["model"@, "ids"@]);
        assert(req[0] == "model"@);
        assert(req.contains("model"@));
        assert(req[1] == "ids"@);
        assert(req.contains("ids"@));
    }
    if i == 4 {
        assert(tool_catalog()[4].name == "create"@);
        assert(req =~= seq!["model"@, "values"@]);
        assert(req[0] == "model"@);
        assert(req.contains("model"@));
        assert(req[1] == "values"@);
        assert(req.contains("values"@));
    }
    if i == 5 {
        assert(tool_catalog()[5].name == "write"@);
        assert(req =~= seq!["model"@, "ids"@, "values"@]);
        assert(req[0] == "model"@);
        assert(req.contains("model"@));
        assert(req[1] == "ids"@);
        assert(req.contains("ids"@));
        assert(req[2] == "values"@);
        assert(req.contains("values"@));
    }
    if i == 6 {
        assert(tool_catalog()[6].name == "delete"@);
        assert(req =~= seq!["model"@, "ids"@]);
        assert(req[0] == "model"@);
        assert(req.contains("model"@));
        assert(req[1] == "ids"@);
        assert(req.contains("ids"@));
    }
    if i == 7 {
        assert(tool_catalog()[7].name == "call_method"@);
        assert(req =~= seq!["model"@, "method"@]);
        assert(req[0] == "model"@);
        assert(req.contains("model"@));
        assert(req[1] == "method"@);
        assert(req.contains("method"@));
    }
}

} // verus!
