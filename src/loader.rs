//! Decoding of a parsed document into the model.
//!
//! Schema nodes are told apart in a fixed order: a `type` tag first, then an
//! object given by `properties` alone, then a `$ref` pointer; anything else is
//! opaque. Every other shape that the grammar demands and the document lacks
//! makes the whole document malformed.

use vstd::prelude::*;
use crate::model::{
    Component, Document, GenError, Group, InlineObject, Operation, Parameter, ParameterLocation,
    PathItem, SchemaKind, SchemaNode,
};
use crate::text::same_text;
use crate::yaml::{field, flag_field, get_field, get_flag, get_text, text_field, Yaml};
use crate::yaml::field_of;

verus! {

/// The primitive tag that a `type` value names.
pub open spec fn kind_named(s: Seq<char>) -> Option<SchemaKind> {
    if s == "null"@ {
        Some(SchemaKind::Null)
    } else if s == "boolean"@ {
        Some(SchemaKind::Boolean)
    } else if s == "object"@ {
        Some(SchemaKind::Object)
    } else if s == "array"@ {
        Some(SchemaKind::Array)
    } else if s == "number"@ {
        Some(SchemaKind::Number)
    } else if s == "string"@ {
        Some(SchemaKind::String)
    } else if s == "integer"@ {
        Some(SchemaKind::Integer)
    } else {
        None
    }
}

/// The tag of a schema node: a `type` text that names a primitive kind.
pub open spec fn tag_of(y: Yaml) -> Option<SchemaKind> {
    match text_field(y, "type"@) {
        Some(s) => kind_named(s@),
        None => None,
    }
}

/// The node has a `properties` mapping.
pub open spec fn has_properties(y: Yaml) -> bool {
    field(y, "properties"@) matches Some(Yaml::Mapping(_, _))
}

/// Names of the node's properties, in document order.
pub open spec fn property_names(y: Yaml) -> Seq<String> {
    match field(y, "properties"@) {
        Some(Yaml::Mapping(keys, _)) => keys@,
        _ => seq![],
    }
}

/// The texts among `ys`, in order.
pub open spec fn texts_of(ys: Seq<Yaml>) -> Seq<String>
    decreases ys.len(),
{
    if ys.len() == 0 {
        seq![]
    } else {
        match ys.last() {
            Yaml::Str(s) => texts_of(ys.drop_last()).push(s),
            _ => texts_of(ys.drop_last()),
        }
    }
}

/// Names listed under `required`: the texts of that list, if it is one.
pub open spec fn required_names(y: Yaml) -> Seq<String> {
    match field(y, "required"@) {
        Some(Yaml::List(items)) => texts_of(items@),
        _ => seq![],
    }
}

/// `o` is the object that node `y` describes.
pub open spec fn inline_matches(y: Yaml, o: InlineObject) -> bool {
    &&& o.properties@ == property_names(y)
    &&& o.required@ == required_names(y)
    &&& o.description == text_field(y, "description"@)
    &&& o.title == text_field(y, "title"@)
}

/// `n` is the schema node that `y` describes.
pub open spec fn schema_matches(y: Yaml, n: SchemaNode) -> bool {
    match tag_of(y) {
        Some(k) => match n {
            SchemaNode::Tagged { kind, object } => kind == k && if k == SchemaKind::Object
                && has_properties(y) {
                object matches Some(o) && inline_matches(y, o)
            } else {
                object is None
            },
            _ => false,
        },
        None => {
            if has_properties(y) && field(y, "type"@) is None {
                n matches SchemaNode::InlineObject(o) && inline_matches(y, o)
            } else {
                match text_field(y, "$ref"@) {
                    Some(p) => n == SchemaNode::Reference { pointer: p },
                    None => n is Opaque,
                }
            }
        },
    }
}

fn kind_named_exec(s: &str) -> (r: Option<SchemaKind>)
    ensures
        r == kind_named(s@),
{
    if same_text(s, "null") {
        Some(SchemaKind::Null)
    } else if same_text(s, "boolean") {
        Some(SchemaKind::Boolean)
    } else if same_text(s, "object") {
        Some(SchemaKind::Object)
    } else if same_text(s, "array") {
        Some(SchemaKind::Array)
    } else if same_text(s, "number") {
        Some(SchemaKind::Number)
    } else if same_text(s, "string") {
        Some(SchemaKind::String)
    } else if same_text(s, "integer") {
        Some(SchemaKind::Integer)
    } else {
        None
    }
}

fn texts_in(ys: &Vec<Yaml>) -> (r: Vec<String>)
    ensures
        r@ == texts_of(ys@),
{
    let mut r: Vec<String> = Vec::new();
    let mut k: usize = 0;
    while k < ys.len()
        invariant
            k <= ys.len(),
            r@ == texts_of(ys@.take(k as int)),
        decreases ys.len() - k,
    {
        assert(ys@.take(k + 1).drop_last() =~= ys@.take(k as int));
        match &ys[k] {
            Yaml::Str(s) => {
                r.push(s.clone());
            },
            _ => {},
        }
        k = k + 1;
    }
    assert(ys@.take(ys.len() as int) =~= ys@);
    r
}

fn clone_texts(v: &Vec<String>) -> (r: Vec<String>)
    ensures
        r@ == v@,
{
    let mut r: Vec<String> = Vec::new();
    let mut k: usize = 0;
    while k < v.len()
        invariant
            k <= v.len(),
            r@ == v@.take(k as int),
        decreases v.len() - k,
    {
        r.push(v[k].clone());
        assert(r@ =~= v@.take(k + 1));
        k = k + 1;
    }
    assert(v@.take(v.len() as int) =~= v@);
    r
}

fn clone_text_option(o: Option<&String>) -> (r: Option<String>)
    ensures
        match o {
            Some(s) => r == Some(*s),
            None => r is None,
        },
{
    match o {
        Some(s) => Some(s.clone()),
        None => None,
    }
}

fn decode_inline_object(y: &Yaml) -> (r: InlineObject)
    ensures
        inline_matches(*y, r),
{
    let properties = match get_field(y, "properties") {
        Some(Yaml::Mapping(keys, _)) => clone_texts(keys),
        _ => Vec::new(),
    };
    let required = match get_field(y, "required") {
        Some(Yaml::List(items)) => texts_in(items),
        _ => Vec::new(),
    };
    InlineObject {
        properties,
        required,
        description: clone_text_option(get_text(y, "description")),
        title: clone_text_option(get_text(y, "title")),
    }
}

/// Decodes one schema node; every shape decodes, unknown ones as `Opaque`.
pub fn decode_schema(y: &Yaml) -> (r: SchemaNode)
    ensures
        schema_matches(*y, r),
{
    let tag = match get_text(y, "type") {
        Some(s) => kind_named_exec(s.as_str()),
        None => None,
    };
    match tag {
        Some(kind) => {
            let with_properties = match get_field(y, "properties") {
                Some(Yaml::Mapping(_, _)) => true,
                _ => false,
            };
            let object = if kind == SchemaKind::Object && with_properties {
                Some(decode_inline_object(y))
            } else {
                None
            };
            SchemaNode::Tagged { kind, object }
        },
        None => {
            let with_properties = match get_field(y, "properties") {
                Some(Yaml::Mapping(_, _)) => true,
                _ => false,
            };
            if with_properties && get_field(y, "type").is_none() {
                SchemaNode::InlineObject(decode_inline_object(y))
            } else {
                match get_text(y, "$ref") {
                    Some(p) => SchemaNode::Reference { pointer: p.clone() },
                    None => SchemaNode::Opaque,
                }
            }
        },
    }
}

/// The location that an `in` value names.
pub open spec fn location_named(s: Seq<char>) -> Option<ParameterLocation> {
    if s == "path"@ {
        Some(ParameterLocation::Path)
    } else if s == "query"@ {
        Some(ParameterLocation::Query)
    } else if s == "header"@ {
        Some(ParameterLocation::Header)
    } else if s == "cookie"@ {
        Some(ParameterLocation::Cookie)
    } else {
        None
    }
}

/// The location of a parameter node, when its `in` value names one.
pub open spec fn location_of(y: Yaml) -> Option<ParameterLocation> {
    match text_field(y, "in"@) {
        Some(s) => location_named(s@),
        None => None,
    }
}

/// The `required` flag of a parameter, which must be given.
pub open spec fn required_flag(y: Yaml) -> Option<bool> {
    match field(y, "required"@) {
        Some(Yaml::Bool(b)) => Some(b),
        _ => None,
    }
}

/// A parameter node has every field the grammar demands.
pub open spec fn parameter_valid(y: Yaml) -> bool {
    &&& text_field(y, "name"@) is Some
    &&& location_of(y) is Some
    &&& text_field(y, "description"@) is Some
    &&& required_flag(y) is Some
    &&& flag_field(y, "deprecated"@) is Some
    &&& field(y, "schema"@) is Some
}

/// `p` is the parameter that node `y` describes.
pub open spec fn parameter_matches(y: Yaml, p: Parameter) -> bool {
    &&& text_field(y, "name"@) == Some(p.name)
    &&& location_of(y) == Some(p.location)
    &&& text_field(y, "description"@) == Some(p.description)
    &&& required_flag(y) == Some(p.required)
    &&& flag_field(y, "deprecated"@) == Some(p.deprecated)
    &&& schema_matches(field(y, "schema"@)->Some_0, p.schema)
}

/// The parameter nodes of an operation: none when the field is absent.
pub open spec fn parameter_nodes(y: Yaml) -> Option<Seq<Yaml>> {
    match field(y, "parameters"@) {
        None => Some(seq![]),
        Some(Yaml::List(items)) => Some(items@),
        _ => None,
    }
}

/// The schema of the JSON body of an operation's `200` response.
pub open spec fn response_schema(y: Yaml) -> Option<Yaml> {
    let ok = field_of(field(y, "responses"@), "200"@);
    field_of(field_of(field_of(ok, "content"@), "application/json"@), "schema"@)
}

/// The group that an operation's metadata names.
pub open spec fn group_of(y: Yaml) -> Option<String> {
    match field(y, "x-oaiMeta"@) {
        Some(m) => text_field(m, "group"@),
        None => None,
    }
}

/// An operation node has every field the grammar demands.
pub open spec fn operation_valid(y: Yaml) -> bool {
    &&& text_field(y, "operationId"@) is Some
    &&& text_field(y, "summary"@) is Some
    &&& flag_field(y, "deprecated"@) is Some
    &&& parameter_nodes(y) is Some
    &&& forall|i: int|
        0 <= i < parameter_nodes(y)->Some_0.len() ==> parameter_valid(
            #[trigger] parameter_nodes(y)->Some_0[i],
        )
    &&& response_schema(y) is Some
    &&& group_of(y) is Some
}

/// `op` is the operation that node `y` describes.
pub open spec fn operation_matches(y: Yaml, op: Operation) -> bool {
    &&& text_field(y, "operationId"@) == Some(op.operation_id)
    &&& text_field(y, "summary"@) == Some(op.summary)
    &&& flag_field(y, "deprecated"@) == Some(op.deprecated)
    &&& op.parameters@.len() == parameter_nodes(y)->Some_0.len()
    &&& forall|i: int|
        0 <= i < op.parameters@.len() ==> parameter_matches(
            parameter_nodes(y)->Some_0[i],
            #[trigger] op.parameters@[i],
        )
    &&& schema_matches(response_schema(y)->Some_0, op.response)
    &&& group_of(y) == Some(op.group)
}

fn location_named_exec(s: &str) -> (r: Option<ParameterLocation>)
    ensures
        r == location_named(s@),
{
    if same_text(s, "path") {
        Some(ParameterLocation::Path)
    } else if same_text(s, "query") {
        Some(ParameterLocation::Query)
    } else if same_text(s, "header") {
        Some(ParameterLocation::Header)
    } else if same_text(s, "cookie") {
        Some(ParameterLocation::Cookie)
    } else {
        None
    }
}

/// Decodes one parameter node.
pub fn decode_parameter(y: &Yaml) -> (r: Result<Parameter, GenError>)
    ensures
        match r {
            Ok(p) => parameter_valid(*y) && parameter_matches(*y, p),
            Err(e) => !parameter_valid(*y) && e == GenError::DocumentMalformed,
        },
{
    let name = match get_text(y, "name") {
        Some(s) => s.clone(),
        None => {
            return Err(GenError::DocumentMalformed);
        },
    };
    let location = match get_text(y, "in") {
        Some(s) => match location_named_exec(s.as_str()) {
            Some(l) => l,
            None => {
                return Err(GenError::DocumentMalformed);
            },
        },
        None => {
            return Err(GenError::DocumentMalformed);
        },
    };
    let description = match get_text(y, "description") {
        Some(s) => s.clone(),
        None => {
            return Err(GenError::DocumentMalformed);
        },
    };
    let required = match get_field(y, "required") {
        Some(Yaml::Bool(b)) => *b,
        _ => {
            return Err(GenError::DocumentMalformed);
        },
    };
    let deprecated = match get_flag(y, "deprecated") {
        Some(b) => b,
        None => {
            return Err(GenError::DocumentMalformed);
        },
    };
    let schema = match get_field(y, "schema") {
        Some(s) => decode_schema(s),
        None => {
            return Err(GenError::DocumentMalformed);
        },
    };
    Ok(Parameter { name, location, description, required, deprecated, schema })
}

fn decode_parameters(ys: &Vec<Yaml>) -> (r: Result<Vec<Parameter>, GenError>)
    ensures
        match r {
            Ok(ps) => (forall|i: int| 0 <= i < ys@.len() ==> parameter_valid(#[trigger] ys@[i]))
                && ps@.len() == ys@.len() && forall|i: int|
                0 <= i < ps@.len() ==> parameter_matches(ys@[i], #[trigger] ps@[i]),
            Err(e) => !(forall|i: int| 0 <= i < ys@.len() ==> parameter_valid(#[trigger] ys@[i]))
                && e == GenError::DocumentMalformed,
        },
{
    let mut ps: Vec<Parameter> = Vec::new();
    let mut k: usize = 0;
    while k < ys.len()
        invariant
            k <= ys.len(),
            ps@.len() == k,
            forall|i: int| 0 <= i < k ==> parameter_valid(#[trigger] ys@[i]),
            forall|i: int| 0 <= i < k ==> parameter_matches(ys@[i], #[trigger] ps@[i]),
        decreases ys.len() - k,
    {
        match decode_parameter(&ys[k]) {
            Ok(p) => {
                ps.push(p);
            },
            Err(e) => {
                return Err(e);
            },
        }
        k = k + 1;
    }
    Ok(ps)
}

/// Decodes one operation node.
pub fn decode_operation(y: &Yaml) -> (r: Result<Operation, GenError>)
    ensures
        match r {
            Ok(op) => operation_valid(*y) && operation_matches(*y, op),
            Err(e) => !operation_valid(*y) && e == GenError::DocumentMalformed,
        },
{
    let operation_id = match get_text(y, "operationId") {
        Some(s) => s.clone(),
        None => {
            return Err(GenError::DocumentMalformed);
        },
    };
    let summary = match get_text(y, "summary") {
        Some(s) => s.clone(),
        None => {
            return Err(GenError::DocumentMalformed);
        },
    };
    let deprecated = match get_flag(y, "deprecated") {
        Some(b) => b,
        None => {
            return Err(GenError::DocumentMalformed);
        },
    };
    let parameters = match get_field(y, "parameters") {
        None => Vec::new(),
        Some(Yaml::List(items)) => match decode_parameters(items) {
            Ok(ps) => ps,
            Err(e) => {
                assert(parameter_nodes(*y) == Some(items@));
                let ghost i = choose|i: int| 0 <= i < items@.len() && !parameter_valid(items@[i]);
                assert(!parameter_valid(parameter_nodes(*y)->Some_0[i]));
                return Err(e);
            },
        },
        _ => {
            return Err(GenError::DocumentMalformed);
        },
    };
    let response = match get_field(y, "responses") {
        Some(r) => match get_field(r, "200") {
            Some(ok) => match get_field(ok, "content") {
                Some(c) => match get_field(c, "application/json") {
                    Some(j) => match get_field(j, "schema") {
                        Some(s) => decode_schema(s),
                        None => {
                            return Err(GenError::DocumentMalformed);
                        },
                    },
                    None => {
                        return Err(GenError::DocumentMalformed);
                    },
                },
                None => {
                    return Err(GenError::DocumentMalformed);
                },
            },
            None => {
                return Err(GenError::DocumentMalformed);
            },
        },
        None => {
            return Err(GenError::DocumentMalformed);
        },
    };
    let group = match get_field(y, "x-oaiMeta") {
        Some(m) => match get_text(m, "group") {
            Some(g) => g.clone(),
            None => {
                return Err(GenError::DocumentMalformed);
            },
        },
        None => {
            return Err(GenError::DocumentMalformed);
        },
    };
    Ok(Operation { operation_id, summary, deprecated, parameters, response, group })
}

/// A method of a path item holds an operation, or nothing (absent or null).
pub open spec fn slot_valid(y: Yaml, key: Seq<char>) -> bool {
    match field(y, key) {
        None => true,
        Some(Yaml::Null) => true,
        Some(o) => operation_valid(o),
    }
}

/// `r` is what method `key` of path item `y` holds.
pub open spec fn slot_matches(y: Yaml, key: Seq<char>, r: Option<Operation>) -> bool {
    match field(y, key) {
        None => r is None,
        Some(Yaml::Null) => r is None,
        Some(o) => r matches Some(op) && operation_matches(o, op),
    }
}

/// A path item node is a mapping whose methods are well formed.
pub open spec fn path_item_valid(y: Yaml) -> bool {
    &&& y is Mapping
    &&& slot_valid(y, "get"@)
    &&& slot_valid(y, "post"@)
    &&& slot_valid(y, "delete"@)
}

/// `p` is the path item that node `y` describes under path `path`.
pub open spec fn path_item_matches(path: String, y: Yaml, p: PathItem) -> bool {
    &&& p.path == path
    &&& slot_matches(y, "get"@, p.get)
    &&& slot_matches(y, "post"@, p.post)
    &&& slot_matches(y, "delete"@, p.delete)
}

/// The title of a group's warning; a warning that is given must have a title.
pub open spec fn warning_title_of(y: Yaml) -> Option<String> {
    match field(y, "warning"@) {
        Some(w) => text_field(w, "title"@),
        None => None,
    }
}

/// A group node has every field the grammar demands.
pub open spec fn group_valid(y: Yaml) -> bool {
    &&& text_field(y, "id"@) is Some
    &&& text_field(y, "description"@) is Some
    &&& (field(y, "warning"@) is None || warning_title_of(y) is Some)
}

/// `g` is the group that node `y` describes.
pub open spec fn group_matches(y: Yaml, g: Group) -> bool {
    &&& text_field(y, "id"@) == Some(g.id)
    &&& text_field(y, "description"@) == Some(g.description)
    &&& g.warning_title == warning_title_of(y)
}

/// The list of server nodes.
pub open spec fn server_nodes(y: Yaml) -> Option<Seq<Yaml>> {
    match field(y, "servers"@) {
        Some(Yaml::List(v)) => Some(v@),
        _ => None,
    }
}

/// The path table: paths and their path item nodes.
pub open spec fn path_nodes(y: Yaml) -> Option<(Seq<String>, Seq<Yaml>)> {
    match field(y, "paths"@) {
        Some(Yaml::Mapping(k, v)) => Some((k@, v@)),
        _ => None,
    }
}

/// The component table: names and their schema nodes.
pub open spec fn schema_nodes(y: Yaml) -> Option<(Seq<String>, Seq<Yaml>)> {
    match field_of(field(y, "components"@), "schemas"@) {
        Some(Yaml::Mapping(k, v)) => Some((k@, v@)),
        _ => None,
    }
}

/// The list of group nodes in the document's metadata.
pub open spec fn group_nodes(y: Yaml) -> Option<Seq<Yaml>> {
    match field_of(field(y, "x-oaiMeta"@), "groups"@) {
        Some(Yaml::List(v)) => Some(v@),
        _ => None,
    }
}

/// A document node follows the grammar.
pub open spec fn document_valid(y: Yaml) -> bool {
    &&& server_nodes(y) is Some
    &&& forall|i: int|
        0 <= i < server_nodes(y)->Some_0.len() ==> text_field(
            #[trigger] server_nodes(y)->Some_0[i],
            "url"@,
        ) is Some
    &&& path_nodes(y) is Some
    &&& path_nodes(y)->Some_0.0.len() == path_nodes(y)->Some_0.1.len()
    &&& forall|i: int|
        0 <= i < path_nodes(y)->Some_0.1.len() ==> path_item_valid(
            #[trigger] path_nodes(y)->Some_0.1[i],
        )
    &&& schema_nodes(y) is Some
    &&& schema_nodes(y)->Some_0.0.len() == schema_nodes(y)->Some_0.1.len()
    &&& group_nodes(y) is Some
    &&& forall|i: int|
        0 <= i < group_nodes(y)->Some_0.len() ==> group_valid(#[trigger] group_nodes(y)->Some_0[i])
}

/// `d` is the document that node `y` describes.
pub open spec fn document_matches(y: Yaml, d: Document) -> bool {
    &&& d.servers@.len() == server_nodes(y)->Some_0.len()
    &&& forall|i: int|
        0 <= i < d.servers@.len() ==> text_field(server_nodes(y)->Some_0[i], "url"@) == Some(
            #[trigger] d.servers@[i],
        )
    &&& d.paths@.len() == path_nodes(y)->Some_0.0.len()
    &&& forall|i: int|
        0 <= i < d.paths@.len() ==> path_item_matches(
            path_nodes(y)->Some_0.0[i],
            path_nodes(y)->Some_0.1[i],
            #[trigger] d.paths@[i],
        )
    &&& d.components@.len() == schema_nodes(y)->Some_0.0.len()
    &&& forall|i: int|
        0 <= i < d.components@.len() ==> (#[trigger] d.components@[i]).name
            == schema_nodes(y)->Some_0.0[i] && schema_matches(
            schema_nodes(y)->Some_0.1[i],
            d.components@[i].schema,
        )
    &&& d.groups@.len() == group_nodes(y)->Some_0.len()
    &&& forall|i: int|
        0 <= i < d.groups@.len() ==> group_matches(group_nodes(y)->Some_0[i], #[trigger] d.groups@[i])
}

fn decode_slot(y: &Yaml, key: &str) -> (r: Result<Option<Operation>, GenError>)
    ensures
        match r {
            Ok(o) => slot_valid(*y, key@) && slot_matches(*y, key@, o),
            Err(e) => !slot_valid(*y, key@) && e == GenError::DocumentMalformed,
        },
{
    match get_field(y, key) {
        None => Ok(None),
        Some(Yaml::Null) => Ok(None),
        Some(o) => match decode_operation(o) {
            Ok(op) => Ok(Some(op)),
            Err(e) => Err(e),
        },
    }
}

/// Decodes the path item node `y` found under `path`.
pub fn decode_path_item(path: &String, y: &Yaml) -> (r: Result<PathItem, GenError>)
    ensures
        match r {
            Ok(p) => path_item_valid(*y) && path_item_matches(*path, *y, p),
            Err(e) => !path_item_valid(*y) && e == GenError::DocumentMalformed,
        },
{
    match y {
        Yaml::Mapping(_, _) => {},
        _ => {
            return Err(GenError::DocumentMalformed);
        },
    }
    let get = match decode_slot(y, "get") {
        Ok(o) => o,
        Err(e) => {
            return Err(e);
        },
    };
    let post = match decode_slot(y, "post") {
        Ok(o) => o,
        Err(e) => {
            return Err(e);
        },
    };
    let delete = match decode_slot(y, "delete") {
        Ok(o) => o,
        Err(e) => {
            return Err(e);
        },
    };
    Ok(PathItem { path: path.clone(), get, post, delete })
}

/// Decodes one group node.
pub fn decode_group(y: &Yaml) -> (r: Result<Group, GenError>)
    ensures
        match r {
            Ok(g) => group_valid(*y) && group_matches(*y, g),
            Err(e) => !group_valid(*y) && e == GenError::DocumentMalformed,
        },
{
    let id = match get_text(y, "id") {
        Some(s) => s.clone(),
        None => {
            return Err(GenError::DocumentMalformed);
        },
    };
    let description = match get_text(y, "description") {
        Some(s) => s.clone(),
        None => {
            return Err(GenError::DocumentMalformed);
        },
    };
    let warning_title = match get_field(y, "warning") {
        None => None,
        Some(w) => match get_text(w, "title") {
            Some(t) => Some(t.clone()),
            None => {
                return Err(GenError::DocumentMalformed);
            },
        },
    };
    Ok(Group { id, description, warning_title })
}

fn decode_servers(list: &Vec<Yaml>) -> (r: Result<Vec<String>, GenError>)
    ensures
        match r {
            Ok(v) => (forall|i: int|
                0 <= i < list@.len() ==> text_field(#[trigger] list@[i], "url"@) is Some)
                && v@.len() == list@.len() && forall|i: int|
                0 <= i < v@.len() ==> text_field(list@[i], "url"@) == Some(#[trigger] v@[i]),
            Err(e) => !(forall|i: int|
                0 <= i < list@.len() ==> text_field(#[trigger] list@[i], "url"@) is Some) && e
                == GenError::DocumentMalformed,
        },
{
    let mut servers: Vec<String> = Vec::new();
    let mut k: usize = 0;
    while k < list.len()
        invariant
            k <= list.len(),
            servers@.len() == k,
            forall|i: int| 0 <= i < k ==> text_field(#[trigger] list@[i], "url"@) is Some,
            forall|i: int|
                0 <= i < k ==> text_field(list@[i], "url"@) == Some(#[trigger] servers@[i]),
        decreases list.len() - k,
    {
        match get_text(&list[k], "url") {
            Some(u) => {
                servers.push(u.clone());
            },
            None => {
                return Err(GenError::DocumentMalformed);
            },
        }
        k = k + 1;
    }
    Ok(servers)
}

fn decode_paths(keys: &Vec<String>, values: &Vec<Yaml>) -> (r: Result<Vec<PathItem>, GenError>)
    requires
        keys.len() == values.len(),
    ensures
        match r {
            Ok(v) => (forall|i: int| 0 <= i < values@.len() ==> path_item_valid(#[trigger] values@[i]))
                && v@.len() == keys@.len() && forall|i: int|
                0 <= i < v@.len() ==> path_item_matches(keys@[i], values@[i], #[trigger] v@[i]),
            Err(e) => !(forall|i: int|
                0 <= i < values@.len() ==> path_item_valid(#[trigger] values@[i])) && e
                == GenError::DocumentMalformed,
        },
{
    let mut paths: Vec<PathItem> = Vec::new();
    let mut k: usize = 0;
    while k < keys.len()
        invariant
            keys.len() == values.len(),
            k <= keys.len(),
            paths@.len() == k,
            forall|i: int| 0 <= i < k ==> path_item_valid(#[trigger] values@[i]),
            forall|i: int|
                0 <= i < k ==> path_item_matches(keys@[i], values@[i], #[trigger] paths@[i]),
        decreases keys.len() - k,
    {
        match decode_path_item(&keys[k], &values[k]) {
            Ok(p) => {
                paths.push(p);
            },
            Err(e) => {
                return Err(e);
            },
        }
        k = k + 1;
    }
    Ok(paths)
}

fn decode_components(keys: &Vec<String>, values: &Vec<Yaml>) -> (r: Vec<Component>)
    requires
        keys.len() == values.len(),
    ensures
        r@.len() == keys@.len(),
        forall|i: int|
            0 <= i < r@.len() ==> (#[trigger] r@[i]).name == keys@[i] && schema_matches(
                values@[i],
                r@[i].schema,
            ),
{
    let mut components: Vec<Component> = Vec::new();
    let mut k: usize = 0;
    while k < keys.len()
        invariant
            keys.len() == values.len(),
            k <= keys.len(),
            components@.len() == k,
            forall|i: int|
                0 <= i < k ==> (#[trigger] components@[i]).name == keys@[i] && schema_matches(
                    values@[i],
                    components@[i].schema,
                ),
        decreases keys.len() - k,
    {
        let schema = decode_schema(&values[k]);
        components.push(Component { name: keys[k].clone(), schema });
        k = k + 1;
    }
    components
}

fn decode_groups(list: &Vec<Yaml>) -> (r: Result<Vec<Group>, GenError>)
    ensures
        match r {
            Ok(v) => (forall|i: int| 0 <= i < list@.len() ==> group_valid(#[trigger] list@[i]))
                && v@.len() == list@.len() && forall|i: int|
                0 <= i < v@.len() ==> group_matches(list@[i], #[trigger] v@[i]),
            Err(e) => !(forall|i: int| 0 <= i < list@.len() ==> group_valid(#[trigger] list@[i]))
                && e == GenError::DocumentMalformed,
        },
{
    let mut groups: Vec<Group> = Vec::new();
    let mut k: usize = 0;
    while k < list.len()
        invariant
            k <= list.len(),
            groups@.len() == k,
            forall|i: int| 0 <= i < k ==> group_valid(#[trigger] list@[i]),
            forall|i: int| 0 <= i < k ==> group_matches(list@[i], #[trigger] groups@[i]),
        decreases list.len() - k,
    {
        match decode_group(&list[k]) {
            Ok(g) => {
                groups.push(g);
            },
            Err(e) => {
                return Err(e);
            },
        }
        k = k + 1;
    }
    Ok(groups)
}

/// Decodes a whole document; `DocumentMalformed` exactly when it breaks the grammar.
pub fn decode_document(y: &Yaml) -> (r: Result<Document, GenError>)
    ensures
        match r {
            Ok(d) => document_valid(*y) && document_matches(*y, d),
            Err(e) => !document_valid(*y) && e == GenError::DocumentMalformed,
        },
{
    let servers = match get_field(y, "servers") {
        Some(Yaml::List(v)) => match decode_servers(v) {
            Ok(s) => s,
            Err(e) => {
                assert(server_nodes(*y) == Some(v@));
                return Err(e);
            },
        },
        _ => {
            return Err(GenError::DocumentMalformed);
        },
    };
    let paths = match get_field(y, "paths") {
        Some(Yaml::Mapping(keys, values)) => {
            if keys.len() != values.len() {
                return Err(GenError::DocumentMalformed);
            }
            match decode_paths(keys, values) {
                Ok(p) => p,
                Err(e) => {
                    assert(path_nodes(*y) == Some((keys@, values@)));
                    return Err(e);
                },
            }
        },
        _ => {
            return Err(GenError::DocumentMalformed);
        },
    };
    let components = match get_field(y, "components") {
        Some(c) => match get_field(c, "schemas") {
            Some(Yaml::Mapping(keys, values)) => {
                if keys.len() != values.len() {
                    return Err(GenError::DocumentMalformed);
                }
                decode_components(keys, values)
            },
            _ => {
                return Err(GenError::DocumentMalformed);
            },
        },
        None => {
            return Err(GenError::DocumentMalformed);
        },
    };
    let groups = match get_field(y, "x-oaiMeta") {
        Some(m) => match get_field(m, "groups") {
            Some(Yaml::List(v)) => match decode_groups(v) {
                Ok(g) => g,
                Err(e) => {
                    assert(group_nodes(*y) == Some(v@));
                    return Err(e);
                },
            },
            _ => {
                return Err(GenError::DocumentMalformed);
            },
        },
        None => {
            return Err(GenError::DocumentMalformed);
        },
    };
    Ok(Document { servers, paths, components, groups })
}

/// A document in which some operation has no `200` response is malformed.
pub proof fn law_missing_success_response_is_malformed(y: Yaml, i: int, method: Seq<char>)
    requires
        path_nodes(y) matches Some(t) && 0 <= i < t.1.len() && t.0.len() == t.1.len(),
        method == "get"@ || method == "post"@ || method == "delete"@,
        field(path_nodes(y)->Some_0.1[i], method) matches Some(o) && !(o is Null) && field_of(
            field(o, "responses"@),
            "200"@,
        ) is None,
    ensures
        !document_valid(y),
{
    let item = path_nodes(y)->Some_0.1[i];
    assert(!slot_valid(item, method));
    assert(!path_item_valid(item));
}

} // verus!
