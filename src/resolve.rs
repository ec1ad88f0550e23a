//! Mapping of schema nodes to the names of target types.

use vstd::prelude::*;
use crate::model::{Component, GenError, SchemaKind, SchemaNode};
use crate::text::{last_path_segment, last_segment, lemma_last_segment};

verus! {

/// Target type of a node tagged `object`, or given by its properties alone.
pub open spec fn object_type() -> Seq<char> {
    "std::collections::HashMap<String, serde_json::Value>"@
}

/// Target type of a node tagged `array`.
pub open spec fn array_type() -> Seq<char> {
    "Vec<serde_json::Value>"@
}

/// Target type of a primitive tag; `null` has none.
pub open spec fn kind_type(k: SchemaKind) -> Result<Seq<char>, GenError> {
    match k {
        SchemaKind::Null => Err(GenError::UnsupportedSchemaShape),
        SchemaKind::Boolean => Ok("bool"@),
        SchemaKind::Object => Ok(object_type()),
        SchemaKind::Array => Ok(array_type()),
        SchemaKind::Number => Ok("f64"@),
        SchemaKind::String => Ok("String"@),
        SchemaKind::Integer => Ok("i64"@),
    }
}

/// The component table holds a component named `name`.
pub open spec fn has_component(comps: Seq<Component>, name: Seq<char>) -> bool {
    exists|k: int| 0 <= k < comps.len() && #[trigger] comps[k].name@ == name
}

/// Target type of a schema node, given the component table.
pub open spec fn type_of(n: SchemaNode, comps: Seq<Component>) -> Result<Seq<char>, GenError> {
    match n {
        SchemaNode::Reference { pointer } => {
            if has_component(comps, last_segment(pointer@)) {
                Ok(last_segment(pointer@))
            } else {
                Err(GenError::UnresolvableReference)
            }
        },
        SchemaNode::Tagged { kind, .. } => kind_type(kind),
        SchemaNode::InlineObject(_) => Ok(object_type()),
        SchemaNode::Opaque => Err(GenError::UnsupportedSchemaShape),
    }
}

/// Whether the component table holds a component named `name`.
pub fn component_exists(comps: &Vec<Component>, name: &String) -> (r: bool)
    ensures
        r == has_component(comps@, name@),
{
    let mut k: usize = 0;
    while k < comps.len()
        invariant
            k <= comps.len(),
            forall|j: int| 0 <= j < k ==> comps@[j].name@ != name@,
        decreases comps.len() - k,
    {
        if comps[k].name.eq(name) {
            return true;
        }
        k = k + 1;
    }
    false
}

fn kind_type_exec(k: SchemaKind) -> (r: Result<String, GenError>)
    ensures
        crate::model::text_result(r) == kind_type(k),
{
    match k {
        SchemaKind::Null => Err(GenError::UnsupportedSchemaShape),
        SchemaKind::Boolean => Ok(String::from_str("bool")),
        SchemaKind::Object => Ok(String::from_str(
            "std::collections::HashMap<String, serde_json::Value>",
        )),
        SchemaKind::Array => Ok(String::from_str("Vec<serde_json::Value>")),
        SchemaKind::Number => Ok(String::from_str("f64")),
        SchemaKind::String => Ok(String::from_str("String")),
        SchemaKind::Integer => Ok(String::from_str("i64")),
    }
}

/// Resolves a schema node to the name of its target type.
pub fn resolve_type(n: &SchemaNode, comps: &Vec<Component>) -> (r: Result<String, GenError>)
    ensures
        crate::model::text_result(r) == type_of(*n, comps@),
{
    match n {
        SchemaNode::Reference { pointer } => {
            let name = last_path_segment(pointer.as_str());
            if component_exists(comps, &name) {
                Ok(name)
            } else {
                Err(GenError::UnresolvableReference)
            }
        },
        SchemaNode::Tagged { kind, .. } => kind_type_exec(*kind),
        SchemaNode::InlineObject(_) => Ok(String::from_str(
            "std::collections::HashMap<String, serde_json::Value>",
        )),
        SchemaNode::Opaque => Err(GenError::UnsupportedSchemaShape),
    }
}

/// A reference to a component through its schema pointer resolves to the
/// component's own name.
pub proof fn law_reference_round_trip(n: SchemaNode, comps: Seq<Component>, name: Seq<char>)
    requires
        n matches SchemaNode::Reference { pointer } && pointer@ == "#/components/schemas/"@ + name,
        forall|i: int| 0 <= i < name.len() ==> name[i] != '/',
        has_component(comps, name),
    ensures
        type_of(n, comps) == Ok::<Seq<char>, GenError>(name),
{
    reveal_strlit("#/components/schemas/");
    let prefix = "#/components/schemas/"@;
    let p = prefix + name;
    assert(p[prefix.len() - 1] == '/');
    assert forall|j: int| prefix.len() <= j < p.len() implies p[j] != '/' by {
        assert(p[j] == name[j - prefix.len()]);
    }
    lemma_last_segment(p, prefix.len() as int);
    assert(p.subrange(prefix.len() as int, p.len() as int) =~= name);
}

} // verus!
