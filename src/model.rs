//! The in-memory model of an API description document.

use vstd::prelude::*;

verus! {

/// The primitive tag of a schema node.
#[derive(Clone, Copy, Debug, PartialEq, Eq, Structural)]
pub enum SchemaKind {
    Null,
    Boolean,
    Object,
    Array,
    Number,
    String,
    Integer,
}

/// An object schema given by its properties.
#[derive(Clone, Debug)]
pub struct InlineObject {
    /// Property names, in document order.
    pub properties: Vec<String>,
    /// Names of the properties that must be present.
    pub required: Vec<String>,
    pub description: Option<String>,
    pub title: Option<String>,
}

/// One schema node of the document.
#[derive(Clone, Debug)]
pub enum SchemaNode {
    /// A node with a primitive `type` tag; an `object` tag may carry its properties.
    Tagged { kind: SchemaKind, object: Option<InlineObject> },
    /// An object given by `properties` alone, without a `type` tag.
    InlineObject(InlineObject),
    /// A pointer into the component table, such as `#/components/schemas/Foo`.
    Reference { pointer: String },
    /// A shape that generation does not interpret.
    Opaque,
}

/// Where a parameter travels in a request.
#[derive(Clone, Copy, Debug, PartialEq, Eq, Structural)]
pub enum ParameterLocation {
    Path,
    Query,
    Header,
    Cookie,
}

#[derive(Clone, Debug)]
pub struct Parameter {
    pub name: String,
    pub location: ParameterLocation,
    pub description: String,
    pub required: bool,
    pub deprecated: bool,
    pub schema: SchemaNode,
}

/// One callable capability of the API.
#[derive(Clone, Debug)]
pub struct Operation {
    pub operation_id: String,
    pub summary: String,
    pub deprecated: bool,
    /// Parameters in declared order.
    pub parameters: Vec<Parameter>,
    /// Schema of the JSON body of the success (`200`) response.
    pub response: SchemaNode,
    /// Identifier of the group the operation belongs to.
    pub group: String,
}

/// The HTTP methods that a path item may define.
#[derive(Clone, Copy, Debug, PartialEq, Eq, Structural)]
pub enum HttpMethod {
    Get,
    Post,
    Delete,
}

/// The operations defined under one path template.
#[derive(Clone, Debug)]
pub struct PathItem {
    pub path: String,
    pub get: Option<Operation>,
    pub post: Option<Operation>,
    pub delete: Option<Operation>,
}

/// A category of operations; each becomes one generated module.
#[derive(Clone, Debug)]
pub struct Group {
    pub id: String,
    pub description: String,
    /// Title of the group's warning, if it has one.
    pub warning_title: Option<String>,
}

/// A named, reusable schema.
#[derive(Clone, Debug)]
pub struct Component {
    pub name: String,
    pub schema: SchemaNode,
}

/// A whole API description document.
#[derive(Clone, Debug)]
pub struct Document {
    /// Server URLs; the first is the base of every request target.
    pub servers: Vec<String>,
    /// Path items, in document order.
    pub paths: Vec<PathItem>,
    /// The component table, in document order.
    pub components: Vec<Component>,
    /// Groups, in the order the document lists them.
    pub groups: Vec<Group>,
}

/// Why generation failed. Each failure is fatal: nothing is emitted.
#[derive(Clone, Copy, Debug, PartialEq, Eq, Structural)]
pub enum GenError {
    /// The document could not be read.
    DocumentUnreadable,
    /// The document does not follow the expected grammar.
    DocumentMalformed,
    /// A reference names a component that the table does not hold.
    UnresolvableReference,
    /// A schema node that no target type represents.
    UnsupportedSchemaShape,
}

impl HttpMethod {
    /// Position of the method among those of a path item.
    pub open spec fn index(self) -> int {
        match self {
            HttpMethod::Get => 0,
            HttpMethod::Post => 1,
            HttpMethod::Delete => 2,
        }
    }
}

impl PathItem {
    pub open spec fn spec_operation(self, m: HttpMethod) -> Option<Operation> {
        match m {
            HttpMethod::Get => self.get,
            HttpMethod::Post => self.post,
            HttpMethod::Delete => self.delete,
        }
    }

    /// The operation defined for method `m`, if any.
    pub fn operation(&self, m: HttpMethod) -> (r: &Option<Operation>)
        ensures
            *r == self.spec_operation(m),
    {
        match m {
            HttpMethod::Get => &self.get,
            HttpMethod::Post => &self.post,
            HttpMethod::Delete => &self.delete,
        }
    }
}

} // verus!

verus! {

/// The view of a text result: the characters of the text, or the same error.
pub open spec fn text_result(r: Result<String, GenError>) -> Result<Seq<char>, GenError> {
    match r {
        Ok(t) => Ok(t@),
        Err(e) => Err(e),
    }
}

} // verus!
