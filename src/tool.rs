//! Tool definitions, call results, content blocks and their JSON forms.
use vstd::prelude::*;

use crate::json::{lemma_lookup_at, lookup, member, push_member, JsonValue};

verus! {

/// A party's name and version (the server's, or the client's).
#[derive(Debug, Clone)]
pub struct Implementation {
    pub name: String,
    pub version: String,
    pub title: Option<String>,
    pub description: Option<String>,
}

/// The server's tool capability.
#[derive(Debug, Clone, Copy, PartialEq, Eq)]
pub struct ToolsCapability {
    pub list_changed: Option<bool>,
}

/// The client's roots capability.
#[derive(Debug, Clone, Copy, PartialEq, Eq)]
pub struct RootsCapability {
    pub list_changed: Option<bool>,
}

/// Hints describing a tool's behaviour.
#[derive(Debug, Clone)]
pub struct ToolAnnotations {
    pub title: Option<String>,
    pub read_only_hint: Option<bool>,
    pub destructive_hint: Option<bool>,
    pub idempotent_hint: Option<bool>,
    pub open_world_hint: Option<bool>,
}

/// The JSON schema of a tool's arguments.
#[derive(Debug)]
pub struct ToolInputSchema {
    pub schema_type: String,
    pub properties: Option<Vec<(String, JsonValue)>>,
    pub required: Option<Vec<String>>,
}

/// A tool's definition: its unique name, description, argument schema and hints.
#[derive(Debug)]
pub struct ToolDefinition {
    pub name: String,
    pub description: Option<String>,
    pub input_schema: ToolInputSchema,
    pub annotations: Option<ToolAnnotations>,
}

/// Text content.
#[derive(Debug, Clone)]
pub struct TextContent {
    pub text: String,
}

/// Base64-encoded image content.
#[derive(Debug, Clone)]
pub struct ImageContent {
    pub data: String,
    pub mime_type: String,
}

/// A link to a resource.
#[derive(Debug, Clone)]
pub struct ResourceLink {
    pub uri: String,
    pub name: String,
    pub description: Option<String>,
    pub mime_type: Option<String>,
}

/// Text contents of a resource.
#[derive(Debug, Clone)]
pub struct TextResourceContents {
    pub uri: String,
    pub text: String,
    pub mime_type: Option<String>,
}

/// Binary contents of a resource, base64-encoded.
#[derive(Debug, Clone)]
pub struct BlobResourceContents {
    pub uri: String,
    pub blob: String,
    pub mime_type: Option<String>,
}

/// The contents of an embedded resource.
#[derive(Debug, Clone)]
pub enum ResourceContents {
    Text(TextResourceContents),
    Blob(BlobResourceContents),
}

/// A resource embedded in a result.
#[derive(Debug, Clone)]
pub struct EmbeddedResource {
    pub resource: ResourceContents,
}

/// One block of a tool's result.
#[derive(Debug, Clone)]
pub enum ContentBlock {
    Text(TextContent),
    Image(ImageContent),
    Resource(EmbeddedResource),
    ResourceLink(ResourceLink),
}

/// What a tool call produced; `is_error` marks a failure of the tool itself.
#[derive(Debug)]
pub struct CallToolResult {
    pub content: Vec<ContentBlock>,
    pub structured_content: Option<JsonValue>,
    pub is_error: Option<bool>,
}

/// Whether `blocks` is the single text block `text`.
pub open spec fn single_text(blocks: Seq<ContentBlock>, text: Seq<char>) -> bool {
    blocks.len() == 1 && (blocks[0] matches ContentBlock::Text(t) && t.text@ == text)
}

fn entry(key: &str, v: JsonValue) -> (r: (String, JsonValue))
    ensures
        r.0@ == key@,
        r.1 == v,
{
    (key.to_owned(), v)
}

/// An optional string as an optional JSON member.
pub open spec fn opt_text(v: Option<String>) -> Option<JsonValue> {
    match v {
        Some(s) => Some(JsonValue::Str(s)),
        None => None,
    }
}

/// An optional flag as an optional JSON member.
pub open spec fn opt_bool(v: Option<bool>) -> Option<JsonValue> {
    match v {
        Some(b) => Some(JsonValue::Bool(b)),
        None => None,
    }
}

/// Whether `j` is an object whose members are named as `fields`, in order.
pub open spec fn same_names(j: JsonValue, fields: Seq<(String, JsonValue)>) -> bool {
    j matches JsonValue::Object(m) && m@.len() == fields.len()
        && forall|k: int| 0 <= k < m@.len() ==> (#[trigger] m@[k]).0@ == fields[k].0@
}

/// The JSON form of an argument schema: its `type`, its `properties` (each
/// property, in order) where set, and its `required` names where set.
pub open spec fn describes_schema(j: JsonValue, s: ToolInputSchema) -> bool {
    &&& member(j, "type"@) matches Some(JsonValue::Str(t)) && t@ == s.schema_type@
    &&& match s.properties {
        Some(p) => member(j, "properties"@) matches Some(m) && same_names(m, p@),
        None => member(j, "properties"@) is None,
    }
    &&& match s.required {
        Some(names) => member(j, "required"@) matches Some(JsonValue::Array(v)) && v@.len() == names@.len()
            && forall|k: int| 0 <= k < v@.len() ==> #[trigger] v@[k] == JsonValue::Str(names@[k]),
        None => member(j, "required"@) is None,
    }
}

/// The JSON form of a tool definition: its name, its description where set,
/// its argument schema, and its annotations where set.
pub open spec fn describes_tool(j: JsonValue, d: ToolDefinition) -> bool {
    &&& j is Object
    &&& member(j, "name"@) matches Some(JsonValue::Str(n)) && n@ == d.name@
    &&& member(j, "description"@) == opt_text(d.description)
    &&& member(j, "inputSchema"@) matches Some(s) && describes_schema(s, d.input_schema)
    &&& (member(j, "annotations"@) matches Some(JsonValue::Object(_))) == (d.annotations is Some)
}

/// The JSON form of a content block: `type` naming its kind, then the
/// kind's own members.
pub open spec fn renders_block(j: JsonValue, b: ContentBlock) -> bool {
    &&& member(j, "type"@) matches Some(JsonValue::Str(t)) && t@ == block_kind(b)
    &&& match b {
        ContentBlock::Text(c) => member(j, "text"@) == Some(JsonValue::Str(c.text)),
        ContentBlock::Image(c) => member(j, "data"@) == Some(JsonValue::Str(c.data))
            && member(j, "mimeType"@) == Some(JsonValue::Str(c.mime_type)),
        ContentBlock::Resource(c) => member(j, "resource"@) matches Some(res) && (member(res, "uri"@)
            matches Some(JsonValue::Str(u)) && u@ == match c.resource {
                ResourceContents::Text(t) => t.uri@,
                ResourceContents::Blob(b) => b.uri@,
            }),
        ContentBlock::ResourceLink(c) => member(j, "uri"@) == Some(JsonValue::Str(c.uri))
            && member(j, "name"@) == Some(JsonValue::Str(c.name))
            && member(j, "description"@) == opt_text(c.description)
            && member(j, "mimeType"@) == opt_text(c.mime_type),
    }
}

fn text_value(s: &String) -> (r: JsonValue)
    ensures
        r == JsonValue::Str(*s),
{
    JsonValue::Str(s.clone())
}

fn push_opt_text(fields: &mut Vec<(String, JsonValue)>, key: &str, v: &Option<String>)
    ensures
        v is None ==> final(fields)@ == old(fields)@,
        v matches Some(s) ==> final(fields)@.len() == old(fields)@.len() + 1
            && final(fields)@.last().0@ == key@
            && (final(fields)@.last().1 matches JsonValue::Str(t) && t@ == s@),
        final(fields)@.len() >= old(fields)@.len(),
        final(fields)@.subrange(0, old(fields)@.len() as int) == old(fields)@,
        forall|i: int| 0 <= i < old(fields)@.len() ==> final(fields)@[i] == old(fields)@[i],
        forall|k: Seq<char>| #[trigger] lookup(final(fields)@, k) == match lookup(old(fields)@, k) {
            Some(w) => Some(w),
            None => if k == key@ { opt_text(*v) } else { None },
        },
{
    if let Some(s) = v {
        push_member(fields, key, text_value(s));
        assert(final(fields)@.subrange(0, old(fields)@.len() as int) =~= old(fields)@);
    }
}

fn push_opt_bool(fields: &mut Vec<(String, JsonValue)>, key: &str, v: Option<bool>)
    ensures
        final(fields)@.len() >= old(fields)@.len(),
        final(fields)@.subrange(0, old(fields)@.len() as int) == old(fields)@,
        forall|i: int| 0 <= i < old(fields)@.len() ==> final(fields)@[i] == old(fields)@[i],
        forall|k: Seq<char>| #[trigger] lookup(final(fields)@, k) == match lookup(old(fields)@, k) {
            Some(w) => Some(w),
            None => if k == key@ { opt_bool(v) } else { None },
        },
{
    if let Some(b) = v {
        push_member(fields, key, JsonValue::Bool(b));
        assert(final(fields)@.subrange(0, old(fields)@.len() as int) =~= old(fields)@);
    }
}

fn text_list(items: &Vec<String>) -> (r: JsonValue)
    ensures
        r matches JsonValue::Array(v) && v@.len() == items@.len()
            && forall|k: int| 0 <= k < v@.len() ==> #[trigger] v@[k] == JsonValue::Str(items@[k]),
{
    let mut out: Vec<JsonValue> = Vec::new();
    let mut i: usize = 0;
    while i < items.len()
        invariant
            i <= items@.len(),
            out@.len() == i,
            forall|k: int| 0 <= k < i ==> #[trigger] out@[k] == JsonValue::Str(items@[k]),
        decreases items@.len() - i,
    {
        out.push(text_value(&items[i]));
        i = i + 1;
    }
    JsonValue::Array(out)
}

impl Implementation {
    /// A name and version, with no title or description.
    pub fn new(name: &str, version: &str) -> (r: Self)
        ensures
            r.name@ == name@,
            r.version@ == version@,
            r.title is None,
            r.description is None,
    {
        Implementation { name: name.to_owned(), version: version.to_owned(), title: None, description: None }
    }

    /// Sets the description.
    pub fn with_description(self, description: &str) -> (r: Self)
        ensures
            r.name == self.name,
            r.version == self.version,
            r.title == self.title,
            r.description matches Some(d) && d@ == description@,
    {
        Implementation { description: Some(description.to_owned()), ..self }
    }

    /// The JSON form: `name`, `version`, then `title` and `description` where set.
    pub fn to_json(&self) -> (r: JsonValue)
        ensures
            member(r, "name"@) matches Some(JsonValue::Str(n)) && n@ == self.name@,
            member(r, "version"@) matches Some(JsonValue::Str(v)) && v@ == self.version@,
            member(r, "title"@) == opt_text(self.title),
            member(r, "description"@) == opt_text(self.description),
    {
        let mut fields: Vec<(String, JsonValue)> = Vec::new();
        push_member(&mut fields, "name", text_value(&self.name));
        push_member(&mut fields, "version", text_value(&self.version));
        push_opt_text(&mut fields, "title", &self.title);
        push_opt_text(&mut fields, "description", &self.description);
        proof {
            reveal_strlit("name");
            reveal_strlit("version");
            reveal_strlit("title");
            reveal_strlit("description");
            assert("name"@.len() != "version"@.len() && "name"@.len() != "title"@.len());
            assert("name"@.len() != "description"@.len() && "version"@.len() != "title"@.len());
            assert("version"@.len() != "description"@.len() && "title"@.len() != "description"@.len());
            assert(lookup(Seq::<(String, JsonValue)>::empty(), "name"@) is None);
            assert(lookup(Seq::<(String, JsonValue)>::empty(), "version"@) is None);
            assert(lookup(Seq::<(String, JsonValue)>::empty(), "title"@) is None);
            assert(lookup(Seq::<(String, JsonValue)>::empty(), "description"@) is None);
        }
        JsonValue::Object(fields)
    }
}

impl ToolAnnotations {
    /// The JSON form: each hint that is set, under its protocol name.
    pub fn to_json(&self) -> (r: JsonValue)
        ensures
            r is Object,
            self.title matches Some(t) ==> (member(r, "title"@) matches Some(JsonValue::Str(s)) && s@ == t@),
    {
        let mut fields: Vec<(String, JsonValue)> = Vec::new();
        push_opt_text(&mut fields, "title", &self.title);
        let ghost head = fields@;
        push_opt_bool(&mut fields, "readOnlyHint", self.read_only_hint);
        push_opt_bool(&mut fields, "destructiveHint", self.destructive_hint);
        push_opt_bool(&mut fields, "idempotentHint", self.idempotent_hint);
        push_opt_bool(&mut fields, "openWorldHint", self.open_world_hint);
        proof {
            if self.title is Some {
                assert(fields@[0] == head[0]);
                lemma_lookup_at(fields@, "title"@, 0);
            }
        }
        JsonValue::Object(fields)
    }
}

impl Default for ToolInputSchema {
    /// An object schema with no properties.
    fn default() -> (r: Self)
        ensures
            r.schema_type@ == "object"@,
            r.properties is None,
            r.required is None,
    {
        ToolInputSchema { schema_type: "object".to_owned(), properties: None, required: None }
    }
}

impl ToolInputSchema {
    /// The JSON form: `type`, then `properties` and `required` where set.
    pub fn to_json(&self) -> (r: JsonValue)
        ensures
            describes_schema(r, *self),
    {
        let mut fields: Vec<(String, JsonValue)> = Vec::new();
        push_member(&mut fields, "type", text_value(&self.schema_type));
        if let Some(props) = &self.properties {
            push_member(&mut fields, "properties", copy_members(props));
        }
        if let Some(req) = &self.required {
            push_member(&mut fields, "required", text_list(req));
        }
        proof {
            reveal_strlit("type");
            reveal_strlit("properties");
            reveal_strlit("required");
            assert("type"@.len() != "properties"@.len() && "type"@.len() != "required"@.len());
            assert("properties"@.len() != "required"@.len());
            assert(lookup(Seq::<(String, JsonValue)>::empty(), "properties"@) is None);
            assert(lookup(Seq::<(String, JsonValue)>::empty(), "required"@) is None);
        }
        JsonValue::Object(fields)
    }
}

impl ToolDefinition {
    /// A tool named `name`, with an empty object schema.
    pub fn new(name: &str) -> (r: Self)
        ensures
            r.name@ == name@,
            r.description is None,
            r.input_schema.schema_type@ == "object"@,
            r.input_schema.properties is None,
            r.input_schema.required is None,
            r.annotations is None,
    {
        ToolDefinition { name: name.to_owned(), description: None, input_schema: ToolInputSchema::default(), annotations: None }
    }

    /// Sets the description.
    pub fn with_description(self, description: &str) -> (r: Self)
        ensures
            r.name == self.name,
            r.description matches Some(d) && d@ == description@,
            r.input_schema == self.input_schema,
            r.annotations == self.annotations,
    {
        ToolDefinition { description: Some(description.to_owned()), ..self }
    }

    /// Sets the argument schema.
    pub fn with_schema(self, schema: ToolInputSchema) -> (r: Self)
        ensures
            r.name == self.name,
            r.description == self.description,
            r.input_schema == schema,
            r.annotations == self.annotations,
    {
        ToolDefinition { input_schema: schema, ..self }
    }

    /// Sets the behaviour hints.
    pub fn with_annotations(self, annotations: ToolAnnotations) -> (r: Self)
        ensures
            r.name == self.name,
            r.description == self.description,
            r.input_schema == self.input_schema,
            r.annotations == Some(annotations),
    {
        ToolDefinition { annotations: Some(annotations), ..self }
    }

    /// The JSON form: `name`, `description` where set, `inputSchema`, and
    /// `annotations` where set.
    pub fn to_json(&self) -> (r: JsonValue)
        ensures
            describes_tool(r, *self),
    {
        let mut fields: Vec<(String, JsonValue)> = Vec::new();
        push_member(&mut fields, "name", text_value(&self.name));
        push_opt_text(&mut fields, "description", &self.description);
        push_member(&mut fields, "inputSchema", self.input_schema.to_json());
        if let Some(a) = &self.annotations {
            push_member(&mut fields, "annotations", a.to_json());
        }
        proof {
            reveal_strlit("name");
            reveal_strlit("description");
            reveal_strlit("inputSchema");
            reveal_strlit("annotations");
            assert("name"@.len() != "description"@.len());
            assert("name"@.len() != "inputSchema"@.len());
            assert("name"@.len() != "annotations"@.len());
            assert("description"@[0] != "inputSchema"@[0]);
            assert("description"@[0] != "annotations"@[0]);
            assert("inputSchema"@[0] != "annotations"@[0]);
            assert(lookup(Seq::<(String, JsonValue)>::empty(), "description"@) is None);
            assert(lookup(Seq::<(String, JsonValue)>::empty(), "inputSchema"@) is None);
            assert(lookup(Seq::<(String, JsonValue)>::empty(), "annotations"@) is None);
        }
        JsonValue::Object(fields)
    }
}

/// The protocol name of a content block's kind.
pub open spec fn block_kind(b: ContentBlock) -> Seq<char> {
    match b {
        ContentBlock::Text(_) => "text"@,
        ContentBlock::Image(_) => "image"@,
        ContentBlock::Resource(_) => "resource"@,
        ContentBlock::ResourceLink(_) => "resource_link"@,
    }
}

impl TextContent {
    /// Text content holding `text`.
    pub fn new(text: &str) -> (r: Self)
        ensures
            r.text@ == text@,
    {
        TextContent { text: text.to_owned() }
    }
}

impl ResourceContents {
    /// The JSON form: `uri`, `text` or `blob`, then `mimeType` where set.
    pub fn to_json(&self) -> (r: JsonValue)
        ensures
            member(r, "uri"@) matches Some(JsonValue::Str(u)) && u@ == match self {
                ResourceContents::Text(t) => t.uri@,
                ResourceContents::Blob(b) => b.uri@,
            },
    {
        let mut fields: Vec<(String, JsonValue)> = Vec::new();
        match self {
            ResourceContents::Text(t) => {
                fields.push(entry("uri", text_value(&t.uri)));
                fields.push(entry("text", text_value(&t.text)));
                push_opt_text(&mut fields, "mimeType", &t.mime_type);
                proof {
                    lemma_lookup_at(fields@, "uri"@, 0);
                }
            },
            ResourceContents::Blob(b) => {
                fields.push(entry("uri", text_value(&b.uri)));
                fields.push(entry("blob", text_value(&b.blob)));
                push_opt_text(&mut fields, "mimeType", &b.mime_type);
                proof {
                    lemma_lookup_at(fields@, "uri"@, 0);
                }
            },
        }
        JsonValue::Object(fields)
    }
}

impl ContentBlock {
    /// The JSON form: `type` naming the kind, then the kind's members.
    pub fn to_json(&self) -> (r: JsonValue)
        ensures
            renders_block(r, *self),
    {
        let mut fields: Vec<(String, JsonValue)> = Vec::new();
        proof {
            reveal_strlit("text");
            reveal_strlit("image");
            reveal_strlit("resource");
            reveal_strlit("resource_link");
            reveal_strlit("type");
            reveal_strlit("data");
            reveal_strlit("mimeType");
            reveal_strlit("uri");
            reveal_strlit("name");
            reveal_strlit("description");
            assert("type"@[1] != "text"@[1]);
            assert("type"@[0] != "data"@[0]);
            assert("type"@[0] != "name"@[0]);
            assert("type"@.len() != "mimeType"@.len() && "data"@.len() != "mimeType"@.len());
            assert("type"@.len() != "resource"@.len() && "type"@.len() != "uri"@.len());
            assert("type"@.len() != "description"@.len() && "uri"@.len() != "name"@.len());
            assert("uri"@.len() != "description"@.len() && "uri"@.len() != "mimeType"@.len());
            assert("name"@.len() != "description"@.len() && "name"@.len() != "mimeType"@.len());
            assert("description"@.len() != "mimeType"@.len());
            assert(lookup(Seq::<(String, JsonValue)>::empty(), "type"@) is None);
            assert(lookup(Seq::<(String, JsonValue)>::empty(), "text"@) is None);
            assert(lookup(Seq::<(String, JsonValue)>::empty(), "data"@) is None);
            assert(lookup(Seq::<(String, JsonValue)>::empty(), "mimeType"@) is None);
            assert(lookup(Seq::<(String, JsonValue)>::empty(), "resource"@) is None);
            assert(lookup(Seq::<(String, JsonValue)>::empty(), "uri"@) is None);
            assert(lookup(Seq::<(String, JsonValue)>::empty(), "name"@) is None);
            assert(lookup(Seq::<(String, JsonValue)>::empty(), "description"@) is None);
        }
        match self {
            ContentBlock::Text(c) => {
                push_member(&mut fields, "type", JsonValue::Str("text".to_owned()));
                push_member(&mut fields, "text", text_value(&c.text));
            },
            ContentBlock::Image(c) => {
                push_member(&mut fields, "type", JsonValue::Str("image".to_owned()));
                push_member(&mut fields, "data", text_value(&c.data));
                push_member(&mut fields, "mimeType", text_value(&c.mime_type));
            },
            ContentBlock::Resource(c) => {
                push_member(&mut fields, "type", JsonValue::Str("resource".to_owned()));
                push_member(&mut fields, "resource", c.resource.to_json());
            },
            ContentBlock::ResourceLink(c) => {
                push_member(&mut fields, "type", JsonValue::Str("resource_link".to_owned()));
                push_member(&mut fields, "uri", text_value(&c.uri));
                push_member(&mut fields, "name", text_value(&c.name));
                push_opt_text(&mut fields, "description", &c.description);
                push_opt_text(&mut fields, "mimeType", &c.mime_type);
            },
        }
        JsonValue::Object(fields)
    }
}

impl CallToolResult {
    /// A successful result holding one text block.
    pub fn text(text: &str) -> (r: Self)
        ensures
            single_text(r.content@, text@),
            r.structured_content is None,
            r.is_error is None,
    {
        CallToolResult { content: vec![ContentBlock::Text(TextContent::new(text))], structured_content: None, is_error: None }
    }

    /// A failed result: one text block with the message, and the error flag set.
    pub fn error(message: &str) -> (r: Self)
        ensures
            single_text(r.content@, message@),
            r.structured_content is None,
            r.is_error == Some(true),
    {
        CallToolResult {
            content: vec![ContentBlock::Text(TextContent::new(message))],
            structured_content: None,
            is_error: Some(true),
        }
    }

    /// Adds a structured copy of the result.
    pub fn with_structured(self, structured: JsonValue) -> (r: Self)
        ensures
            r.content == self.content,
            r.structured_content == Some(structured),
            r.is_error == self.is_error,
    {
        CallToolResult { structured_content: Some(structured), ..self }
    }

    /// The JSON form: `content`, then `isError` and `structuredContent` where set.
    pub fn to_json(self) -> (r: JsonValue)
        ensures
            member(r, "content"@) matches Some(JsonValue::Array(blocks)) && blocks@.len() == self.content@.len()
                && forall|i: int| 0 <= i < blocks@.len() ==> renders_block(#[trigger] blocks@[i], self.content@[i]),
            member(r, "isError"@) == opt_bool(self.is_error),
            member(r, "structuredContent"@) == self.structured_content,
    {
        let mut blocks: Vec<JsonValue> = Vec::new();
        let mut i: usize = 0;
        while i < self.content.len()
            invariant
                i <= self.content@.len(),
                blocks@.len() == i,
                forall|k: int| 0 <= k < i ==> renders_block(#[trigger] blocks@[k], self.content@[k]),
            decreases self.content@.len() - i,
        {
            blocks.push(self.content[i].to_json());
            i = i + 1;
        }
        let mut fields: Vec<(String, JsonValue)> = Vec::new();
        push_member(&mut fields, "content", JsonValue::Array(blocks));
        push_opt_bool(&mut fields, "isError", self.is_error);
        let ghost before = fields@;
        if let Some(s) = self.structured_content {
            push_member(&mut fields, "structuredContent", s);
        }
        proof {
            reveal_strlit("content");
            reveal_strlit("isError");
            reveal_strlit("structuredContent");
            assert("content"@[0] != "isError"@[0]);
            assert("structuredContent"@.len() != "isError"@.len());
            assert("structuredContent"@.len() != "content"@.len());
            assert(lookup(Seq::<(String, JsonValue)>::empty(), "content"@) is None);
            assert(lookup(Seq::<(String, JsonValue)>::empty(), "isError"@) is None);
            assert(lookup(Seq::<(String, JsonValue)>::empty(), "structuredContent"@) is None);
            assert(lookup(before, "structuredContent"@) is None);
        }
        JsonValue::Object(fields)
    }
}

/// A copy of a JSON value.
fn copy_json(v: &JsonValue) -> (r: JsonValue)
    decreases v,
{
    match v {
        JsonValue::Null => JsonValue::Null,
        JsonValue::Bool(b) => JsonValue::Bool(*b),
        JsonValue::Int(n) => JsonValue::Int(*n),
        JsonValue::UInt(n) => JsonValue::UInt(*n),
        JsonValue::Decimal(s) => JsonValue::Decimal(s.clone()),
        JsonValue::Str(s) => JsonValue::Str(s.clone()),
        JsonValue::Array(items) => {
            let mut out: Vec<JsonValue> = Vec::new();
            let mut i: usize = 0;
            while i < items.len()
                invariant
                    i <= items@.len(),
                    (*v) is Array && (*v)->Array_0 == *items,
                decreases items@.len() - i,
            {
                proof {
                    vstd::std_specs::vec::axiom_vec_index_decreases(*items, i as int);
                    assert(decreases_to!(*v => (*v)->Array_0));
                    assert(decreases_to!(*v => items@[i as int]));
                }
                out.push(copy_json(&items[i]));
                i = i + 1;
            }
            JsonValue::Array(out)
        },
        JsonValue::Object(fields) => {
            proof {
                assert(decreases_to!(*v => (*v)->Object_0));
            }
            copy_members(fields)
        },
    }
}

/// A copy of an object's members.
fn copy_members(fields: &Vec<(String, JsonValue)>) -> (r: JsonValue)
    ensures
        same_names(r, fields@),
    decreases fields,
{
    let mut out: Vec<(String, JsonValue)> = Vec::new();
    let mut i: usize = 0;
    while i < fields.len()
        invariant
            i <= fields@.len(),
            out@.len() == i,
            forall|k: int| 0 <= k < i ==> (#[trigger] out@[k]).0@ == fields@[k].0@,
        decreases fields@.len() - i,
    {
        proof {
            vstd::std_specs::vec::axiom_vec_index_decreases(*fields, i as int);
        }
        out.push((fields[i].0.clone(), copy_json(&fields[i].1)));
        i = i + 1;
    }
    JsonValue::Object(out)
}

} // verus!
