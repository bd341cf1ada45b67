//! Export of a project as a Postman collection (schema v2.1.0): one item
//! per endpoint, identified by a name-based UUID, with its headers and a raw
//! body.

use vstd::prelude::*;

use crate::projects::{PersistedEndpoint, PersistedProject};
use crate::text::{spec_to_lowercase, str_equal, to_lowercase};

verus! {

/// The schema Postman collections of this version follow.
pub const POSTMAN_JSON_SCHEMA: &'static str = "https://schema.getpostman.com/json/collection/v2.1.0/collection.json";

/// The text the description of an exported collection starts with.
pub const EXPORT_DESCRIPTION_PREFIX: &'static str = "Postman collection exported from Tome on: ";

/// A Postman collection.
#[derive(Debug, Clone, PartialEq, Eq)]
pub struct PostmanJson {
    pub info: PostmanInformation,
    pub item: Vec<PostmanItem>,
}

/// A collection's name, description and schema.
#[derive(Debug, Clone, PartialEq, Eq)]
pub struct PostmanInformation {
    pub name: String,
    pub description: String,
    pub schema: String,
}

/// One request of a collection.
#[derive(Debug, Clone, PartialEq, Eq)]
pub struct PostmanItem {
    pub id: String,
    pub name: String,
    pub request: PostmanRequest,
}

/// A request: where it goes, how, with which headers and body.
#[derive(Debug, Clone, PartialEq, Eq)]
pub struct PostmanRequest {
    pub description: String,
    pub url: String,
    pub method: String,
    pub header: Vec<PostmanKV>,
    pub body: Option<PostmanBody>,
}

/// A header.
#[derive(Debug, Clone, PartialEq, Eq)]
pub struct PostmanKV {
    pub key: String,
    pub value: String,
}

/// How a request body is given.
#[derive(Debug, Clone, Copy, PartialEq, Eq)]
pub enum PostmanBodyMode {
    Raw,
    UrlEncoded,
    FormData,
    File,
    GraphQL,
}

/// A GraphQL body (not produced by the export).
#[derive(Debug, Clone, Copy, PartialEq, Eq)]
pub struct GraphQL;

/// A request body.
#[derive(Debug, Clone, PartialEq, Eq)]
pub struct PostmanBody {
    pub mode: PostmanBodyMode,
    pub urlencoded: Option<Vec<PostmanKV>>,
    pub raw: Option<String>,
    pub graphql: Option<GraphQL>,
}

/// The UUID (version 5, in the URL namespace) of a name, in its hyphenated
/// lower-case form; SHA-1 based, it depends on the name alone.
pub uninterp spec fn spec_uuid_v5_url(name: Seq<char>) -> Seq<char>;

/// Calls `Uuid::new_v5` with `Uuid::NAMESPACE_URL` on the name's bytes and
/// formats the UUID with `to_string`. The UUID is a SHA-1 hash of namespace
/// and name, named here; its text is the hyphenated form of 36 characters
/// with hyphens at positions 8, 13, 18 and 23.
#[verifier::external_body]
fn create_uuid(seed: &str) -> (id: String)
    ensures
        id@ == spec_uuid_v5_url(seed@),
        id@.len() == 36,
        id@[8] == '-' && id@[13] == '-' && id@[18] == '-' && id@[23] == '-',
{
    uuid::Uuid::new_v5(&uuid::Uuid::NAMESPACE_URL, seed.as_bytes()).to_string()
}

/// Whether a header names the content type (in any case).
pub open spec fn is_content_type_header(name: Seq<char>) -> bool {
    spec_to_lowercase(name) == "content-type"@
}

/// The content type an endpoint declares: the value of its last
/// content-type header, or `text/plain`.
pub open spec fn spec_declared_content_type(headers: Seq<(Seq<char>, Seq<char>)>) -> Seq<char>
    decreases headers.len(),
{
    if headers.len() == 0 {
        "text/plain"@
    } else if is_content_type_header(headers.last().0) {
        headers.last().1
    } else {
        spec_declared_content_type(headers.drop_last())
    }
}

/// Whether an endpoint's content type is one the export has no body form
/// for (form data, URL-encoded).
pub open spec fn unsupported_content_type(content_type: Seq<char>) -> bool {
    content_type == "multipart/x-form-data"@ || content_type == "urlencoded"@
}

/// Whether every endpoint's content type has a body form.
pub open spec fn exportable(endpoints: Seq<PersistedEndpoint>) -> bool {
    forall|i: int| 0 <= i < endpoints.len()
        ==> !unsupported_content_type(#[trigger] spec_declared_content_type(endpoints[i]@.headers))
}

/// Whether `item` is the export of `e`.
pub open spec fn is_item_of(item: PostmanItem, e: PersistedEndpoint) -> bool {
    let content_type = spec_declared_content_type(e@.headers);
    &&& item.id@ == spec_uuid_v5_url(e.name@)
    &&& item.name@ == e.name@
    &&& item.request.url@ == e.url@
    &&& item.request.description@.len() == 0
    &&& item.request.method@ == e.method@
    &&& item.request.header@.len() == e.headers@.len()
    &&& forall|k: int| 0 <= k < e.headers@.len() ==> (#[trigger] item.request.header@[k]).key@ == e.headers@[k].name@
        && item.request.header@[k].value@ == e.headers@[k].value@
    &&& if content_type.len() == 0 {
        item.request.body is None
    } else {
        &&& item.request.body is Some
        &&& item.request.body->Some_0.mode == PostmanBodyMode::Raw
        &&& item.request.body->Some_0.urlencoded is None
        &&& item.request.body->Some_0.graphql is None
        &&& item.request.body->Some_0.raw is Some
        &&& item.request.body->Some_0.raw->Some_0@ == e.body@
    }
}

/// The content type an endpoint declares.
pub fn declared_content_type(e: &PersistedEndpoint) -> (content_type: String)
    ensures
        content_type@ == spec_declared_content_type(e@.headers),
{
    let mut content_type = String::from_str("text/plain");
    let mut i: usize = 0;
    proof {
        assert(e@.headers.take(0) =~= seq![]);
    }
    while i < e.headers.len()
        invariant
            i <= e.headers@.len(),
            e@.headers.len() == e.headers@.len(),
            content_type@ == spec_declared_content_type(e@.headers.take(i as int)),
        decreases e.headers@.len() - i,
    {
        let lower = to_lowercase(e.headers[i].name.as_str());
        if str_equal(lower.as_str(), "content-type") {
            content_type = e.headers[i].value.clone();
        }
        i = i + 1;
        proof {
            assert(e@.headers.take(i as int).drop_last() =~= e@.headers.take(i - 1));
            assert(e@.headers.take(i as int).last() == e@.headers[i - 1]);
        }
    }
    proof {
        assert(e@.headers.take(i as int) =~= e@.headers);
    }
    content_type
}

/// The item a endpoint is exported as.
pub fn postman_item(e: &PersistedEndpoint) -> (item: PostmanItem)
    requires
        !unsupported_content_type(spec_declared_content_type(e@.headers)),
    ensures
        is_item_of(item, *e),
{
    let id = create_uuid(e.name.as_str());
    let content_type = declared_content_type(e);
    let mut header: Vec<PostmanKV> = Vec::new();
    let mut k: usize = 0;
    while k < e.headers.len()
        invariant
            k <= e.headers@.len(),
            header@.len() == k,
            forall|j: int| 0 <= j < k ==> (#[trigger] header@[j]).key@ == e.headers@[j].name@
                && header@[j].value@ == e.headers@[j].value@,
        decreases e.headers@.len() - k,
    {
        header.push(PostmanKV { key: e.headers[k].name.clone(), value: e.headers[k].value.clone() });
        k = k + 1;
    }
    let body = if content_type.as_str().unicode_len() == 0 {
        None
    } else {
        Some(PostmanBody {
            mode: PostmanBodyMode::Raw,
            urlencoded: None,
            raw: Some(e.body.clone()),
            graphql: None,
        })
    };
    let request = PostmanRequest {
        url: e.url.clone(),
        description: String::new(),
        method: e.method.clone(),
        header,
        body,
    };
    PostmanItem { id, request, name: e.name.clone() }
}

/// The collection a project is exported as, described as exported at the
/// given time. Every endpoint's content type must have a body form (the
/// export of form data and URL-encoded bodies does not exist).
pub fn postman_from_project(project: &PersistedProject, exported_at: &str) -> (json: PostmanJson)
    requires
        exportable(project.endpoints@),
    ensures
        json.info.name@ == project.name@,
        json.info.description@ == EXPORT_DESCRIPTION_PREFIX@ + exported_at@,
        json.info.schema@ == POSTMAN_JSON_SCHEMA@,
        json.item@.len() == project.endpoints@.len(),
        forall|i: int| 0 <= i < json.item@.len() ==> is_item_of(#[trigger] json.item@[i], project.endpoints@[i]),
{
    let mut description = String::from_str(EXPORT_DESCRIPTION_PREFIX);
    description.append(exported_at);
    let info = PostmanInformation {
        name: project.name.clone(),
        description,
        schema: String::from_str(POSTMAN_JSON_SCHEMA),
    };
    let mut item: Vec<PostmanItem> = Vec::new();
    let mut i: usize = 0;
    while i < project.endpoints.len()
        invariant
            i <= project.endpoints@.len(),
            exportable(project.endpoints@),
            item@.len() == i,
            forall|j: int| 0 <= j < i ==> is_item_of(#[trigger] item@[j], project.endpoints@[j]),
        decreases project.endpoints@.len() - i,
    {
        proof {
            assert(!unsupported_content_type(spec_declared_content_type(project.endpoints@[i as int]@.headers)));
        }
        item.push(postman_item(&project.endpoints[i]));
        i = i + 1;
    }
    PostmanJson { info, item }
}

/// The file a collection is exported to, in the documents directory.
pub fn export_file_name(json: &PostmanJson) -> (name: String)
    ensures
        name@ == json.info.name@ + ".json"@,
{
    let mut name = json.info.name.clone();
    name.append(".json");
    name
}

/// Whether every endpoint of a project can be exported.
pub fn exportable_endpoints(project: &PersistedProject) -> (ok: bool)
    ensures
        ok == exportable(project.endpoints@),
{
    let mut i: usize = 0;
    while i < project.endpoints.len()
        invariant
            i <= project.endpoints@.len(),
            forall|j: int| 0 <= j < i ==> !unsupported_content_type(
                #[trigger] spec_declared_content_type(project.endpoints@[j]@.headers),
            ),
        decreases project.endpoints@.len() - i,
    {
        let content_type = declared_content_type(&project.endpoints[i]);
        if str_equal(content_type.as_str(), "multipart/x-form-data") || str_equal(content_type.as_str(), "urlencoded") {
            return false;
        }
        i = i + 1;
    }
    true
}

/// The collection a project is exported as, when every endpoint can be
/// exported; `None` when an endpoint's body is form data or URL-encoded,
/// which has no export.
pub fn export_project(project: &PersistedProject, exported_at: &str) -> (json: Option<PostmanJson>)
    ensures
        json is None <==> !exportable(project.endpoints@),
        json matches Some(j) ==> {
            &&& j.info.name@ == project.name@
            &&& j.info.description@ == EXPORT_DESCRIPTION_PREFIX@ + exported_at@
            &&& j.info.schema@ == POSTMAN_JSON_SCHEMA@
            &&& j.item@.len() == project.endpoints@.len()
            &&& forall|i: int| 0 <= i < j.item@.len() ==> is_item_of(#[trigger] j.item@[i], project.endpoints@[i])
        },
{
    if exportable_endpoints(project) {
        Some(postman_from_project(project, exported_at))
    } else {
        None
    }
}

} // verus!
