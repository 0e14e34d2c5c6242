//! Data model of the engine.
//!
//! These records hold, as plain values, everything the request-execution logic
//! reads and writes: the user-authored request specifications, the durable
//! outcome records, and the small carrier types exchanged with the
//! collaborators around the library (renderer, persistence, plugin host).

use vstd::prelude::*;

verus! {

/// One header entry of a request specification. Disabled entries and entries
/// whose name and value are both empty are never sent.
pub struct HttpHeader {
    pub name: String,
    pub value: String,
    pub enabled: bool,
}

/// One query-string parameter of a request specification.
pub struct UrlParameter {
    pub name: String,
    pub value: String,
    pub enabled: bool,
}

/// One field of a URL-encoded form body.
pub struct FormField {
    pub name: String,
    pub value: String,
    pub enabled: bool,
}

/// One part of a multipart form body. An empty `file_path` means the part is
/// a text value; an empty `content_type` means the MIME type is not explicit
/// and is guessed from the file extension.
pub struct MultipartPart {
    pub name: String,
    pub value: String,
    pub file_path: String,
    pub content_type: String,
    pub enabled: bool,
}

/// The authentication of a request, as a closed set of kinds.
pub enum AuthKind {
    NoAuth,
    Basic { username: String, password: String },
    Bearer { token: String },
}

/// The body of an HTTP request specification, as a closed set of kinds.
pub enum BodyKind {
    NoBody,
    TextBody { text: String },
    FormUrlEncoded { fields: Vec<FormField> },
    MultipartForm { parts: Vec<MultipartPart> },
    BinaryFile { file_path: String },
}

/// A user-authored HTTP call, snapshot at send time, with every templated
/// field already rendered against the environment scope.
pub struct HttpRequest {
    pub id: String,
    pub workspace_id: String,
    pub method: String,
    pub url: String,
    pub headers: Vec<HttpHeader>,
    pub url_parameters: Vec<UrlParameter>,
    pub body: BodyKind,
    pub auth: AuthKind,
}

/// A user-authored gRPC call, snapshot at send time, rendered like
/// [`HttpRequest`].
pub struct GrpcRequest {
    pub id: String,
    pub workspace_id: String,
    pub url: String,
    pub service: Option<String>,
    pub method: Option<String>,
    pub message: String,
    pub metadata: Vec<HttpHeader>,
    pub auth: AuthKind,
}

/// The workspace-level transport settings the executor reads.
pub struct Workspace {
    pub id: String,
    pub name: String,
    pub setting_follow_redirects: bool,
    pub setting_validate_certificates: bool,
    pub setting_request_timeout: i64,
}

/// One variable of an environment scope.
pub struct EnvironmentVariable {
    pub name: String,
    pub value: String,
    pub enabled: bool,
}

/// A named variable scope, read-only to the engine.
pub struct Environment {
    pub id: String,
    pub workspace_id: String,
    pub name: String,
    pub variables: Vec<EnvironmentVariable>,
}

/// A folder grouping requests inside a workspace.
pub struct Folder {
    pub id: String,
    pub workspace_id: String,
    pub folder_id: Option<String>,
    pub name: String,
}

/// One cookie, identified by domain, path and name.
pub struct Cookie {
    pub domain: String,
    pub path: String,
    pub name: String,
    pub value: String,
}

/// A named collection of cookies scoped to a workspace. Read before a send,
/// rewritten after it when the transport's store changed; concurrent sends
/// sharing a jar are last-writer-wins.
pub struct CookieJar {
    pub id: String,
    pub workspace_id: String,
    pub name: String,
    pub cookies: Vec<Cookie>,
}

/// One response header as captured from the wire.
pub struct HttpResponseHeader {
    pub name: String,
    pub value: String,
}

/// The outcome record of one HTTP send. Created as a pending placeholder and
/// mutated in place as the call progresses; terminal once a status or an
/// error is set.
pub struct HttpResponse {
    pub id: String,
    pub workspace_id: String,
    pub request_id: String,
    pub url: String,
    pub status: i64,
    pub status_reason: Option<String>,
    pub headers: Vec<HttpResponseHeader>,
    pub version: Option<String>,
    pub remote_addr: Option<String>,
    pub content_length: Option<i64>,
    pub elapsed: i64,
    pub elapsed_headers: i64,
    pub body_path: Option<String>,
    pub error: Option<String>,
}

impl HttpResponse {
    /// A fresh pending response: no status, no error, nothing elapsed.
    pub fn pending(id: String, workspace_id: String, request_id: String) -> (r: HttpResponse)
        ensures
            r.id@ == id@,
            r.workspace_id@ == workspace_id@,
            r.request_id@ == request_id@,
            r.url@.len() == 0,
            r.status == 0,
            r.status_reason is None,
            r.version is None,
            r.remote_addr is None,
            r.elapsed == 0,
            r.elapsed_headers == 0,
            r.error is None,
            r.body_path is None,
            r.content_length is None,
            r.headers@.len() == 0,
    {
        HttpResponse {
            id,
            workspace_id,
            request_id,
            url: String::new(),
            status: 0,
            status_reason: None,
            headers: Vec::new(),
            version: None,
            remote_addr: None,
            content_length: None,
            elapsed: 0,
            elapsed_headers: 0,
            body_path: None,
            error: None,
        }
    }
}

/// The outcome record of one gRPC dial-and-call lifecycle. Status is `-1`
/// while pending; exactly one terminal update is written at the end.
pub struct GrpcConnection {
    pub id: String,
    pub workspace_id: String,
    pub request_id: String,
    pub url: String,
    pub status: i64,
    pub elapsed: i64,
    pub error: Option<String>,
}

impl GrpcConnection {
    /// A fresh pending connection: sentinel status `-1`, nothing elapsed.
    pub fn pending(id: String, workspace_id: String, request_id: String, url: String) -> (r:
        GrpcConnection)
        ensures
            r.id@ == id@,
            r.workspace_id@ == workspace_id@,
            r.request_id@ == request_id@,
            r.url@ == url@,
            r.status == -1,
            r.elapsed == 0,
            r.error is None,
    {
        GrpcConnection { id, workspace_id, request_id, url, status: -1, elapsed: 0, error: None }
    }
}

/// What a response-filtering plugin hands back.
pub struct FilterResult {
    pub filtered: String,
}

/// The set of resources recovered from one import.
pub struct WorkspaceExportResources {
    pub workspaces: Vec<Workspace>,
    pub environments: Vec<Environment>,
    pub folders: Vec<Folder>,
    pub http_requests: Vec<HttpRequest>,
    pub grpc_requests: Vec<GrpcRequest>,
}

/// What an import plugin hands back.
pub struct ImportResult {
    pub resources: WorkspaceExportResources,
}

/// What the plugin host reports once its server is up.
pub struct StartResp {
    pub addr: String,
}

/// Replace a jar's cookie set with what the transport's store holds after a
/// send. The store is authoritative: last writer wins.
pub fn replace_cookies(jar: &mut CookieJar, cookies: Vec<Cookie>)
    ensures
        final(jar).cookies@ == cookies@,
        final(jar).id@ == old(jar).id@,
        final(jar).workspace_id@ == old(jar).workspace_id@,
        final(jar).name@ == old(jar).name@,
{
    jar.cookies = cookies;
}

} // verus!
