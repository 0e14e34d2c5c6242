//! Assembly of one HTTP send.
//!
//! One call turns a rendered request specification into everything the
//! transport needs: the scheme-normalized URL, the ordered header list, the
//! enabled query parameters in input order, and the body plan. The transport
//! configuration is read separately from the workspace settings.

use vstd::prelude::*;

use crate::body::body_plan_fails;
use crate::body::body_planned;
use crate::body::plan_body;
use crate::body::BodyPlan;
use crate::headers::assembled_headers;
use crate::headers::build_http_headers;
use crate::headers::pair_views;
use crate::models::BodyKind;
use crate::models::HttpRequest;
use crate::models::UrlParameter;
use crate::models::Workspace;
use crate::urlnorm::ensure_proto;
use crate::urlnorm::normalized_url;

verus! {

/// How the transport is configured for one send, from workspace settings:
/// a bounded redirect policy or none, transparent decompression, no
/// automatic `Referer`, the certificate-validation toggle, and an optional
/// total-request timeout where zero means unbounded.
pub struct TransportConfig {
    pub redirect_limit: u64,
    pub gzip: bool,
    pub brotli: bool,
    pub deflate: bool,
    pub referer: bool,
    pub accept_invalid_certs: bool,
    pub timeout_ms: Option<u64>,
}

/// Read the transport configuration of one send from the workspace.
pub fn plan_transport(workspace: &Workspace) -> (c: TransportConfig)
    ensures
        c.redirect_limit == (if workspace.setting_follow_redirects {
            10u64
        } else {
            0u64
        }),
        c.gzip && c.brotli && c.deflate,
        !c.referer,
        c.accept_invalid_certs == !workspace.setting_validate_certificates,
        workspace.setting_request_timeout > 0 ==> (c.timeout_ms matches Some(t) && t as int
            == workspace.setting_request_timeout as int),
        workspace.setting_request_timeout <= 0 ==> c.timeout_ms is None,
{
    let timeout_ms = if workspace.setting_request_timeout > 0 {
        Some(workspace.setting_request_timeout as u64)
    } else {
        None
    };
    TransportConfig {
        redirect_limit: if workspace.setting_follow_redirects {
            10
        } else {
            0
        },
        gzip: true,
        brotli: true,
        deflate: true,
        referer: false,
        accept_invalid_certs: !workspace.setting_validate_certificates,
        timeout_ms,
    }
}

/// The query pairs a request contributes: enabled, named parameters in
/// input order.
pub open spec fn query_entries(params: Seq<UrlParameter>) -> Seq<(Seq<char>, Seq<char>)>
    decreases params.len(),
{
    if params.len() == 0 {
        Seq::empty()
    } else {
        let p = params.last();
        let rest = query_entries(params.drop_last());
        if p.enabled && p.name@.len() > 0 {
            rest.push((p.name@, p.value@))
        } else {
            rest
        }
    }
}

/// Collect the enabled, named query parameters, in input order.
pub fn plan_query(params: &Vec<UrlParameter>) -> (out: Vec<(String, String)>)
    ensures
        pair_views(out@) == query_entries(params@),
{
    let mut out: Vec<(String, String)> = Vec::new();
    let n = params.len();
    let mut i: usize = 0;
    proof {
        assert(pair_views(out@) =~= query_entries(params@.subrange(0, 0)));
    }
    while i < n
        invariant
            0 <= i <= n,
            n == params@.len(),
            pair_views(out@) == query_entries(params@.subrange(0, i as int)),
        decreases n - i,
    {
        let p = &params[i];
        let ghost prev = out@;
        if p.enabled && !p.name.as_str().is_empty() {
            out.push((p.name.clone(), p.value.clone()));
        }
        proof {
            let s1 = params@.subrange(0, i + 1 as int);
            let s0 = params@.subrange(0, i as int);
            assert(s1.drop_last() =~= s0);
            assert(s1.last() == params@[i as int]);
            let entry = params@[i as int];
            if entry.enabled && entry.name@.len() > 0 {
                assert(query_entries(s1) == query_entries(s0).push((entry.name@, entry.value@)));
                assert(pair_views(out@) =~= pair_views(prev).push((entry.name@, entry.value@)));
            } else {
                assert(query_entries(s1) == query_entries(s0));
            }
            assert(pair_views(out@) =~= query_entries(s1));
        }
        i += 1;
    }
    proof {
        assert(params@.subrange(0, n as int) =~= params@);
    }
    out
}

/// Everything the transport needs to send one request.
pub struct PlannedRequest {
    pub url: String,
    pub method: String,
    pub headers: Vec<(String, String)>,
    pub query: Vec<(String, String)>,
    pub body: BodyPlan,
}

/// How a finished plan relates to the request it was planned from.
pub open spec fn request_planned(req: HttpRequest, p: PlannedRequest) -> bool {
    &&& p.url@ == normalized_url(req.url@)
    &&& p.method@ == req.method@
    &&& pair_views(p.headers@) == assembled_headers(
        req.headers@,
        req.auth,
        req.body is MultipartForm,
    )
    &&& pair_views(p.query@) == query_entries(req.url_parameters@)
    &&& body_planned(req.body, p.body)
}

/// Turn one rendered request into its transport-ready plan: normalize the
/// URL's scheme, assemble defaults, authentication and the request's own
/// headers, collect the enabled query parameters, and plan the body. For a
/// multipart body any `Content-Type` header is withheld so the transport
/// can set its own boundary. The one failure is a binary body naming no
/// file.
pub fn plan_http_request(req: &HttpRequest) -> (r: Result<PlannedRequest, String>)
    ensures
        body_plan_fails(req.body) ==> (r matches Err(e) && e@ == "filePath not set"@),
        !body_plan_fails(req.body) ==> (r matches Ok(p) && request_planned(*req, p)),
{
    let body = match plan_body(&req.body) {
        Ok(b) => b,
        Err(e) => {
            return Err(e);
        },
    };
    let is_multipart = match &req.body {
        BodyKind::MultipartForm { .. } => true,
        _ => false,
    };
    let headers = build_http_headers(&req.headers, &req.auth, is_multipart);
    let query = plan_query(&req.url_parameters);
    let url = ensure_proto(req.url.as_str());
    Ok(PlannedRequest { url, method: req.method.clone(), headers, query, body })
}

} // verus!
