//! Body planning.
//!
//! The declared body of a request is turned into a transport-ready plan:
//! raw text goes verbatim, URL-encoded forms keep their enabled, named
//! fields in input order, a binary body names the file whose bytes are sent
//! whole or not at all, and each multipart part resolves its MIME type —
//! an explicit type wins, else the file extension's guess, else
//! `application/octet-stream` for files, else the part is plain text.

use vstd::prelude::*;

use crate::models::BodyKind;
use crate::models::FormField;
use crate::models::MultipartPart;
use crate::headers::pair_views;

verus! {

/// The MIME type the HTTP stack guesses for a path, by its extension: a
/// function of the path alone.
pub uninterp spec fn mime_for_path(path: Seq<char>) -> Option<Seq<char>>;

/// Relies on `mime_guess::from_path`: the first guess for the path's
/// extension, or nothing when the extension is unknown.
#[verifier::external_body]
fn guess_mime(path: &str) -> (r: Option<String>)
    ensures
        match r {
            Some(m) => mime_for_path(path@) == Some(m@),
            None => mime_for_path(path@) == None::<Seq<char>>,
        },
{
    mime_guess::from_path(path).first().map(|m| m.essence_str().to_owned())
}

/// The resolved MIME type of a multipart part: an explicit content type
/// wins; a file part falls back to the extension's guess and then to
/// `application/octet-stream`; a part with neither stays plain text.
pub open spec fn resolved_part_mime(explicit: Seq<char>, file_path: Seq<char>) -> Option<
    Seq<char>,
> {
    if explicit.len() > 0 {
        Some(explicit)
    } else if file_path.len() > 0 {
        match mime_for_path(file_path) {
            Some(m) => Some(m),
            None => Some("application/octet-stream"@),
        }
    } else {
        None
    }
}

/// Resolve the MIME type of one multipart part.
pub fn part_mime(explicit: &str, file_path: &str) -> (r: Option<String>)
    ensures
        match r {
            Some(m) => resolved_part_mime(explicit@, file_path@) == Some(m@),
            None => resolved_part_mime(explicit@, file_path@) == None::<Seq<char>>,
        },
{
    if !explicit.is_empty() {
        Some(explicit.to_owned())
    } else if !file_path.is_empty() {
        match guess_mime(file_path) {
            Some(m) => Some(m),
            None => Some(String::from_str("application/octet-stream")),
        }
    } else {
        None
    }
}

/// Index just after the last path separator strictly before `i`, or `0`.
pub open spec fn after_last_sep(s: Seq<char>, i: int) -> int
    recommends
        0 <= i <= s.len(),
    decreases i,
{
    if i <= 0 {
        0
    } else if s[i - 1] == '/' || s[i - 1] == '\\' {
        i
    } else {
        after_last_sep(s, i - 1)
    }
}

/// The last component of a path: what follows its last separator.
pub open spec fn file_name_of(path: Seq<char>) -> Seq<char> {
    path.subrange(after_last_sep(path, path.len() as int), path.len() as int)
}

/// The last component of a path, the name a file part is sent under.
pub fn path_file_name(path: &str) -> (r: String)
    ensures
        r@ == file_name_of(path@),
{
    let n = path.unicode_len();
    let mut start: usize = 0;
    let mut i: usize = 0;
    while i < n
        invariant
            0 <= i <= n,
            n == path@.len(),
            start as int == after_last_sep(path@, i as int),
            start <= i,
        decreases n - i,
    {
        let c = path.get_char(i);
        if c == '/' || c == '\\' {
            start = i + 1;
        }
        i += 1;
    }
    path.substring_char(start, n).to_owned()
}

/// One planned multipart part. A part with an empty `file_path` carries
/// `text_value`; otherwise the transport reads the named file, whole or not
/// at all.
#[derive(Debug)]
pub struct PlannedPart {
    pub name: String,
    pub text_value: String,
    pub file_path: String,
    pub mime: Option<String>,
    pub file_name: Option<String>,
}

/// The transport-ready body of one send.
#[derive(Debug)]
pub enum BodyPlan {
    EmptyBody,
    TextBody { content: String },
    FormBody { pairs: Vec<(String, String)> },
    BinaryBody { file_path: String },
    MultipartBody { parts: Vec<PlannedPart> },
}

/// The skip rule for form fields and multipart parts: enabled and named.
pub open spec fn field_selected(enabled: bool, name: Seq<char>) -> bool {
    enabled && name.len() > 0
}

/// The pairs a URL-encoded form contributes, in input order.
pub open spec fn form_entries(fields: Seq<FormField>) -> Seq<(Seq<char>, Seq<char>)>
    decreases fields.len(),
{
    if fields.len() == 0 {
        Seq::empty()
    } else {
        let f = fields.last();
        let rest = form_entries(fields.drop_last());
        if field_selected(f.enabled, f.name@) {
            rest.push((f.name@, f.value@))
        } else {
            rest
        }
    }
}

/// Collect the enabled, named fields of a URL-encoded form, in input order.
pub fn plan_form(fields: &Vec<FormField>) -> (out: Vec<(String, String)>)
    ensures
        pair_views(out@) == form_entries(fields@),
{
    let mut out: Vec<(String, String)> = Vec::new();
    let n = fields.len();
    let mut i: usize = 0;
    proof {
        assert(pair_views(out@) =~= form_entries(fields@.subrange(0, 0)));
    }
    while i < n
        invariant
            0 <= i <= n,
            n == fields@.len(),
            pair_views(out@) == form_entries(fields@.subrange(0, i as int)),
        decreases n - i,
    {
        let f = &fields[i];
        let ghost prev = out@;
        if f.enabled && !f.name.as_str().is_empty() {
            out.push((f.name.clone(), f.value.clone()));
        }
        proof {
            let s1 = fields@.subrange(0, i + 1 as int);
            let s0 = fields@.subrange(0, i as int);
            assert(s1.drop_last() =~= s0);
            assert(s1.last() == fields@[i as int]);
            let entry = fields@[i as int];
            if field_selected(entry.enabled, entry.name@) {
                assert(form_entries(s1) == form_entries(s0).push((entry.name@, entry.value@)));
                assert(pair_views(out@) =~= pair_views(prev).push((entry.name@, entry.value@)));
            } else {
                assert(form_entries(s1) == form_entries(s0));
            }
            assert(pair_views(out@) =~= form_entries(s1));
        }
        i += 1;
    }
    proof {
        assert(fields@.subrange(0, n as int) =~= fields@);
    }
    out
}

/// How one planned part relates to the part it was planned from.
pub open spec fn part_planned(p: MultipartPart, q: PlannedPart) -> bool {
    &&& q.name@ == p.name@
    &&& q.text_value@ == p.value@
    &&& q.file_path@ == p.file_path@
    &&& (match q.mime {
        Some(m) => resolved_part_mime(p.content_type@, p.file_path@) == Some(m@),
        None => resolved_part_mime(p.content_type@, p.file_path@) == None::<Seq<char>>,
    })
    &&& (match q.file_name {
        Some(f) => p.file_path@.len() > 0 && f@ == file_name_of(p.file_path@),
        None => p.file_path@.len() == 0,
    })
}

/// The planned list holds exactly the enabled, named parts, in input order,
/// each planned as [`part_planned`] says.
pub open spec fn parts_planned(parts: Seq<MultipartPart>, out: Seq<PlannedPart>) -> bool
    decreases parts.len(),
{
    if parts.len() == 0 {
        out.len() == 0
    } else {
        let p = parts.last();
        if field_selected(p.enabled, p.name@) {
            out.len() > 0 && part_planned(p, out.last()) && parts_planned(
                parts.drop_last(),
                out.drop_last(),
            )
        } else {
            parts_planned(parts.drop_last(), out)
        }
    }
}

/// Plan the enabled, named parts of a multipart form, in input order.
pub fn plan_multipart(parts: &Vec<MultipartPart>) -> (out: Vec<PlannedPart>)
    ensures
        parts_planned(parts@, out@),
{
    let mut out: Vec<PlannedPart> = Vec::new();
    let n = parts.len();
    let mut i: usize = 0;
    while i < n
        invariant
            0 <= i <= n,
            n == parts@.len(),
            parts_planned(parts@.subrange(0, i as int), out@),
        decreases n - i,
    {
        let p = &parts[i];
        let ghost prev = out@;
        if p.enabled && !p.name.as_str().is_empty() {
            let mime = part_mime(p.content_type.as_str(), p.file_path.as_str());
            let file_name = if !p.file_path.as_str().is_empty() {
                Some(path_file_name(p.file_path.as_str()))
            } else {
                None
            };
            out.push(
                PlannedPart {
                    name: p.name.clone(),
                    text_value: p.value.clone(),
                    file_path: p.file_path.clone(),
                    mime,
                    file_name,
                },
            );
        }
        proof {
            let s1 = parts@.subrange(0, i + 1 as int);
            let s0 = parts@.subrange(0, i as int);
            assert(s1.drop_last() =~= s0);
            assert(s1.last() == parts@[i as int]);
            let entry = parts@[i as int];
            if field_selected(entry.enabled, entry.name@) {
                assert(out@.drop_last() =~= prev);
                assert(part_planned(entry, out@.last()));
            }
            assert(parts_planned(s1, out@));
        }
        i += 1;
    }
    proof {
        assert(parts@.subrange(0, n as int) =~= parts@);
    }
    out
}

/// Whether planning this body fails: a binary body must name its file.
pub open spec fn body_plan_fails(body: BodyKind) -> bool {
    match body {
        BodyKind::BinaryFile { file_path } => file_path@.len() == 0,
        _ => false,
    }
}

/// How a successful plan relates to the declared body.
pub open spec fn body_planned(body: BodyKind, plan: BodyPlan) -> bool {
    match body {
        BodyKind::NoBody => plan is EmptyBody,
        BodyKind::TextBody { text } => plan matches BodyPlan::TextBody { content } && content@
            == text@,
        BodyKind::FormUrlEncoded { fields } => plan matches BodyPlan::FormBody { pairs }
            && pair_views(pairs@) == form_entries(fields@),
        BodyKind::BinaryFile { file_path } => plan matches BodyPlan::BinaryBody {
            file_path: planned_path,
        } && planned_path@ == file_path@,
        BodyKind::MultipartForm { parts } => plan matches BodyPlan::MultipartBody {
            parts: planned,
        } && parts_planned(parts@, planned@),
    }
}

/// Turn the declared body into its transport-ready plan. The one failure is
/// a binary body with no file named; reading the file itself — all or
/// nothing — is the transport's step.
pub fn plan_body(body: &BodyKind) -> (r: Result<BodyPlan, String>)
    ensures
        body_plan_fails(*body) ==> (r matches Err(e) && e@ == "filePath not set"@),
        !body_plan_fails(*body) ==> (r matches Ok(plan) && body_planned(*body, plan)),
{
    match body {
        BodyKind::NoBody => Ok(BodyPlan::EmptyBody),
        BodyKind::TextBody { text } => Ok(BodyPlan::TextBody { content: text.clone() }),
        BodyKind::FormUrlEncoded { fields } => Ok(
            BodyPlan::FormBody { pairs: plan_form(fields) },
        ),
        BodyKind::BinaryFile { file_path } => {
            if file_path.as_str().is_empty() {
                Err(String::from_str("filePath not set"))
            } else {
                Ok(BodyPlan::BinaryBody { file_path: file_path.clone() })
            }
        },
        BodyKind::MultipartForm { parts } => Ok(
            BodyPlan::MultipartBody { parts: plan_multipart(parts) },
        ),
    }
}

} // verus!
