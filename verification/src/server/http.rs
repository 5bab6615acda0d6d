use vstd::prelude::*;
use vstd::utf8::encode_utf8;
use vstd::string::StringExecFns;
use crate::ipp::types::IppRequest;
use crate::ipp::parser::{parse_ipp_request, spec_parse_request};
use crate::ipp::printer::PrinterState;
use crate::ipp::operations::{DispatchOutcome, DispatchV, PendingJob, PendingJobV, dispatch, spec_dispatch};
use crate::ipp::wire::response_encoding;
use crate::text::{has_prefix, starts_with, str_eq, string_bytes};

verus! {

/// The largest request body read (512 MiB), so that a large PDF cannot exhaust memory.
pub const MAX_BODY_BYTES: usize = 536870912;

/// An HTTP response: status, content type, body.
pub struct HttpReply {
    pub status: u16,
    pub content_type: Option<String>,
    pub body: Vec<u8>,
}

/// Abstract form of an HTTP response.
pub struct HttpReplyV {
    pub status: u16,
    pub content_type: Option<Seq<char>>,
    pub body: Seq<u8>,
}

impl View for HttpReply {
    type V = HttpReplyV;

    open spec fn view(&self) -> HttpReplyV {
        HttpReplyV {
            status: self.status,
            content_type: match self.content_type {
                Some(s) => Some(s@),
                None => None,
            },
            body: self.body@,
        }
    }
}

/// A plain-text HTTP response with the given status.
pub open spec fn text_reply(status: u16, text: Seq<char>) -> HttpReplyV {
    HttpReplyV { status, content_type: None, body: encode_utf8(text) }
}

/// The HTTP response that carries IPP response bytes.
pub open spec fn ipp_reply(bytes: Seq<u8>) -> HttpReplyV {
    HttpReplyV { status: 200, content_type: Some("application/ipp"@), body: bytes }
}

/// Builds a plain-text HTTP response.
fn text_response(status: u16, text: &str) -> (r: HttpReply)
    ensures
        r@ == text_reply(status, text@),
{
    let s = String::from_str(text);
    HttpReply { status, content_type: None, body: string_bytes(&s) }
}

/// Builds the HTTP response that carries IPP response bytes.
pub fn ipp_response(bytes: Vec<u8>) -> (r: HttpReply)
    ensures
        r@ == ipp_reply(bytes@),
{
    HttpReply { status: 200, content_type: Some(String::from_str("application/ipp")), body: bytes }
}

/// The path IPP is served on.
pub open spec fn is_ipp_path(path: Seq<char>) -> bool {
    path == "/ipp/print"@
}

/// What the request line and headers decide: only `POST /ipp/print` with an
/// `application/ipp` content type gets through (`None`); anything else is answered here.
pub open spec fn spec_screen_request(method: Seq<char>, path: Seq<char>, content_type: Seq<char>) -> Option<
    HttpReplyV,
> {
    if !(method == "POST"@ && is_ipp_path(path)) {
        Some(text_reply(404, "Not Found"@))
    } else if !has_prefix(content_type, "application/ipp"@) {
        Some(text_reply(400, "Expected application/ipp"@))
    } else {
        None
    }
}

/// Checks the request line and headers (`content_type` empty when absent).
pub fn screen_request(method: &str, path: &str, content_type: &str) -> (r: Option<HttpReply>)
    ensures
        match spec_screen_request(method@, path@, content_type@) {
            Some(v) => r matches Some(x) && x@ == v,
            None => r is None,
        },
{
    // Only accept POST /ipp/print
    if !(str_eq(method, "POST") && str_eq(path, "/ipp/print")) {
        return Some(text_response(404, "Not Found"));
    }
    // Check Content-Type
    if !starts_with(content_type, "application/ipp") {
        return Some(text_response(400, "Expected application/ipp"));
    }
    None
}

/// What handling a request body comes to: an HTTP response, or a job to store with its
/// document.
pub enum HttpStep {
    Reply(HttpReply),
    Store(PendingJob, Vec<u8>),
}

/// Abstract form of what handling a request body comes to.
pub enum HttpStepV {
    Reply(HttpReplyV),
    Store(PendingJobV, Seq<u8>),
}

/// What a request body (`None` when it could not be read) comes to.
pub open spec fn spec_handle_body(
    body: Option<Seq<u8>>,
    printer_name: Seq<char>,
    printer_uri: Seq<char>,
    jobs: Map<u32, crate::ipp::printer::JobInfo>,
    next_id: u32,
    now: u64,
) -> HttpStepV {
    match body {
        None => HttpStepV::Reply(text_reply(500, "Failed to read body"@)),
        Some(b) => if b.len() > MAX_BODY_BYTES {
            HttpStepV::Reply(text_reply(413, "Request body too large"@))
        } else {
            match spec_parse_request(b) {
                Err(_) => HttpStepV::Reply(text_reply(400, "Invalid IPP request"@)),
                Ok(req) => match spec_dispatch(req, printer_name, printer_uri, jobs, next_id, now) {
                    DispatchV::Reply(resp) => HttpStepV::Reply(ipp_reply(response_encoding(resp))),
                    DispatchV::Store(p) => HttpStepV::Store(p, req.document_data),
                },
            }
        },
    }
}

/// Handles a request body that got past [`screen_request`]: refuses bodies that could not be
/// read, are too large or are no IPP request; dispatches the rest at time `now`.
pub fn handle_body(body: Option<&[u8]>, printer: &mut PrinterState, now: u64) -> (r: HttpStep)
    ensures
        match spec_handle_body(
            match body {
                Some(b) => Some(b@),
                None => None,
            },
            old(printer).printer_name@,
            old(printer).printer_uri@,
            old(printer).jobs(),
            old(printer).job_counter,
            now,
        ) {
            HttpStepV::Reply(v) => r matches HttpStep::Reply(x) && x@ == v,
            HttpStepV::Store(p, doc) => r matches HttpStep::Store(x, d) && x@ == p && d@ == doc,
        },
        final(printer).job_counter == (if r is Store {
            old(printer).job_counter.wrapping_add(1)
        } else {
            old(printer).job_counter
        }),
        final(printer).printer_name == old(printer).printer_name,
        final(printer).printer_uri == old(printer).printer_uri,
        final(printer).storage_dir == old(printer).storage_dir,
        final(printer).active_jobs == old(printer).active_jobs,
{
    let body_bytes = match body {
        Some(b) => b,
        None => return HttpStep::Reply(text_response(500, "Failed to read body")),
    };
    if body_bytes.len() > MAX_BODY_BYTES {
        return HttpStep::Reply(text_response(413, "Request body too large"));
    }
    // Parse IPP
    let ipp_request: IppRequest = match parse_ipp_request(body_bytes) {
        Ok(r) => r,
        Err(_) => return HttpStep::Reply(text_response(400, "Invalid IPP request")),
    };
    // Dispatch IPP operation
    match dispatch(&ipp_request, printer, now) {
        DispatchOutcome::Reply(bytes) => HttpStep::Reply(ipp_response(bytes)),
        DispatchOutcome::Store(job) => HttpStep::Store(job, ipp_request.document_data),
    }
}

} // verus!
