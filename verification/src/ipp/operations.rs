use vstd::prelude::*;
use std::path::PathBuf;
use vstd::string::StringExecFns;
use crate::ipp::types::{
    AttrV, DelimiterTag, GroupV, IppAttribute, IppAttributeGroup, IppOperationId, IppRequest,
    IppResponse, IppStatusCode, IppValue, IppVersion, RequestV, ResponseV, ValueV, first_group,
    group_get,
};
use crate::ipp::response::{IppResponseBuilder, serialize_response, standard_operation_attrs, standard_operation_group};
use crate::ipp::wire::response_encoding;
use crate::ipp::printer::{JobInfo, JobState, PrinterState, job_state_code};
use crate::text::{decimal, push_decimal};
use crate::ipp::types::{attrs_view, values_view};
use crate::ipp::catalog::{printer_catalog, printer_attribute_catalog};

verus! {

/// The operation-attributes group of a response that carries a status message.
pub open spec fn message_group(message: Seq<char>) -> GroupV {
    GroupV {
        delimiter: DelimiterTag::OperationAttributes,
        attributes: standard_operation_group().attributes.push(
            AttrV { name: "status-message"@, values: seq![ValueV::TextWithoutLanguage(message)] },
        ),
    }
}

/// An IPP/2.0 response with the given status and groups.
pub open spec fn response_of(status: IppStatusCode, request_id: u32, groups: Seq<GroupV>) -> ResponseV {
    ResponseV {
        version: IppVersion { major: 2, minor: 0 },
        status_code: status,
        request_id,
        attribute_groups: groups,
    }
}

/// The response to a failed request: the status and a message.
pub open spec fn spec_error_response(request_id: u32, status: IppStatusCode, message: Seq<char>) -> ResponseV {
    response_of(status, request_id, seq![message_group(message)])
}

/// The operation-attributes group with a status message.
fn message_attrs(request_id: u32, message: &str) -> (g: IppAttributeGroup)
    ensures
        g@ == message_group(message@),
{
    let mut op = standard_operation_attrs(request_id);
    op.add(IppAttribute::new("status-message", IppValue::TextWithoutLanguage(String::from_str(message))));
    op
}

/// The response to a failed request: the status and a message.
pub fn error_response(request_id: u32, status: IppStatusCode, message: &str) -> (r: IppResponse)
    ensures
        r@ == spec_error_response(request_id, status, message@),
{
    let op = message_attrs(request_id, message);
    let r = IppResponseBuilder::new(status, request_id).add_group(op).build();
    proof {
        assert(r@.attribute_groups =~= seq![message_group(message@)]);
    }
    r
}

/// The response to Validate-Job: successful-ok.
pub open spec fn spec_validate_job_response(request_id: u32) -> ResponseV {
    spec_error_response(request_id, IppStatusCode::SuccessfulOk, "successful-ok"@)
}

/// Validate-Job: every job is acceptable.
pub fn handle_validate_job(request: &IppRequest) -> (r: IppResponse)
    ensures
        r@ == spec_validate_job_response(request.request_id),
{
    error_response(request.request_id, IppStatusCode::SuccessfulOk, "successful-ok")
}

/// The response to an operation the printer does not support.
pub open spec fn spec_unsupported_response(request_id: u32) -> ResponseV {
    spec_error_response(
        request_id,
        IppStatusCode::ServerErrorOperationNotSupported,
        "server-error-operation-not-supported"@,
    )
}

/// The job id a Get-Job-Attributes request names: the first value of the first `job-id`
/// attribute of its first operation-attributes group, when that is an integer.
pub open spec fn requested_job_id(r: RequestV) -> Option<u32> {
    match first_group(r.attribute_groups, DelimiterTag::OperationAttributes) {
        Some(g) => match group_get(g, "job-id"@) {
            Some(ValueV::Integer(i)) => Some(i as u32),
            _ => None,
        },
        None => None,
    }
}

/// The URI of a job: the printer URI, `/jobs/` and the id.
pub open spec fn spec_job_uri(printer_uri: Seq<char>, job_id: u32) -> Seq<char> {
    printer_uri + "/jobs/"@ + decimal(job_id as nat)
}

/// Builds the URI of a job.
fn job_uri(printer_uri: &String, job_id: u32) -> (s: String)
    ensures
        s@ == spec_job_uri(printer_uri@, job_id),
{
    let mut s = printer_uri.clone();
    s.append("/jobs/");
    push_decimal(&mut s, job_id as u64);
    s
}

/// The size of a job in kilo-octets as IPP reports it: at least one.
pub open spec fn k_octets(size_bytes: u64) -> i32 {
    (if size_bytes / 1024 >= 1 { size_bytes / 1024 } else { 1 }) as i32
}

/// The job-attributes group of Get-Job-Attributes for a job.
pub open spec fn job_description_group(printer_uri: Seq<char>, job: JobInfo) -> GroupV {
    GroupV {
        delimiter: DelimiterTag::JobAttributes,
        attributes: seq![
            AttrV { name: "job-id"@, values: seq![ValueV::Integer(job.id as i32)] },
            AttrV { name: "job-uri"@, values: seq![ValueV::Uri(spec_job_uri(printer_uri, job.id))] },
            AttrV { name: "job-state"@, values: seq![ValueV::Enum(job_state_code(job.state))] },
            AttrV {
                name: "job-state-reasons"@,
                values: seq![ValueV::Keyword("job-completed-successfully"@)],
            },
            AttrV { name: "job-name"@, values: seq![ValueV::NameWithoutLanguage(job.name@)] },
            AttrV {
                name: "job-originating-user-name"@,
                values: seq![ValueV::NameWithoutLanguage(job.originating_user@)],
            },
            AttrV { name: "job-k-octets"@, values: seq![ValueV::Integer(k_octets(job.size_bytes))] },
            AttrV { name: "time-at-creation"@, values: seq![ValueV::Integer(job.time_created as i32)] },
        ],
    }
}

/// The response to Get-Job-Attributes, given the printer URI and its jobs.
pub open spec fn spec_get_job_attributes_response(
    r: RequestV,
    printer_uri: Seq<char>,
    jobs: Map<u32, JobInfo>,
) -> ResponseV {
    match requested_job_id(r) {
        None => spec_error_response(r.request_id, IppStatusCode::ClientErrorBadRequest, "Missing job-id"@),
        Some(id) => if jobs.dom().contains(id) {
            response_of(
                IppStatusCode::SuccessfulOk,
                r.request_id,
                seq![message_group("successful-ok"@), job_description_group(printer_uri, jobs[id])],
            )
        } else {
            spec_error_response(r.request_id, IppStatusCode::ClientErrorNotFound, "Job not found"@)
        },
    }
}

/// Get-Job-Attributes: the description of the job the request names.
pub fn handle_get_job_attributes(request: &IppRequest, printer: &PrinterState) -> (r: IppResponse)
    ensures
        r@ == spec_get_job_attributes_response(request@, printer.printer_uri@, printer.jobs()),
{
    let job_id: Option<u32> = match request.get_operation_attributes() {
        None => None,
        Some(g) => match g.get("job-id") {
            Some(IppValue::Integer(i)) => Some(*i as u32),
            _ => None,
        },
    };
    let job_id = match job_id {
        Some(id) => id,
        None => return error_response(request.request_id, IppStatusCode::ClientErrorBadRequest, "Missing job-id"),
    };
    let job = match printer.job(job_id) {
        Some(j) => j,
        None => return error_response(request.request_id, IppStatusCode::ClientErrorNotFound, "Job not found"),
    };
    let op = message_attrs(request.request_id, "successful-ok");
    let mut job_group = IppAttributeGroup::new(DelimiterTag::JobAttributes);
    job_group.add(IppAttribute::new("job-id", IppValue::Integer(job.id as i32)));
    job_group.add(IppAttribute::new("job-uri", IppValue::Uri(job_uri(&printer.printer_uri, job.id))));
    job_group.add(IppAttribute::new("job-state", IppValue::Enum(job.state.code())));
    job_group.add(
        IppAttribute::new(
            "job-state-reasons",
            IppValue::Keyword(String::from_str("job-completed-successfully")),
        ),
    );
    job_group.add(IppAttribute::new("job-name", IppValue::NameWithoutLanguage(job.name.clone())));
    job_group.add(
        IppAttribute::new(
            "job-originating-user-name",
            IppValue::NameWithoutLanguage(job.originating_user.clone()),
        ),
    );
    let k: u64 = if job.size_bytes / 1024 >= 1 { job.size_bytes / 1024 } else { 1 };
    job_group.add(IppAttribute::new("job-k-octets", IppValue::Integer(k as i32)));
    job_group.add(IppAttribute::new("time-at-creation", IppValue::Integer(job.time_created as i32)));
    let r = IppResponseBuilder::new(IppStatusCode::SuccessfulOk, request.request_id)
        .add_group(op)
        .add_group(job_group)
        .build();
    proof {
        assert(job_group@.attributes =~= job_description_group(printer.printer_uri@, job).attributes);
        assert(r@.attribute_groups =~= seq![
            message_group("successful-ok"@),
            job_description_group(printer.printer_uri@, job),
        ]);
    }
    r
}

} // verus!

verus! {

/// The text a name-or-text value holds, or `default` for anything else.
pub open spec fn name_or(v: Option<ValueV>, default: Seq<char>) -> Seq<char> {
    match v {
        Some(ValueV::NameWithoutLanguage(s)) => s,
        Some(ValueV::TextWithoutLanguage(s)) => s,
        _ => default,
    }
}

/// The document format a Print-Job names: its `document-format` MIME type, or
/// `application/octet-stream`.
pub open spec fn requested_format(g: GroupV) -> Seq<char> {
    match group_get(g, "document-format"@) {
        Some(ValueV::MimeMediaType(s)) => s,
        _ => "application/octet-stream"@,
    }
}

/// The formats the printer stores: PDF, raw PostScript (stored, not rendered), and
/// octet-stream as a generic fallback.
pub open spec fn format_accepted(f: Seq<char>) -> bool {
    f == "application/pdf"@ || f == "application/postscript"@ || f == "application/octet-stream"@
}

/// A character as it may stand in a file name, given whether it is alphanumeric:
/// alphanumerics, `-`, `_` and `.` stay, anything else becomes `_`.
pub open spec fn safe_char(c: char, alphanumeric: bool) -> char {
    if alphanumeric || c == '-' || c == '_' || c == '.' {
        c
    } else {
        '_'
    }
}

/// A character as it may stand in a file name.
pub open spec fn file_name_char(c: char) -> char {
    safe_char(c, crate::text::alphanumeric(c))
}

/// A character as it may stand in a file name, given whether it is alphanumeric.
pub fn file_name_char_of(c: char, alphanumeric: bool) -> (r: char)
    ensures
        r == safe_char(c, alphanumeric),
{
    if alphanumeric || c == '-' || c == '_' || c == '.' {
        c
    } else {
        '_'
    }
}

/// The job name as it stands in the file name: its first 64 characters, each made safe.
pub open spec fn sanitized_name(name: Seq<char>) -> Seq<char> {
    let t = if name.len() <= 64 {
        name
    } else {
        name.take(64)
    };
    Seq::new(t.len(), |i: int| file_name_char(t[i]))
}

/// The file a job's document is stored in: `{now}_{name}.pdf`, the name sanitized.
pub open spec fn job_file_name(now: u64, name: Seq<char>) -> Seq<char> {
    decimal(now as nat) + "_"@ + sanitized_name(name) + ".pdf"@
}

/// The free space a document needs: twice its size and 10 MiB of headroom (capped at the
/// largest `u64`).
pub open spec fn space_needed(size_bytes: u64) -> u64 {
    if size_bytes * 2 + 10 * 1024 * 1024 <= u64::MAX {
        (size_bytes * 2 + 10 * 1024 * 1024) as u64
    } else {
        u64::MAX
    }
}

/// Whether the free space (unknown when `None`) is enough.
pub open spec fn has_room(required: u64, available: Option<u64>) -> bool {
    match available {
        Some(a) => a >= required,
        None => true,
    }
}

/// The free space of a file system that reports `blocks_available` free blocks of
/// `fragment_size` bytes each, saturating at `u64::MAX`.
pub open spec fn free_bytes(blocks_available: u64, fragment_size: u64) -> u64 {
    if blocks_available * fragment_size > u64::MAX {
        u64::MAX
    } else {
        (blocks_available * fragment_size) as u64
    }
}

/// The free space, in bytes, of a file system from its block counts.
pub fn available_space(blocks_available: u64, fragment_size: u64) -> (r: u64)
    ensures
        r == free_bytes(blocks_available, fragment_size),
{
    match blocks_available.checked_mul(fragment_size) {
        Some(v) => v,
        None => u64::MAX,
    }
}

/// A print job the printer has accepted, whose document is yet to be stored.
pub struct PendingJob {
    pub request_id: u32,
    pub job_id: u32,
    pub name: String,
    pub originating_user: String,
    pub time_created: u64,
    pub file_name: String,
    pub size_bytes: u64,
    pub required_space: u64,
}

/// Abstract form of a pending job.
pub struct PendingJobV {
    pub request_id: u32,
    pub job_id: u32,
    pub name: Seq<char>,
    pub originating_user: Seq<char>,
    pub time_created: u64,
    pub file_name: Seq<char>,
    pub size_bytes: u64,
    pub required_space: u64,
}

impl View for PendingJob {
    type V = PendingJobV;

    open spec fn view(&self) -> PendingJobV {
        PendingJobV {
            request_id: self.request_id,
            job_id: self.job_id,
            name: self.name@,
            originating_user: self.originating_user@,
            time_created: self.time_created,
            file_name: self.file_name@,
            size_bytes: self.size_bytes,
            required_space: self.required_space,
        }
    }
}

impl PendingJob {
    /// Whether the job's document fits in the free space (`None` when it is unknown, in
    /// which case storing is tried).
    pub fn fits(&self, available: Option<u64>) -> (r: bool)
        ensures
            r == has_room(self.required_space, available),
    {
        match available {
            Some(a) => a >= self.required_space,
            None => true,
        }
    }
}

/// What a Print-Job request comes to, given the next job id and the time: a job to store,
/// or the response that refuses it.
pub open spec fn spec_prepare_print_job(r: RequestV, next_id: u32, now: u64) -> Result<
    PendingJobV,
    ResponseV,
> {
    match first_group(r.attribute_groups, DelimiterTag::OperationAttributes) {
        None => Err(
            spec_error_response(
                r.request_id,
                IppStatusCode::ClientErrorBadRequest,
                "Missing operation-attributes"@,
            ),
        ),
        Some(g) => if !format_accepted(requested_format(g)) {
            Err(
                spec_error_response(
                    r.request_id,
                    IppStatusCode::ClientErrorDocumentFormatNotSupported,
                    "Only application/pdf is accepted; retry with document-format-default"@,
                ),
            )
        } else if r.document_data.len() == 0 {
            Err(spec_error_response(r.request_id, IppStatusCode::ClientErrorBadRequest, "No document data"@))
        } else {
            let name = name_or(group_get(g, "job-name"@), "Untitled"@);
            Ok(
                PendingJobV {
                    request_id: r.request_id,
                    job_id: next_id,
                    name,
                    originating_user: name_or(group_get(g, "requesting-user-name"@), "unknown"@),
                    time_created: now,
                    file_name: job_file_name(now, name),
                    size_bytes: r.document_data.len() as u64,
                    required_space: space_needed(r.document_data.len() as u64),
                },
            )
        },
    }
}

/// The text of a name-or-text value, or `default` for anything else.
fn name_or_default(v: Option<&IppValue>, default: &str) -> (s: String)
    ensures
        s@ == name_or(
            match v {
                Some(x) => Some(x@),
                None => None,
            },
            default@,
        ),
{
    match v {
        Some(IppValue::NameWithoutLanguage(s)) => s.clone(),
        Some(IppValue::TextWithoutLanguage(s)) => s.clone(),
        _ => String::from_str(default),
    }
}

/// The job name as it stands in the file name.
fn sanitize_job_name(name: &str) -> (s: String)
    ensures
        s@ == sanitized_name(name@),
{
    let n = name.unicode_len();
    let limit = if n <= 64 {
        n
    } else {
        64
    };
    let ghost t = if name@.len() <= 64 {
        name@
    } else {
        name@.take(64)
    };
    let mut s = String::new();
    let mut i: usize = 0;
    while i < limit
        invariant
            n == name@.len(),
            limit == t.len(),
            t == (if name@.len() <= 64 { name@ } else { name@.take(64) }),
            i <= limit,
            s@ == Seq::new(i as nat, |k: int| file_name_char(t[k])),
        decreases limit - i,
    {
        let c = name.get_char(i);
        let alnum = crate::text::char_is_alphanumeric(c);
        let safe = file_name_char_of(c, alnum);
        crate::text::push_char(&mut s, safe);
        proof {
            assert(t[i as int] == c);
            assert(s@ =~= Seq::new((i + 1) as nat, |k: int| file_name_char(t[k])));
        }
        i = i + 1;
    }
    s
}

/// Print-Job, up to the point where the document is to be stored: reads the job name,
/// user and format, refuses formats other than PDF, PostScript or octet-stream, and empty
/// documents,
/// and otherwise takes the next job id and names the file.
pub fn prepare_print_job(request: &IppRequest, printer: &mut PrinterState, now: u64) -> (r: Result<
    PendingJob,
    IppResponse,
>)
    ensures
        match spec_prepare_print_job(request@, old(printer).job_counter, now) {
            Ok(p) => r matches Ok(x) && x@ == p && final(printer).job_counter
                == old(printer).job_counter.wrapping_add(1),
            Err(e) => r matches Err(x) && x@ == e && final(printer).job_counter
                == old(printer).job_counter,
        },
        final(printer).printer_name == old(printer).printer_name,
        final(printer).printer_uri == old(printer).printer_uri,
        final(printer).storage_dir == old(printer).storage_dir,
        final(printer).active_jobs == old(printer).active_jobs,
{
    let op_attrs = match request.get_operation_attributes() {
        Some(g) => g,
        None => {
            return Err(
                error_response(
                    request.request_id,
                    IppStatusCode::ClientErrorBadRequest,
                    "Missing operation-attributes",
                ),
            );
        },
    };
    let job_name = name_or_default(op_attrs.get("job-name"), "Untitled");
    let requesting_user = name_or_default(op_attrs.get("requesting-user-name"), "unknown");
    let doc_format = match op_attrs.get("document-format") {
        Some(IppValue::MimeMediaType(s)) => s.clone(),
        _ => String::from_str("application/octet-stream"),
    };
    // PDF is stored; raw PostScript is stored but not rendered; octet-stream is the generic
    // fallback. Anything else is refused, so that clients retry with
    // document-format-default.
    let f = doc_format.as_str();
    if !(crate::text::str_eq(f, "application/pdf") || crate::text::str_eq(f, "application/postscript")
        || crate::text::str_eq(f, "application/octet-stream")) {
        return Err(
            error_response(
                request.request_id,
                IppStatusCode::ClientErrorDocumentFormatNotSupported,
                "Only application/pdf is accepted; retry with document-format-default",
            ),
        );
    }
    if request.document_data.len() == 0 {
        return Err(
            error_response(request.request_id, IppStatusCode::ClientErrorBadRequest, "No document data"),
        );
    }
    let job_id = printer.next_job_id();
    let safe_name = sanitize_job_name(job_name.as_str());
    let mut file_name = String::new();
    push_decimal(&mut file_name, now);
    file_name.append("_");
    file_name.append(safe_name.as_str());
    file_name.append(".pdf");
    let size_bytes = request.document_data.len() as u64;
    // Check available disk space later: at least 2x document size + 10MB headroom.
    let required_space: u64 = if size_bytes <= (u64::MAX - 10 * 1024 * 1024) / 2 {
        size_bytes * 2 + 10 * 1024 * 1024
    } else {
        u64::MAX
    };
    proof {
        assert(file_name@ =~= job_file_name(now, job_name@));
    }
    Ok(
        PendingJob {
            request_id: request.request_id,
            job_id,
            name: job_name,
            originating_user: requesting_user,
            time_created: now,
            file_name,
            size_bytes,
            required_space,
        },
    )
}

} // verus!

verus! {

/// Callback when a print job completes
pub trait PrintJobCallback: Send + Sync {
    fn on_job_received(&self, job_id: u32, file_path: String, file_name: String, size_bytes: u64);
}

/// Where a job's document was written: the path, and the path as text for the callback.
pub struct StoredDocument {
    pub path: PathBuf,
    pub path_text: String,
}

/// The job-attributes group of a completed Print-Job.
pub open spec fn job_created_group(printer_uri: Seq<char>, job_id: u32) -> GroupV {
    GroupV {
        delimiter: DelimiterTag::JobAttributes,
        attributes: seq![
            AttrV { name: "job-id"@, values: seq![ValueV::Integer(job_id as i32)] },
            AttrV { name: "job-uri"@, values: seq![ValueV::Uri(spec_job_uri(printer_uri, job_id))] },
            AttrV { name: "job-state"@, values: seq![ValueV::Enum(job_state_code(JobState::Completed))] },
            AttrV {
                name: "job-state-reasons"@,
                values: seq![ValueV::Keyword("job-completed-successfully"@)],
            },
        ],
    }
}

/// The response to a Print-Job whose document was stored.
pub open spec fn spec_print_job_response(request_id: u32, printer_uri: Seq<char>, job_id: u32) -> ResponseV {
    response_of(
        IppStatusCode::SuccessfulOk,
        request_id,
        seq![message_group("successful-ok"@), job_created_group(printer_uri, job_id)],
    )
}

/// The response to Print-Job once storing was tried: refused for want of space (the free
/// space, when known, below what the job needs), failed when the document could not be
/// written, completed otherwise.
pub open spec fn spec_finish_response(
    job: PendingJobV,
    printer_uri: Seq<char>,
    available: Option<u64>,
    stored: bool,
) -> ResponseV {
    if !has_room(job.required_space, available) {
        spec_error_response(
            job.request_id,
            IppStatusCode::ServerErrorInternalError,
            "Insufficient storage space"@,
        )
    } else if !stored {
        spec_error_response(
            job.request_id,
            IppStatusCode::ServerErrorInternalError,
            "Failed to save document"@,
        )
    } else {
        spec_print_job_response(job.request_id, printer_uri, job.job_id)
    }
}

/// What the printer keeps of a completed job stored at `path`.
pub open spec fn completed_job(job: PendingJob, path: PathBuf) -> JobInfo {
    JobInfo {
        id: job.job_id,
        state: JobState::Completed,
        name: job.name,
        originating_user: job.originating_user,
        time_created: job.time_created,
        file_path: Some(path),
        size_bytes: job.size_bytes,
    }
}

/// What the job callback is told of a stored document: the job's id, where the document
/// was written (as text), the file's name and the document's size.
pub struct JobNotice {
    pub job_id: u32,
    pub file_path: String,
    pub file_name: String,
    pub size_bytes: u64,
}

/// Abstract form of a job notice.
pub struct JobNoticeV {
    pub job_id: u32,
    pub file_path: Seq<char>,
    pub file_name: Seq<char>,
    pub size_bytes: u64,
}

impl View for JobNotice {
    type V = JobNoticeV;

    open spec fn view(&self) -> JobNoticeV {
        JobNoticeV {
            job_id: self.job_id,
            file_path: self.file_path@,
            file_name: self.file_name@,
            size_bytes: self.size_bytes,
        }
    }
}

/// The notice of a job whose document was stored at the path `path_text`: the callback is
/// told only of a job that completed (there was room, and the document was written).
pub open spec fn spec_job_notice(
    job: PendingJobV,
    available: Option<u64>,
    stored_path: Option<Seq<char>>,
) -> Option<JobNoticeV> {
    match stored_path {
        Some(p) => if has_room(job.required_space, available) {
            Some(
                JobNoticeV {
                    job_id: job.job_id,
                    file_path: p,
                    file_name: job.file_name,
                    size_bytes: job.size_bytes,
                },
            )
        } else {
            None
        },
        None => None,
    }
}

/// The path text of a stored document, if any.
pub open spec fn stored_path_text(stored: Option<StoredDocument>) -> Option<Seq<char>> {
    match stored {
        Some(d) => Some(d.path_text@),
        None => None,
    }
}

/// Print-Job, once storing was tried: `available` is the free space where documents go
/// (when known), `stored` where the document was written (`None` when that failed, or was
/// not tried for want of space). A completed job is recorded and described in the
/// response, and comes with the notice for the job callback; a job that did not complete
/// comes with no notice.
pub fn finish_print_job(
    printer: &mut PrinterState,
    job: &PendingJob,
    available: Option<u64>,
    stored: Option<StoredDocument>,
) -> (out: (IppResponse, Option<JobNotice>))
    ensures
        out.0@ == spec_finish_response(job@, old(printer).printer_uri@, available, stored is Some),
        match spec_job_notice(job@, available, stored_path_text(stored)) {
            Some(n) => out.1 matches Some(x) && x@ == n,
            None => out.1 is None,
        },
        has_room(job.required_space, available) && stored is Some ==> final(printer).jobs()
            == old(printer).jobs().insert(job.job_id, completed_job(*job, stored->Some_0.path)),
        !(has_room(job.required_space, available) && stored is Some) ==> final(printer).jobs()
            == old(printer).jobs(),
        final(printer).printer_name == old(printer).printer_name,
        final(printer).printer_uri == old(printer).printer_uri,
        final(printer).storage_dir == old(printer).storage_dir,
        final(printer).job_counter == old(printer).job_counter,
{
    if !job.fits(available) {
        return (
            error_response(
                job.request_id,
                IppStatusCode::ServerErrorInternalError,
                "Insufficient storage space",
            ),
            None,
        );
    }
    let doc = match stored {
        Some(d) => d,
        None => {
            return (
                error_response(
                    job.request_id,
                    IppStatusCode::ServerErrorInternalError,
                    "Failed to save document",
                ),
                None,
            );
        },
    };
    let ghost path = doc.path;
    let info = JobInfo {
        id: job.job_id,
        state: JobState::Completed,
        name: job.name.clone(),
        originating_user: job.originating_user.clone(),
        time_created: job.time_created,
        file_path: Some(doc.path),
        size_bytes: job.size_bytes,
    };
    proof {
        assert(info == completed_job(*job, path));
    }
    printer.record_job(info);
    let notice = JobNotice {
        job_id: job.job_id,
        file_path: doc.path_text,
        file_name: job.file_name.clone(),
        size_bytes: job.size_bytes,
    };
    let op = message_attrs(job.request_id, "successful-ok");
    let mut job_group = IppAttributeGroup::new(DelimiterTag::JobAttributes);
    job_group.add(IppAttribute::new("job-id", IppValue::Integer(job.job_id as i32)));
    job_group.add(IppAttribute::new("job-uri", IppValue::Uri(job_uri(&printer.printer_uri, job.job_id))));
    job_group.add(IppAttribute::new("job-state", IppValue::Enum(JobState::Completed.code())));
    job_group.add(
        IppAttribute::new(
            "job-state-reasons",
            IppValue::Keyword(String::from_str("job-completed-successfully")),
        ),
    );
    let r = IppResponseBuilder::new(IppStatusCode::SuccessfulOk, job.request_id)
        .add_group(op)
        .add_group(job_group)
        .build();
    proof {
        assert(job_group@.attributes =~= job_created_group(printer.printer_uri@, job.job_id).attributes);
        assert(r@.attribute_groups =~= seq![
            message_group("successful-ok"@),
            job_created_group(printer.printer_uri@, job.job_id),
        ]);
    }
    (r, Some(notice))
}

/// Tells the callback, when there is one, of a completed job: once, with the notice's job
/// id, path, file name and size; nothing is told when there is no notice.
pub fn notify<C: PrintJobCallback + ?Sized>(callback: Option<&C>, notice: Option<JobNotice>) {
    match (callback, notice) {
        (Some(cb), Some(n)) => cb.on_job_received(n.job_id, n.file_path, n.file_name, n.size_bytes),
        _ => {},
    }
}

} // verus!

verus! {

/// The keywords among some values.
pub open spec fn keywords_of(vals: Seq<ValueV>) -> Seq<Seq<char>>
    decreases vals.len(),
{
    if vals.len() == 0 {
        Seq::empty()
    } else {
        keywords_of(vals.drop_last()) + match vals.last() {
            ValueV::Keyword(s) => seq![s],
            _ => Seq::empty(),
        }
    }
}

/// The keywords of every `requested-attributes` attribute among some attributes.
pub open spec fn requested_in(attrs: Seq<AttrV>) -> Seq<Seq<char>>
    decreases attrs.len(),
{
    if attrs.len() == 0 {
        Seq::empty()
    } else {
        requested_in(attrs.drop_last()) + if attrs.last().name == "requested-attributes"@ {
            keywords_of(attrs.last().values)
        } else {
            Seq::empty()
        }
    }
}

/// The attribute names a Get-Printer-Attributes request asks for (none: all of them).
pub open spec fn requested_attributes(r: RequestV) -> Seq<Seq<char>> {
    match first_group(r.attribute_groups, DelimiterTag::OperationAttributes) {
        Some(g) => requested_in(g.attributes),
        None => Seq::empty(),
    }
}

/// Whether an attribute is to be answered: nothing was asked for, or it was, or `all` was.
pub open spec fn attribute_wanted(requested: Seq<Seq<char>>, name: Seq<char>) -> bool {
    requested.len() == 0 || requested.contains(name) || requested.contains("all"@)
}

/// The printer attributes answered to a request that asks for `requested`.
pub open spec fn answered_attributes(
    requested: Seq<Seq<char>>,
    printer_name: Seq<char>,
    printer_uri: Seq<char>,
    now: u64,
) -> Seq<AttrV> {
    printer_catalog(printer_name, printer_uri, now).filter(
        |a: AttrV| attribute_wanted(requested, a.name),
    )
}

/// The response to Get-Printer-Attributes at time `now`.
pub open spec fn spec_get_printer_attributes_response(
    r: RequestV,
    printer_name: Seq<char>,
    printer_uri: Seq<char>,
    now: u64,
) -> ResponseV {
    response_of(
        IppStatusCode::SuccessfulOk,
        r.request_id,
        seq![
            standard_operation_group(),
            GroupV {
                delimiter: DelimiterTag::PrinterAttributes,
                attributes: answered_attributes(
                    requested_attributes(r),
                    printer_name,
                    printer_uri,
                    now,
                ),
            },
        ],
    )
}

/// The abstract form of a sequence of strings.
pub open spec fn strings_view(v: Seq<String>) -> Seq<Seq<char>> {
    v.map_values(|s: String| s@)
}

/// Collects the attribute names a request asks for.
fn collect_requested(request: &IppRequest) -> (r: Vec<String>)
    ensures
        strings_view(r@) == requested_attributes(request@),
{
    let mut out: Vec<String> = Vec::new();
    proof {
        assert(strings_view(out@) =~= Seq::<Seq<char>>::empty());
    }
    let g = match request.get_operation_attributes() {
        Some(g) => g,
        None => return out,
    };
    let ghost av = g@.attributes;
    let mut i: usize = 0;
    while i < g.attributes.len()
        invariant
            av == g@.attributes,
            i <= g.attributes@.len(),
            strings_view(out@) == requested_in(av.take(i as int)),
        decreases g.attributes@.len() - i,
    {
        let a = &g.attributes[i];
        let ghost before = strings_view(out@);
        let ghost vv = a@.values;
        if crate::text::str_eq(a.name.as_str(), "requested-attributes") {
            let mut j: usize = 0;
            while j < a.values.len()
                invariant
                    vv == a@.values,
                    j <= a.values@.len(),
                    strings_view(out@) == before + keywords_of(vv.take(j as int)),
                decreases a.values@.len() - j,
            {
                let ghost mid = strings_view(out@);
                match &a.values[j] {
                    IppValue::Keyword(s) => {
                        out.push(s.clone());
                        proof {
                            assert(strings_view(out@) =~= mid.push(s@));
                            assert(a.values@[j as int]@ == ValueV::Keyword(s@));
                        }
                    },
                    _ => {
                        proof {
                            assert(!(a.values@[j as int]@ is Keyword));
                        }
                    },
                }
                proof {
                    assert(vv.take(j + 1).drop_last() =~= vv.take(j as int));
                    assert(vv.take(j + 1).last() == a.values@[j as int]@);
                    assert(strings_view(out@) =~= before + keywords_of(vv.take(j + 1)));
                }
                j = j + 1;
            }
            proof {
                assert(vv.take(a.values@.len() as int) =~= vv);
            }
        }
        proof {
            assert(av.take(i + 1).drop_last() =~= av.take(i as int));
            assert(av.take(i + 1).last() == g.attributes@[i as int]@);
            assert(strings_view(out@) =~= requested_in(av.take(i + 1)));
        }
        i = i + 1;
    }
    proof {
        assert(av.take(g.attributes@.len() as int) =~= av);
    }
    out
}

/// Whether an attribute is to be answered.
fn wanted(requested: &Vec<String>, name: &str) -> (w: bool)
    ensures
        w == attribute_wanted(strings_view(requested@), name@),
{
    if requested.len() == 0 {
        return true;
    }
    let ghost sv = strings_view(requested@);
    let mut i: usize = 0;
    while i < requested.len()
        invariant
            sv == strings_view(requested@),
            i <= requested@.len(),
            forall|k: int| 0 <= k < i ==> sv[k] != name@ && sv[k] != "all"@,
        decreases requested@.len() - i,
    {
        let r = requested[i].as_str();
        if crate::text::str_eq(r, name) || crate::text::str_eq(r, "all") {
            proof {
                assert(sv[i as int] == r@);
            }
            return true;
        }
        i = i + 1;
    }
    proof {
        assert(!sv.contains(name@));
        assert(!sv.contains("all"@));
    }
    false
}

/// Get-Printer-Attributes: the printer's attributes, only those the request asks for
/// (all when it asks for none, or for `all`), at time `now` (seconds since the epoch).
pub fn handle_get_printer_attributes(request: &IppRequest, printer: &PrinterState, now: u64) -> (r: IppResponse)
    ensures
        r@ == spec_get_printer_attributes_response(
            request@,
            printer.printer_name@,
            printer.printer_uri@,
            now,
        ),
{
    // Determine which attributes were requested
    let requested = collect_requested(request);
    let op = standard_operation_attrs(request.request_id);
    let mut catalog = printer_attribute_catalog(printer, now);
    let ghost cv = attrs_view(catalog@);
    let ghost pred = |a: AttrV| attribute_wanted(strings_view(requested@), a.name);
    let mut printer_group = IppAttributeGroup::new(DelimiterTag::PrinterAttributes);
    let total = catalog.len();
    let mut i: usize = 0;
    while i < total
        invariant
            total == cv.len(),
            i <= total,
            attrs_view(catalog@) == cv.skip(i as int),
            pred == (|a: AttrV| attribute_wanted(strings_view(requested@), a.name)),
            printer_group@.delimiter == DelimiterTag::PrinterAttributes,
            printer_group@.attributes == cv.take(i as int).filter(pred),
        decreases total - i,
    {
        proof {
            assert(attrs_view(catalog@).len() == catalog@.len());
            assert(catalog@.len() > 0);
        }
        let ghost before = catalog@;
        let attr = catalog.remove(0);
        proof {
            assert(attrs_view(before)[0] == before[0]@);
            assert(cv.skip(i as int)[0] == cv[i as int]);
            assert(attr@ == cv[i as int]);
            assert(catalog@ =~= before.subrange(1, before.len() as int));
            assert forall|k: int| 0 <= k < catalog@.len() implies attrs_view(catalog@)[k]
                == cv.skip(i + 1)[k] by {
                assert(catalog@[k] == before[k + 1]);
                assert(attrs_view(before)[k + 1] == before[k + 1]@);
                assert(cv.skip(i as int)[k + 1] == cv[i + 1 + k]);
            }
            assert(attrs_view(catalog@) =~= cv.skip(i + 1));
            reveal_with_fuel(Seq::<_>::filter, 1);
            assert(cv.take(i + 1).drop_last() =~= cv.take(i as int));
        }
        if wanted(&requested, attr.name.as_str()) {
            printer_group.add(attr);
        }
        i = i + 1;
    }
    proof {
        assert(cv.take(total as int) =~= cv);
    }
    let r = IppResponseBuilder::new(IppStatusCode::SuccessfulOk, request.request_id)
        .add_group(op)
        .add_group(printer_group)
        .build();
    proof {
        assert(r@.attribute_groups =~= seq![
            standard_operation_group(),
            GroupV {
                delimiter: DelimiterTag::PrinterAttributes,
                attributes: answered_attributes(
                    requested_attributes(request@),
                    printer.printer_name@,
                    printer.printer_uri@,
                    now,
                ),
            },
        ]);
    }
    r
}

} // verus!

verus! {

/// What a request comes to: a response to send, or a job whose document is to be stored.
pub enum DispatchOutcome {
    Reply(Vec<u8>),
    Store(PendingJob),
}

/// Abstract form of what a request comes to.
pub enum DispatchV {
    Reply(ResponseV),
    Store(PendingJobV),
}

/// What a request comes to, routed by its operation.
pub open spec fn spec_dispatch(
    r: RequestV,
    printer_name: Seq<char>,
    printer_uri: Seq<char>,
    jobs: Map<u32, JobInfo>,
    next_id: u32,
    now: u64,
) -> DispatchV {
    match r.operation_id {
        IppOperationId::GetPrinterAttributes => DispatchV::Reply(
            spec_get_printer_attributes_response(r, printer_name, printer_uri, now),
        ),
        IppOperationId::PrintJob => match spec_prepare_print_job(r, next_id, now) {
            Ok(p) => DispatchV::Store(p),
            Err(resp) => DispatchV::Reply(resp),
        },
        IppOperationId::GetJobAttributes => DispatchV::Reply(
            spec_get_job_attributes_response(r, printer_uri, jobs),
        ),
        IppOperationId::ValidateJob => DispatchV::Reply(spec_validate_job_response(r.request_id)),
        _ => DispatchV::Reply(spec_unsupported_response(r.request_id)),
    }
}

/// Routes a request to its operation at time `now`. Replies come serialized; a Print-Job
/// that is accepted comes back as the job whose document is to be stored, to be finished
/// with [`finish_print_job`].
pub fn dispatch(request: &IppRequest, printer: &mut PrinterState, now: u64) -> (out: DispatchOutcome)
    ensures
        match spec_dispatch(
            request@,
            old(printer).printer_name@,
            old(printer).printer_uri@,
            old(printer).jobs(),
            old(printer).job_counter,
            now,
        ) {
            DispatchV::Reply(resp) => out matches DispatchOutcome::Reply(b) && b@
                == response_encoding(resp),
            DispatchV::Store(p) => out matches DispatchOutcome::Store(x) && x@ == p,
        },
        final(printer).job_counter == (if out is Store {
            old(printer).job_counter.wrapping_add(1)
        } else {
            old(printer).job_counter
        }),
        final(printer).printer_name == old(printer).printer_name,
        final(printer).printer_uri == old(printer).printer_uri,
        final(printer).storage_dir == old(printer).storage_dir,
        final(printer).active_jobs == old(printer).active_jobs,
{
    match request.operation_id {
        IppOperationId::GetPrinterAttributes => DispatchOutcome::Reply(
            serialize_response(&handle_get_printer_attributes(request, printer, now)),
        ),
        IppOperationId::PrintJob => match prepare_print_job(request, printer, now) {
            Ok(job) => DispatchOutcome::Store(job),
            Err(resp) => DispatchOutcome::Reply(serialize_response(&resp)),
        },
        IppOperationId::GetJobAttributes => DispatchOutcome::Reply(
            serialize_response(&handle_get_job_attributes(request, printer)),
        ),
        IppOperationId::ValidateJob => DispatchOutcome::Reply(
            serialize_response(&handle_validate_job(request)),
        ),
        _ => {
            // Operation not supported
            DispatchOutcome::Reply(
                serialize_response(
                    &error_response(
                        request.request_id,
                        IppStatusCode::ServerErrorOperationNotSupported,
                        "server-error-operation-not-supported",
                    ),
                ),
            )
        },
    }
}

} // verus!

verus! {

/// A job that Print-Job stored is what Get-Job-Attributes then describes: asked for by its
/// id, the printer answers successful-ok with the job's id, URI, state, name, user, size
/// and creation time.
pub proof fn lemma_stored_job_is_described(
    r: RequestV,
    printer_uri: Seq<char>,
    jobs: Map<u32, JobInfo>,
    job: PendingJob,
    path: PathBuf,
)
    requires
        requested_job_id(r) == Some(job.job_id),
    ensures
        spec_get_job_attributes_response(
            r,
            printer_uri,
            jobs.insert(job.job_id, completed_job(job, path)),
        ) == response_of(
            IppStatusCode::SuccessfulOk,
            r.request_id,
            seq![
                message_group("successful-ok"@),
                job_description_group(printer_uri, completed_job(job, path)),
            ],
        ),
        job_description_group(printer_uri, completed_job(job, path)).attributes[4] == (AttrV {
            name: "job-name"@,
            values: seq![ValueV::NameWithoutLanguage(job.name@)],
        }),
{
}

/// Asking for no attribute in particular answers every attribute of the catalog.
pub proof fn lemma_no_filter_answers_all(printer_name: Seq<char>, printer_uri: Seq<char>, now: u64)
    ensures
        answered_attributes(Seq::empty(), printer_name, printer_uri, now) == printer_catalog(
            printer_name,
            printer_uri,
            now,
        ),
{
    let c = printer_catalog(printer_name, printer_uri, now);
    let pred = |a: AttrV| attribute_wanted(Seq::empty(), a.name);
    lemma_filter_keeps_all(c, pred);
}

/// Filtering by a predicate that holds everywhere keeps everything.
proof fn lemma_filter_keeps_all(s: Seq<AttrV>, pred: spec_fn(AttrV) -> bool)
    requires
        forall|a: AttrV| #[trigger] pred(a),
    ensures
        s.filter(pred) == s,
    decreases s.len(),
{
    reveal(Seq::filter);
    if s.len() > 0 {
        lemma_filter_keeps_all(s.drop_last(), pred);
        assert(pred(s.last()));
        assert(s.drop_last().push(s.last()) =~= s);
    }
}

/// Every attribute answered was asked for by name, unless `all` was asked for; and every
/// attribute asked for by name that the catalog holds is answered.
pub proof fn lemma_answers_only_requested(
    requested: Seq<Seq<char>>,
    printer_name: Seq<char>,
    printer_uri: Seq<char>,
    now: u64,
)
    requires
        requested.len() > 0,
        !requested.contains("all"@),
    ensures
        forall|i: int|
            0 <= i < answered_attributes(requested, printer_name, printer_uri, now).len()
                ==> requested.contains(
                #[trigger] answered_attributes(requested, printer_name, printer_uri, now)[i].name,
            ),
        forall|a: AttrV|
            printer_catalog(printer_name, printer_uri, now).contains(a) && requested.contains(
                a.name,
            ) ==> #[trigger] answered_attributes(requested, printer_name, printer_uri, now).contains(
                a,
            ),
{
    let c = printer_catalog(printer_name, printer_uri, now);
    let pred = |a: AttrV| attribute_wanted(requested, a.name);
    let f = c.filter(pred);
    assert forall|i: int| 0 <= i < f.len() implies requested.contains(#[trigger] f[i].name) by {
        c.lemma_filter_pred(pred, i);
        assert(pred(f[i]));
    }
    assert forall|a: AttrV| c.contains(a) && requested.contains(a.name) implies #[trigger] f.contains(
        a,
    ) by {
        let k = choose|k: int| 0 <= k < c.len() && c[k] == a;
        c.lemma_filter_contains(pred, k);
    }
}

/// A character that cannot separate path components: neither `/` nor a backslash.
pub open spec fn not_separator(c: char) -> bool {
    c != '/' && c != '\\'
}

/// A job's file name keeps at most 64 characters of the job name, each alphanumeric or one
/// of `-`, `_`, `.`, and none of them a path separator.
pub proof fn lemma_sanitized_name_is_safe(name: Seq<char>)
    ensures
        sanitized_name(name).len() == (if name.len() <= 64 { name.len() } else { 64 }),
        forall|i: int|
            0 <= i < sanitized_name(name).len() ==> {
                let c = #[trigger] sanitized_name(name)[i];
                &&& crate::text::alphanumeric(c) || c == '-' || c == '_' || c == '.'
                &&& not_separator(c)
            },
{
}

/// The file a job is stored in holds no path separator, whatever the job is called, so it
/// lands in the storage directory itself.
pub proof fn lemma_job_file_name_has_no_separator(now: u64, name: Seq<char>)
    ensures
        forall|i: int|
            0 <= i < job_file_name(now, name).len() ==> not_separator(
                #[trigger] job_file_name(now, name)[i],
            ),
{
    lemma_sanitized_name_is_safe(name);
    crate::text::lemma_decimal_digits(now as nat);
    reveal_strlit("_");
    reveal_strlit(".pdf");
    let d = decimal(now as nat);
    let f = job_file_name(now, name);
    assert forall|i: int| 0 <= i < f.len() implies not_separator(#[trigger] f[i]) by {
        if i < d.len() {
            assert(f[i] == d[i]);
        } else if i == d.len() {
            assert(f[i] == '_');
        } else if i < d.len() + 1 + sanitized_name(name).len() {
            assert(f[i] == sanitized_name(name)[i - d.len() - 1]);
        } else {
            assert(f[i] == ".pdf"@[i - d.len() - 1 - sanitized_name(name).len()]);
        }
    }
}

} // verus!

verus! {

/// A reply as IPP asks for it: version 2.0, the id of the request it answers, and first the
/// operation-attributes group, which opens with the charset (utf-8) and the natural
/// language (en).
pub open spec fn well_formed_reply(resp: ResponseV, request_id: u32) -> bool {
    &&& resp.version == (IppVersion { major: 2, minor: 0 })
    &&& resp.request_id == request_id
    &&& resp.attribute_groups.len() >= 1
    &&& resp.attribute_groups[0].delimiter == DelimiterTag::OperationAttributes
    &&& resp.attribute_groups[0].attributes.len() >= 2
    &&& resp.attribute_groups[0].attributes.take(2) == standard_operation_group().attributes
}

/// Every reply the printer gives to a request is well formed and carries the request's id,
/// whatever the operation and whether it succeeds; a job it accepts keeps the request's id,
/// and so does the reply that finishes it, whatever became of storing the document.
pub proof fn lemma_replies_are_well_formed(
    r: RequestV,
    printer_name: Seq<char>,
    printer_uri: Seq<char>,
    jobs: Map<u32, JobInfo>,
    next_id: u32,
    now: u64,
    available: Option<u64>,
    stored: bool,
)
    ensures
        match spec_dispatch(r, printer_name, printer_uri, jobs, next_id, now) {
            DispatchV::Reply(resp) => well_formed_reply(resp, r.request_id),
            DispatchV::Store(p) => p.request_id == r.request_id && well_formed_reply(
                spec_finish_response(p, printer_uri, available, stored),
                r.request_id,
            ),
        },
{
    let std_attrs = standard_operation_group().attributes;
    assert(std_attrs.take(2) =~= std_attrs);
    assert forall|m: Seq<char>| #[trigger] message_group(m).attributes.take(2) == std_attrs by {
        assert(message_group(m).attributes.take(2) =~= std_attrs);
    }
}

} // verus!

verus! {

/// Requests are routed by their operation code: Validate-Job (0x0004) is answered
/// successful-ok with the status message "successful-ok"; Get-Printer-Attributes (0x000B)
/// is answered successful-ok with the printer's attributes; Get-Job-Attributes (0x0009) and
/// Print-Job (0x0002) go to their own operations; every other code, Create-Job (0x0005)
/// among them, is answered server-error-operation-not-supported (0x0501).
pub proof fn lemma_dispatch_by_code(
    r: RequestV,
    printer_name: Seq<char>,
    printer_uri: Seq<char>,
    jobs: Map<u32, JobInfo>,
    next_id: u32,
    now: u64,
    code: u16,
)
    requires
        r.operation_id == crate::ipp::types::operation_from_code(code),
    ensures
        code == 0x0004 ==> (spec_dispatch(r, printer_name, printer_uri, jobs, next_id, now)
            matches DispatchV::Reply(resp) && crate::ipp::types::status_code(resp.status_code)
            == 0x0000 && resp.request_id == r.request_id && resp.attribute_groups.len() == 1
            && resp.attribute_groups[0].attributes.last() == (AttrV {
            name: "status-message"@,
            values: seq![ValueV::TextWithoutLanguage("successful-ok"@)],
        })),
        code == 0x000B ==> (spec_dispatch(r, printer_name, printer_uri, jobs, next_id, now)
            matches DispatchV::Reply(resp) && crate::ipp::types::status_code(resp.status_code)
            == 0x0000 && resp.attribute_groups.len() == 2 && resp.attribute_groups[1].delimiter
            == DelimiterTag::PrinterAttributes),
        code == 0x0009 ==> spec_dispatch(r, printer_name, printer_uri, jobs, next_id, now)
            == DispatchV::Reply(spec_get_job_attributes_response(r, printer_uri, jobs)),
        code == 0x0002 ==> spec_dispatch(r, printer_name, printer_uri, jobs, next_id, now)
            == match spec_prepare_print_job(r, next_id, now) {
            Ok(p) => DispatchV::Store(p),
            Err(resp) => DispatchV::Reply(resp),
        },
        code != 0x0002 && code != 0x0004 && code != 0x0009 && code != 0x000B ==> (spec_dispatch(
            r,
            printer_name,
            printer_uri,
            jobs,
            next_id,
            now,
        ) matches DispatchV::Reply(resp) && crate::ipp::types::status_code(resp.status_code)
            == 0x0501 && resp.request_id == r.request_id && resp.attribute_groups[0].attributes.last()
            == (AttrV {
            name: "status-message"@,
            values: seq![ValueV::TextWithoutLanguage("server-error-operation-not-supported"@)],
        })),
{
}

/// Each character of a job's file name part is the job name's character when that is an
/// ASCII letter or digit or one of `-`, `_`, `.`, or a non-ASCII character that Unicode
/// counts alphanumeric; every other character becomes `_`. Only the first 64 characters of
/// the job name are used.
pub proof fn lemma_sanitized_name_chars(name: Seq<char>)
    ensures
        sanitized_name(name).len() == (if name.len() <= 64 { name.len() } else { 64 }),
        forall|i: int|
            0 <= i < sanitized_name(name).len() ==> {
                let c = name[i];
                let o = #[trigger] sanitized_name(name)[i];
                let kept = (0x30 <= (c as u32) && (c as u32) <= 0x39) || (0x41 <= (c as u32) && (c
                    as u32) <= 0x5A) || (0x61 <= (c as u32) && (c as u32) <= 0x7A) || c == '-' || c
                    == '_' || c == '.';
                &&& kept ==> o == c
                &&& ((c as u32) < 0x80 && !kept) ==> o == '_'
                &&& (c as u32) >= 0x80 ==> o == (if crate::text::is_alphanumeric(c) {
                    c
                } else {
                    '_'
                })
            },
{
    assert forall|i: int| 0 <= i < sanitized_name(name).len() implies #[trigger] sanitized_name(
        name,
    )[i] == file_name_char(name[i]) by {
        if name.len() > 64 {
            assert(name.take(64)[i] == name[i]);
        }
    }
}

/// Asking for `all`, whatever else is asked for with it, answers every attribute of the
/// catalog.
pub proof fn lemma_all_answers_everything(
    requested: Seq<Seq<char>>,
    printer_name: Seq<char>,
    printer_uri: Seq<char>,
    now: u64,
)
    requires
        requested.contains("all"@),
    ensures
        answered_attributes(requested, printer_name, printer_uri, now) == printer_catalog(
            printer_name,
            printer_uri,
            now,
        ),
{
    let pred = |a: AttrV| attribute_wanted(requested, a.name);
    assert forall|a: AttrV| #[trigger] pred(a) by {
        assert(requested.contains("all"@));
    }
    lemma_filter_keeps_all(printer_catalog(printer_name, printer_uri, now), pred);
}

/// The URI under which a job is described is the printer URI, `/jobs/` and the job's id,
/// and it is the URI Print-Job gave when the job was created: Get-Job-Attributes on a job
/// that Print-Job stored answers the job-uri (and job-id) that Print-Job returned.
pub proof fn lemma_job_uri_is_stable(
    r: RequestV,
    printer_uri: Seq<char>,
    jobs: Map<u32, JobInfo>,
    job: PendingJob,
    path: PathBuf,
    request_id: u32,
)
    requires
        requested_job_id(r) == Some(job.job_id),
    ensures
        job_description_group(printer_uri, completed_job(job, path)).attributes[1] == (AttrV {
            name: "job-uri"@,
            values: seq![ValueV::Uri(printer_uri + "/jobs/"@ + decimal(job.job_id as nat))],
        }),
        job_created_group(printer_uri, job.job_id).attributes[1] == (AttrV {
            name: "job-uri"@,
            values: seq![ValueV::Uri(printer_uri + "/jobs/"@ + decimal(job.job_id as nat))],
        }),
        spec_get_job_attributes_response(
            r,
            printer_uri,
            jobs.insert(job.job_id, completed_job(job, path)),
        ).attribute_groups[1].attributes.take(2) == spec_print_job_response(
            request_id,
            printer_uri,
            job.job_id,
        ).attribute_groups[1].attributes.take(2),
{
    let d = job_description_group(printer_uri, completed_job(job, path)).attributes;
    let c = job_created_group(printer_uri, job.job_id).attributes;
    assert(d.take(2) =~= c.take(2));
}

/// A stored job's file is named by the time, `_`, the sanitized job name and `.pdf`: it
/// begins with the decimal time and `_`, ends in `.pdf`, and in between holds exactly the
/// sanitized job name.
pub proof fn lemma_job_file_name_shape(now: u64, name: Seq<char>)
    ensures
        job_file_name(now, name).len() == decimal(now as nat).len() + 1 + sanitized_name(name).len()
            + 4,
        job_file_name(now, name).take(decimal(now as nat).len() as int) == decimal(now as nat),
        job_file_name(now, name)[decimal(now as nat).len() as int] == '_',
        job_file_name(now, name).subrange(
            (decimal(now as nat).len() + 1) as int,
            (decimal(now as nat).len() + 1 + sanitized_name(name).len()) as int,
        ) == sanitized_name(name),
        job_file_name(now, name).skip(job_file_name(now, name).len() - 4) == seq![
            '.',
            'p',
            'd',
            'f',
        ],
{
    reveal_strlit("_");
    reveal_strlit(".pdf");
    let d = decimal(now as nat);
    let n = sanitized_name(name);
    let f = job_file_name(now, name);
    assert(f.take(d.len() as int) =~= d);
    assert(f.subrange((d.len() + 1) as int, (d.len() + 1 + n.len()) as int) =~= n);
    assert(f.skip(f.len() - 4) =~= seq!['.', 'p', 'd', 'f']);
}

/// A job needs twice its document's size and 10 MiB (10485760 bytes) of free space,
/// capped at the largest `u64`; it fits exactly when the free space, if known, is at least
/// that.
pub proof fn lemma_space_needed(size_bytes: u64, available: u64)
    ensures
        size_bytes * 2 + 10485760 <= u64::MAX ==> space_needed(size_bytes) == size_bytes * 2
            + 10485760,
        size_bytes * 2 + 10485760 > u64::MAX ==> space_needed(size_bytes) == u64::MAX,
        has_room(space_needed(size_bytes), Some(available)) <==> available >= space_needed(
            size_bytes,
        ),
        has_room(space_needed(size_bytes), None),
{
}

} // verus!

