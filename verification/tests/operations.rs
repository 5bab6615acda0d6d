use std::path::PathBuf;
use std::sync::Mutex;

use inkprint_core::ipp::catalog::{media_col_a4, media_col_letter, printer_attribute_catalog};
use inkprint_core::ipp::operations::{
    available_space, dispatch, error_response, file_name_char_of, finish_print_job, notify, handle_get_job_attributes,
    handle_get_printer_attributes, handle_validate_job, prepare_print_job, DispatchOutcome,
    PendingJob, PrintJobCallback, StoredDocument,
};
use inkprint_core::ipp::parser::parse_ipp_request;
use inkprint_core::ipp::printer::{JobState, PrinterState};
use inkprint_core::ipp::response::serialize_response;
use inkprint_core::ipp::types::{
    DelimiterTag, IppAttributeGroup, IppRequest, IppResponse, IppStatusCode, IppValue,
};

const NOW: u64 = 1_700_000_000;

fn make_printer() -> PrinterState {
    PrinterState::new(
        "InkPrint".to_string(),
        "127.0.0.1",
        631,
        PathBuf::from("/tmp/inkprint-jobs"),
    )
}

fn build_request(op: u16, request_id: u32, op_attrs: Vec<(u8, &str, &[u8])>, doc_data: &[u8]) -> Vec<u8> {
    let mut buf = vec![];
    buf.push(1);
    buf.push(1);
    buf.extend_from_slice(&op.to_be_bytes());
    buf.extend_from_slice(&request_id.to_be_bytes());
    buf.push(0x01);
    buf.push(0x47);
    let n = b"attributes-charset";
    buf.extend_from_slice(&(n.len() as u16).to_be_bytes());
    buf.extend_from_slice(n);
    let v = b"utf-8";
    buf.extend_from_slice(&(v.len() as u16).to_be_bytes());
    buf.extend_from_slice(v);
    buf.push(0x48);
    let n = b"attributes-natural-language";
    buf.extend_from_slice(&(n.len() as u16).to_be_bytes());
    buf.extend_from_slice(n);
    let v = b"en";
    buf.extend_from_slice(&(v.len() as u16).to_be_bytes());
    buf.extend_from_slice(v);
    for (tag, name, value) in op_attrs {
        buf.push(tag);
        buf.extend_from_slice(&(name.len() as u16).to_be_bytes());
        buf.extend_from_slice(name.as_bytes());
        buf.extend_from_slice(&(value.len() as u16).to_be_bytes());
        buf.extend_from_slice(value);
    }
    buf.push(0x03);
    buf.extend_from_slice(doc_data);
    buf
}

/// Routes a request and, for an accepted job, stores it as a document writer would,
/// with ample free space; returns the response bytes.
fn run(req: &IppRequest, printer: &mut PrinterState) -> Vec<u8> {
    match dispatch(req, printer, NOW) {
        DispatchOutcome::Reply(bytes) => bytes,
        DispatchOutcome::Store(job) => {
            let path = printer.storage_dir.join(&job.file_name);
            let stored = StoredDocument { path_text: path.to_string_lossy().to_string(), path };
            let (resp, _notice) = finish_print_job(printer, &job, Some(u64::MAX), Some(stored));
            serialize_response(&resp)
        }
    }
}

fn group(resp: &IppRequest, d: DelimiterTag) -> &IppAttributeGroup {
    resp.attribute_groups.iter().find(|g| g.delimiter == d).unwrap()
}

fn status_message(resp: &IppResponse) -> IppValue {
    resp.attribute_groups[0].get("status-message").unwrap().clone()
}

#[test]
fn test_get_printer_attributes() {
    let mut printer = make_printer();

    let raw = build_request(0x000B, 1, vec![(0x45, "printer-uri", b"ipp://127.0.0.1:631/ipp/print")], b"");
    let req = parse_ipp_request(&raw).unwrap();
    let resp_bytes = run(&req, &mut printer);
    let resp = parse_ipp_request(&resp_bytes).unwrap();

    assert_eq!(u16::from(resp.operation_id), 0x0000u16);

    let printer_group = group(&resp, DelimiterTag::PrinterAttributes);

    assert!(matches!(printer_group.get("printer-name"), Some(IppValue::NameWithoutLanguage(_))));
    assert_eq!(printer_group.get("printer-state"), Some(&IppValue::Enum(3)));
    assert_eq!(printer_group.get("printer-is-accepting-jobs"), Some(&IppValue::Boolean(true)));
}

#[test]
fn test_get_printer_attributes_filtered() {
    let mut printer = make_printer();

    let raw = build_request(
        0x000B,
        2,
        vec![
            (0x45, "printer-uri", b"ipp://127.0.0.1:631/ipp/print"),
            (0x44, "requested-attributes", b"printer-name"),
        ],
        b"",
    );
    let req = parse_ipp_request(&raw).unwrap();
    let resp_bytes = run(&req, &mut printer);
    let resp = parse_ipp_request(&resp_bytes).unwrap();

    let printer_group = group(&resp, DelimiterTag::PrinterAttributes);

    assert!(printer_group.get("printer-name").is_some());
    assert!(printer_group.get("printer-state").is_none());
}

#[test]
fn test_get_job_attributes() {
    let mut printer = make_printer();

    let pdf_data = b"%PDF-1.4 test";
    let raw = build_request(
        0x0002,
        4,
        vec![
            (0x45, "printer-uri", b"ipp://127.0.0.1:631/ipp/print"),
            (0x42, "job-name", b"My Doc"),
            (0x42, "requesting-user-name", b"alice"),
            (0x49, "document-format", b"application/pdf"),
        ],
        pdf_data,
    );
    let req = parse_ipp_request(&raw).unwrap();
    let resp_bytes = run(&req, &mut printer);
    let resp = parse_ipp_request(&resp_bytes).unwrap();
    let job_id_val = resp
        .attribute_groups
        .iter()
        .find(|g| g.delimiter == DelimiterTag::JobAttributes)
        .and_then(|g| g.get("job-id"))
        .cloned()
        .unwrap();
    let job_id = if let IppValue::Integer(id) = job_id_val { id } else { panic!() };

    let job_id_bytes = job_id.to_be_bytes();
    let raw2 = build_request(
        0x0009,
        5,
        vec![(0x45, "printer-uri", b"ipp://127.0.0.1:631/ipp/print"), (0x21, "job-id", &job_id_bytes)],
        b"",
    );
    let req2 = parse_ipp_request(&raw2).unwrap();
    let resp2_bytes = run(&req2, &mut printer);
    let resp2 = parse_ipp_request(&resp2_bytes).unwrap();

    assert_eq!(u16::from(resp2.operation_id), 0x0000u16);
    let jg = group(&resp2, DelimiterTag::JobAttributes);
    assert_eq!(jg.get("job-id"), Some(&IppValue::Integer(job_id)));
    assert_eq!(jg.get("job-name"), Some(&IppValue::NameWithoutLanguage("My Doc".to_string())));
}

fn print_request(name: &[u8], format: &[u8], doc: &[u8]) -> IppRequest {
    let raw = build_request(
        0x0002,
        3,
        vec![
            (0x45, "printer-uri", b"ipp://127.0.0.1:631/ipp/print"),
            (0x42, "job-name", name),
            (0x42, "requesting-user-name", b"testuser"),
            (0x49, "document-format", format),
        ],
        doc,
    );
    parse_ipp_request(&raw).unwrap()
}

#[test]
fn print_job_completes_and_is_recorded() {
    let mut printer = make_printer();
    let req = print_request(b"Test Job", b"application/pdf", b"%PDF-1.4 test document data");
    let resp = parse_ipp_request(&run(&req, &mut printer)).unwrap();

    assert_eq!(u16::from(resp.operation_id), 0x0000u16);
    let jg = group(&resp, DelimiterTag::JobAttributes);
    assert_eq!(jg.get("job-id"), Some(&IppValue::Integer(1)));
    assert_eq!(jg.get("job-state"), Some(&IppValue::Enum(9)));
    assert_eq!(
        jg.get("job-uri"),
        Some(&IppValue::Uri("ipp://127.0.0.1:631/ipp/print/jobs/1".to_string()))
    );
    assert_eq!(
        jg.get("job-state-reasons"),
        Some(&IppValue::Keyword("job-completed-successfully".to_string()))
    );

    let job = printer.job(1).unwrap();
    assert_eq!(job.state, JobState::Completed);
    assert_eq!(job.name, "Test Job");
    assert_eq!(job.originating_user, "testuser");
    assert_eq!(job.time_created, NOW);
    assert_eq!(job.size_bytes, 27);
    assert_eq!(
        job.file_path,
        Some(PathBuf::from("/tmp/inkprint-jobs/1700000000_Test_Job.pdf"))
    );
    assert_eq!(printer.job_counter, 2);
}

#[test]
fn prepared_job_fields() {
    let mut printer = make_printer();
    let req = print_request(b"a/b c\xC3\xA9", b"application/octet-stream", b"12345");
    let job: PendingJob = match prepare_print_job(&req, &mut printer, 77) {
        Ok(j) => j,
        Err(_) => panic!("should be accepted"),
    };
    assert_eq!(job.request_id, 3);
    assert_eq!(job.job_id, 1);
    assert_eq!(job.name, "a/b c\u{e9}");
    assert_eq!(job.file_name, "77_a_b_c\u{e9}.pdf");
    assert_eq!(job.size_bytes, 5);
    assert_eq!(job.required_space, 10 + 10 * 1024 * 1024);
    assert_eq!(printer.job_counter, 2);
}

#[test]
fn long_job_name_is_cut_to_64_characters() {
    let mut printer = make_printer();
    let long = "x".repeat(100);
    let req = print_request(long.as_bytes(), b"application/pdf", b"d");
    let job = match prepare_print_job(&req, &mut printer, 5) {
        Ok(j) => j,
        Err(_) => panic!("should be accepted"),
    };
    assert_eq!(job.file_name, format!("5_{}.pdf", "x".repeat(64)));
}

#[test]
fn print_job_defaults_for_missing_attributes() {
    let mut printer = make_printer();
    let raw = build_request(0x0002, 8, vec![], b"data");
    let req = parse_ipp_request(&raw).unwrap();
    let job = match prepare_print_job(&req, &mut printer, 1) {
        Ok(j) => j,
        Err(_) => panic!("should be accepted"),
    };
    assert_eq!(job.name, "Untitled");
    assert_eq!(job.originating_user, "unknown");
    assert_eq!(job.file_name, "1_Untitled.pdf");
}

#[test]
fn print_job_refuses_other_formats() {
    let mut printer = make_printer();
    let req = print_request(b"J", b"image/urf", b"data");
    let resp = match prepare_print_job(&req, &mut printer, 1) {
        Ok(_) => panic!("should be refused"),
        Err(r) => r,
    };
    assert_eq!(resp.status_code, IppStatusCode::ClientErrorDocumentFormatNotSupported);
    assert_eq!(
        status_message(&resp),
        IppValue::TextWithoutLanguage(
            "Only application/pdf is accepted; retry with document-format-default".to_string()
        )
    );
    assert_eq!(printer.job_counter, 1);
}

#[test]
fn print_job_without_document_is_bad_request() {
    let mut printer = make_printer();
    let req = print_request(b"J", b"application/pdf", b"");
    let resp = match prepare_print_job(&req, &mut printer, 1) {
        Ok(_) => panic!("should be refused"),
        Err(r) => r,
    };
    assert_eq!(resp.status_code, IppStatusCode::ClientErrorBadRequest);
    assert_eq!(status_message(&resp), IppValue::TextWithoutLanguage("No document data".to_string()));
}

#[test]
fn print_job_without_operation_group_is_bad_request() {
    let mut printer = make_printer();
    let mut raw = vec![1u8, 1, 0, 2, 0, 0, 0, 6, 0x02, 0x03];
    raw.extend_from_slice(b"doc");
    let req = parse_ipp_request(&raw).unwrap();
    let resp = match prepare_print_job(&req, &mut printer, 1) {
        Ok(_) => panic!("should be refused"),
        Err(r) => r,
    };
    assert_eq!(resp.status_code, IppStatusCode::ClientErrorBadRequest);
    assert_eq!(
        status_message(&resp),
        IppValue::TextWithoutLanguage("Missing operation-attributes".to_string())
    );
}

#[test]
fn finish_refuses_when_space_is_short() {
    let mut printer = make_printer();
    let req = print_request(b"J", b"application/pdf", b"data");
    let job = match prepare_print_job(&req, &mut printer, 1) {
        Ok(j) => j,
        Err(_) => panic!("should be accepted"),
    };
    let (resp, notice) = finish_print_job(&mut printer, &job, Some(job.required_space - 1), None);
    assert!(notice.is_none());
    assert_eq!(resp.status_code, IppStatusCode::ServerErrorInternalError);
    assert_eq!(
        status_message(&resp),
        IppValue::TextWithoutLanguage("Insufficient storage space".to_string())
    );
    assert!(printer.job(job.job_id).is_none());
}

#[test]
fn finish_reports_failed_write() {
    let mut printer = make_printer();
    let req = print_request(b"J", b"application/pdf", b"data");
    let job = match prepare_print_job(&req, &mut printer, 1) {
        Ok(j) => j,
        Err(_) => panic!("should be accepted"),
    };
    let (resp, notice) = finish_print_job(&mut printer, &job, None, None);
    assert!(notice.is_none());
    assert_eq!(resp.status_code, IppStatusCode::ServerErrorInternalError);
    assert_eq!(
        status_message(&resp),
        IppValue::TextWithoutLanguage("Failed to save document".to_string())
    );
    assert!(printer.job(job.job_id).is_none());
}

struct Recorder(Mutex<Vec<(u32, String, String, u64)>>);

impl PrintJobCallback for Recorder {
    fn on_job_received(&self, job_id: u32, file_path: String, file_name: String, size_bytes: u64) {
        self.0.lock().unwrap().push((job_id, file_path, file_name, size_bytes));
    }
}

#[test]
fn finish_tells_the_callback() {
    let mut printer = make_printer();
    let req = print_request(b"Doc", b"application/pdf", b"abc");
    let job = match prepare_print_job(&req, &mut printer, 9) {
        Ok(j) => j,
        Err(_) => panic!("should be accepted"),
    };
    let rec = Recorder(Mutex::new(vec![]));
    let stored = StoredDocument { path: PathBuf::from("/d/9_Doc.pdf"), path_text: "/d/9_Doc.pdf".to_string() };
    let (resp, notice) = finish_print_job(&mut printer, &job, Some(job.required_space), Some(stored));
    assert_eq!(resp.status_code, IppStatusCode::SuccessfulOk);
    let n = notice.as_ref().unwrap();
    assert_eq!(n.job_id, 1);
    assert_eq!(n.file_path, "/d/9_Doc.pdf");
    assert_eq!(n.file_name, "9_Doc.pdf");
    assert_eq!(n.size_bytes, 3);
    notify(Some(&rec), notice);
    let calls = rec.0.lock().unwrap();
    assert_eq!(*calls, vec![(1, "/d/9_Doc.pdf".to_string(), "9_Doc.pdf".to_string(), 3)]);
}

#[test]
fn no_notice_means_no_call() {
    let rec = Recorder(Mutex::new(vec![]));
    notify(Some(&rec), None);
    assert!(rec.0.lock().unwrap().is_empty());
    notify(None::<&Recorder>, None);
}

#[test]
fn get_job_attributes_errors() {
    let printer = make_printer();
    let raw = build_request(0x0009, 6, vec![], b"");
    let req = parse_ipp_request(&raw).unwrap();
    let resp = handle_get_job_attributes(&req, &printer);
    assert_eq!(resp.status_code, IppStatusCode::ClientErrorBadRequest);
    assert_eq!(status_message(&resp), IppValue::TextWithoutLanguage("Missing job-id".to_string()));

    let raw = build_request(0x0009, 7, vec![(0x21, "job-id", &5i32.to_be_bytes())], b"");
    let req = parse_ipp_request(&raw).unwrap();
    let resp = handle_get_job_attributes(&req, &printer);
    assert_eq!(resp.status_code, IppStatusCode::ClientErrorNotFound);
    assert_eq!(status_message(&resp), IppValue::TextWithoutLanguage("Job not found".to_string()));
}

#[test]
fn get_job_attributes_describes_job() {
    let mut printer = make_printer();
    let req = print_request(b"Big", b"application/pdf", &vec![0u8; 5000]);
    run(&req, &mut printer);
    let raw = build_request(0x0009, 7, vec![(0x21, "job-id", &1i32.to_be_bytes())], b"");
    let req = parse_ipp_request(&raw).unwrap();
    let resp = handle_get_job_attributes(&req, &printer);
    assert_eq!(resp.status_code, IppStatusCode::SuccessfulOk);
    let jg = &resp.attribute_groups[1];
    assert_eq!(jg.get("job-k-octets"), Some(&IppValue::Integer(4)));
    assert_eq!(jg.get("time-at-creation"), Some(&IppValue::Integer(1_700_000_000)));
    assert_eq!(
        jg.get("job-originating-user-name"),
        Some(&IppValue::NameWithoutLanguage("testuser".to_string()))
    );
    assert_eq!(jg.get("job-state"), Some(&IppValue::Enum(9)));
}

#[test]
fn small_job_counts_one_k_octet() {
    let mut printer = make_printer();
    let req = print_request(b"Tiny", b"application/pdf", b"x");
    run(&req, &mut printer);
    let raw = build_request(0x0009, 7, vec![(0x21, "job-id", &1i32.to_be_bytes())], b"");
    let resp = handle_get_job_attributes(&parse_ipp_request(&raw).unwrap(), &printer);
    assert_eq!(resp.attribute_groups[1].get("job-k-octets"), Some(&IppValue::Integer(1)));
}

#[test]
fn validate_job_is_ok() {
    let raw = build_request(0x0004, 11, vec![], b"");
    let req = parse_ipp_request(&raw).unwrap();
    let resp = handle_validate_job(&req);
    assert_eq!(resp.status_code, IppStatusCode::SuccessfulOk);
    assert_eq!(resp.request_id, 11);
    assert_eq!(resp.attribute_groups.len(), 1);
    assert_eq!(status_message(&resp), IppValue::TextWithoutLanguage("successful-ok".to_string()));
}

#[test]
fn unsupported_operation_is_refused() {
    let mut printer = make_printer();
    let raw = build_request(0x0008, 12, vec![], b"");
    let req = parse_ipp_request(&raw).unwrap();
    let resp = parse_ipp_request(&run(&req, &mut printer)).unwrap();
    assert_eq!(u16::from(resp.operation_id), 0x0501);
    assert_eq!(resp.request_id, 12);
    assert_eq!(
        resp.attribute_groups[0].get("status-message"),
        Some(&IppValue::TextWithoutLanguage("server-error-operation-not-supported".to_string()))
    );
}

#[test]
fn error_response_shape() {
    let resp = error_response(3, IppStatusCode::ClientErrorGone, "gone");
    assert_eq!(resp.status_code, IppStatusCode::ClientErrorGone);
    assert_eq!(resp.request_id, 3);
    assert_eq!(resp.attribute_groups.len(), 1);
    let g = &resp.attribute_groups[0];
    assert_eq!(g.delimiter, DelimiterTag::OperationAttributes);
    assert_eq!(g.get("attributes-charset"), Some(&IppValue::Charset("utf-8".to_string())));
    assert_eq!(status_message(&resp), IppValue::TextWithoutLanguage("gone".to_string()));
}

#[test]
fn printer_attributes_cover_the_catalog() {
    let printer = make_printer();
    let raw = build_request(0x000B, 1, vec![], b"");
    let req = parse_ipp_request(&raw).unwrap();
    let resp = handle_get_printer_attributes(&req, &printer, NOW);
    let catalog = printer_attribute_catalog(&printer, NOW);
    assert_eq!(resp.attribute_groups[1].attributes, catalog);
    let pg = &resp.attribute_groups[1];
    assert_eq!(pg.get("printer-uri-supported"), Some(&IppValue::Uri("ipp://127.0.0.1:631/ipp/print".to_string())));
    assert_eq!(pg.get("printer-name"), Some(&IppValue::NameWithoutLanguage("InkPrint".to_string())));
}

#[test]
fn printer_attributes_filter_keeps_catalog_order() {
    let printer = make_printer();
    let raw = build_request(
        0x000B,
        1,
        vec![
            (0x44, "requested-attributes", b"printer-state"),
            (0x44, "", b"printer-name"),
            (0x44, "", b"no-such-attribute"),
        ],
        b"",
    );
    let req = parse_ipp_request(&raw).unwrap();
    let resp = handle_get_printer_attributes(&req, &printer, NOW);
    let names: Vec<&str> = resp.attribute_groups[1].attributes.iter().map(|a| a.name.as_str()).collect();
    assert_eq!(names, vec!["printer-name", "printer-state"]);
}

#[test]
fn requested_all_answers_everything() {
    let printer = make_printer();
    let raw = build_request(0x000B, 1, vec![(0x44, "requested-attributes", b"all")], b"");
    let req = parse_ipp_request(&raw).unwrap();
    let resp = handle_get_printer_attributes(&req, &printer, NOW);
    assert_eq!(resp.attribute_groups[1].attributes, printer_attribute_catalog(&printer, NOW));
}

#[test]
fn media_collections() {
    let a4 = media_col_a4();
    let letter = media_col_letter();
    assert_ne!(a4, letter);
    match a4 {
        IppValue::Collection(members) => {
            assert_eq!(members[0].0, "media-size");
        }
        _ => panic!("a collection"),
    }
}

#[test]
fn free_space_saturates() {
    assert_eq!(available_space(10, 4096), 40960);
    assert_eq!(available_space(0, 4096), 0);
    assert_eq!(available_space(u64::MAX, 2), u64::MAX);
}

#[test]
fn job_fits_by_required_space() {
    let mut printer = make_printer();
    let req = print_request(b"J", b"application/pdf", b"data");
    let job = match prepare_print_job(&req, &mut printer, 1) {
        Ok(j) => j,
        Err(_) => panic!("should be accepted"),
    };
    assert_eq!(job.required_space, 8 + 10 * 1024 * 1024);
    assert!(job.fits(None));
    assert!(job.fits(Some(job.required_space)));
    assert!(!job.fits(Some(job.required_space - 1)));
}

#[test]
fn replies_are_well_formed() {
    let mut printer = make_printer();
    let print = build_request(0x0002, 30, vec![(0x49, "document-format", b"application/pdf")], b"doc");
    let bad_format = build_request(0x0002, 31, vec![(0x49, "document-format", b"text/plain")], b"doc");
    let cases = vec![
        (build_request(0x000B, 20, vec![], b""), 20u32),
        (build_request(0x0009, 21, vec![], b""), 21),
        (build_request(0x0004, 22, vec![], b""), 22),
        (build_request(0x0005, 23, vec![], b""), 23),
        (build_request(0x3333, 24, vec![], b""), 24),
        (print, 30),
        (bad_format, 31),
    ];
    for (raw, id) in cases {
        let req = parse_ipp_request(&raw).unwrap();
        let resp = parse_ipp_request(&run(&req, &mut printer)).unwrap();
        assert_eq!(resp.version.major, 2);
        assert_eq!(resp.version.minor, 0);
        assert_eq!(resp.request_id, id);
        let op = &resp.attribute_groups[0];
        assert_eq!(op.delimiter, DelimiterTag::OperationAttributes);
        assert_eq!(op.attributes[0].name, "attributes-charset");
        assert_eq!(op.attributes[0].values, vec![IppValue::Charset("utf-8".to_string())]);
        assert_eq!(op.attributes[1].name, "attributes-natural-language");
        assert_eq!(op.attributes[1].values, vec![IppValue::NaturalLanguage("en".to_string())]);
    }
}

#[test]
fn file_name_characters() {
    assert_eq!(file_name_char_of('a', true), 'a');
    assert_eq!(file_name_char_of('-', false), '-');
    assert_eq!(file_name_char_of('_', false), '_');
    assert_eq!(file_name_char_of('.', false), '.');
    assert_eq!(file_name_char_of('/', false), '_');
    assert_eq!(file_name_char_of(' ', false), '_');
    assert_eq!(file_name_char_of('\u{e9}', true), '\u{e9}');
}

#[test]
fn postscript_is_accepted_and_stored() {
    let mut printer = make_printer();
    let req = print_request(b"PS", b"application/postscript", b"%!PS-Adobe-3.0");
    let resp = parse_ipp_request(&run(&req, &mut printer)).unwrap();
    assert_eq!(u16::from(resp.operation_id), 0x0000u16);
    let job = printer.job(1).unwrap();
    assert_eq!(job.file_path, Some(PathBuf::from("/tmp/inkprint-jobs/1700000000_PS.pdf")));
}

#[test]
fn path_separators_are_replaced() {
    let mut printer = make_printer();
    let req = print_request(b"../x\\y", b"application/pdf", b"d");
    let job = match prepare_print_job(&req, &mut printer, 2) {
        Ok(j) => j,
        Err(_) => panic!("should be accepted"),
    };
    assert_eq!(job.file_name, "2_.._x_y.pdf");
}

#[test]
fn catalog_lists_documented_formats_and_operations() {
    let printer = make_printer();
    let raw = build_request(
        0x000B,
        1,
        vec![
            (0x44, "requested-attributes", b"operations-supported"),
            (0x44, "", b"document-format-supported"),
        ],
        b"",
    );
    let resp = handle_get_printer_attributes(&parse_ipp_request(&raw).unwrap(), &printer, NOW);
    let g = &resp.attribute_groups[1];
    let ops = &g.attributes.iter().find(|a| a.name == "operations-supported").unwrap().values;
    assert_eq!(*ops, vec![IppValue::Enum(2), IppValue::Enum(9), IppValue::Enum(11)]);
    let fmts = &g.attributes.iter().find(|a| a.name == "document-format-supported").unwrap().values;
    assert_eq!(
        *fmts,
        vec![
            IppValue::MimeMediaType("application/pdf".to_string()),
            IppValue::MimeMediaType("application/postscript".to_string()),
            IppValue::MimeMediaType("application/octet-stream".to_string()),
        ]
    );
}
