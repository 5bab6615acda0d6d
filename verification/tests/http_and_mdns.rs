use std::path::PathBuf;

use inkprint_core::ipp::parser::parse_ipp_request;
use inkprint_core::ipp::printer::{printer_uri, JobState, PrinterState};
use inkprint_core::ipp::types::IppValue;
use inkprint_core::mdns::advertiser::{
    host_name, host_name_of_lowercase, instance_name, service_type, txt_properties, REANNOUNCE_SECS,
};
use inkprint_core::server::http::{handle_body, ipp_response, screen_request, HttpStep, MAX_BODY_BYTES};

fn printer() -> PrinterState {
    PrinterState::new("Ink Print".to_string(), "192.168.0.9", 8631, PathBuf::from("/tmp/x"))
}

fn request(op: u16, doc: &[u8]) -> Vec<u8> {
    let mut buf = vec![1u8, 1];
    buf.extend_from_slice(&op.to_be_bytes());
    buf.extend_from_slice(&21u32.to_be_bytes());
    buf.push(0x01);
    buf.push(0x47);
    buf.extend_from_slice(&18u16.to_be_bytes());
    buf.extend_from_slice(b"attributes-charset");
    buf.extend_from_slice(&5u16.to_be_bytes());
    buf.extend_from_slice(b"utf-8");
    buf.push(0x03);
    buf.extend_from_slice(doc);
    buf
}

#[test]
fn screen_accepts_ipp_posts() {
    assert!(screen_request("POST", "/ipp/print", "application/ipp").is_none());
    assert!(screen_request("POST", "/ipp/print", "application/ipp; charset=utf-8").is_none());
}

#[test]
fn screen_refuses_other_paths_and_methods() {
    let r = screen_request("GET", "/ipp/print", "application/ipp").unwrap();
    assert_eq!(r.status, 404);
    assert_eq!(r.body, b"Not Found");
    assert!(r.content_type.is_none());
    let r = screen_request("POST", "/other", "application/ipp").unwrap();
    assert_eq!(r.status, 404);
    let r = screen_request("POST", "/", "application/ipp").unwrap();
    assert_eq!(r.status, 404);
}

#[test]
fn screen_refuses_other_content_types() {
    let r = screen_request("POST", "/ipp/print", "text/plain").unwrap();
    assert_eq!(r.status, 400);
    assert_eq!(r.body, b"Expected application/ipp");
    let r = screen_request("POST", "/ipp/print", "").unwrap();
    assert_eq!(r.status, 400);
}

#[test]
fn body_read_failure_is_500() {
    let mut p = printer();
    match handle_body(None, &mut p, 0) {
        HttpStep::Reply(r) => {
            assert_eq!(r.status, 500);
            assert_eq!(r.body, b"Failed to read body");
        }
        HttpStep::Store(..) => panic!("no job"),
    }
}

#[test]
fn invalid_ipp_is_400() {
    let mut p = printer();
    match handle_body(Some(&[1, 1, 0]), &mut p, 0) {
        HttpStep::Reply(r) => {
            assert_eq!(r.status, 400);
            assert_eq!(r.body, b"Invalid IPP request");
        }
        HttpStep::Store(..) => panic!("no job"),
    }
}

#[test]
fn oversized_body_is_413() {
    assert_eq!(MAX_BODY_BYTES, 512 * 1024 * 1024);
    let big = vec![0u8; MAX_BODY_BYTES + 1];
    let mut p = printer();
    match handle_body(Some(&big), &mut p, 0) {
        HttpStep::Reply(r) => {
            assert_eq!(r.status, 413);
            assert_eq!(r.body, b"Request body too large");
        }
        HttpStep::Store(..) => panic!("no job"),
    }
}

#[test]
fn ipp_body_gets_ipp_reply() {
    let mut p = printer();
    match handle_body(Some(&request(0x000B, b"")), &mut p, 0) {
        HttpStep::Reply(r) => {
            assert_eq!(r.status, 200);
            assert_eq!(r.content_type.as_deref(), Some("application/ipp"));
            let resp = parse_ipp_request(&r.body).unwrap();
            assert_eq!(resp.request_id, 21);
            assert_eq!(
                resp.attribute_groups[1].get("printer-name"),
                Some(&IppValue::NameWithoutLanguage("Ink Print".to_string()))
            );
        }
        HttpStep::Store(..) => panic!("no job"),
    }
    assert_eq!(p.job_counter, 1);
}

#[test]
fn print_body_becomes_a_job() {
    let mut p = printer();
    match handle_body(Some(&request(0x0002, b"%PDF")), &mut p, 3) {
        HttpStep::Store(job, doc) => {
            assert_eq!(doc, b"%PDF");
            assert_eq!(job.job_id, 1);
            assert_eq!(job.size_bytes, 4);
            assert_eq!(job.file_name, "3_Untitled.pdf");
        }
        HttpStep::Reply(_) => panic!("a job"),
    }
    assert_eq!(p.job_counter, 2);
}

#[test]
fn ipp_response_wraps_bytes() {
    let r = ipp_response(vec![1, 2, 3]);
    assert_eq!(r.status, 200);
    assert_eq!(r.body, vec![1, 2, 3]);
    assert_eq!(r.content_type.unwrap(), "application/ipp");
}

#[test]
fn printer_uri_form() {
    assert_eq!(printer_uri("10.0.0.2", 631), "ipp://10.0.0.2:631/ipp/print");
    assert_eq!(printer().printer_uri, "ipp://192.168.0.9:8631/ipp/print");
}

#[test]
fn next_job_id_counts_up_and_wraps() {
    let mut p = printer();
    assert_eq!(p.next_job_id(), 1);
    assert_eq!(p.next_job_id(), 2);
    p.job_counter = u32::MAX;
    assert_eq!(p.next_job_id(), u32::MAX);
    assert_eq!(p.job_counter, 0);
}

#[test]
fn job_state_codes() {
    assert_eq!(JobState::Pending.code(), 3);
    assert_eq!(JobState::Processing.code(), 5);
    assert_eq!(JobState::Completed.code(), 9);
}

#[test]
fn mdns_names() {
    assert_eq!(service_type(), "_universal._sub._ipp._tcp.local.");
    assert_eq!(instance_name("InkPrint"), "InkPrint._ipp._tcp.local.");
    assert_eq!(host_name("My Ink Print"), "my-ink-print.local.");
    assert_eq!(REANNOUNCE_SECS, 60);
}

#[test]
fn mdns_txt_record() {
    let props = txt_properties("192.168.1.5", 8631);
    let expected: Vec<(String, String)> = vec![
        ("txtvers", "1"),
        ("pdl", "application/pdf"),
        ("rp", "ipp/print"),
        ("product", "(InkPrint)"),
        ("ty", "InkPrint Virtual Printer"),
        ("adminurl", "http://192.168.1.5:8631/"),
        ("priority", "0"),
    ]
    .into_iter()
    .map(|(k, v)| (k.to_string(), v.to_string()))
    .collect();
    assert_eq!(props, expected);
}

#[test]
fn host_name_from_lower_case_form() {
    assert_eq!(host_name_of_lowercase("a b  c"), "a-b--c.local.");
    assert_eq!(host_name_of_lowercase(""), ".local.");
    assert_eq!(host_name("\u{C9}TAGE 2"), "\u{e9}tage-2.local.");
}

#[test]
fn fresh_printer_hands_out_distinct_ids() {
    let mut p = printer();
    let ids: Vec<u32> = (0..5).map(|_| p.next_job_id()).collect();
    assert_eq!(ids, vec![1, 2, 3, 4, 5]);
}
