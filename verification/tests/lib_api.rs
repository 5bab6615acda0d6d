use std::sync::{Arc, Mutex};

use inkprint_core::ipp::operations::PrintJobCallback;
use inkprint_core::server::listener::{choose_local_ip, ipv4_to_string, InterfaceAddr, ServerHandle};
use inkprint_core::{
    get_local_ip, get_version, install_server, may_start_server, stop_server, ListenerCallback, PrintJobListener,
};

fn system_addrs() -> Vec<InterfaceAddr> {
    let mut out = vec![];
    if let Ok(ifaces) = if_addrs::get_if_addrs() {
        for iface in ifaces {
            let ipv4 = match &iface.addr {
                if_addrs::IfAddr::V4(a) => {
                    let o = a.ip.octets();
                    Some((o[0], o[1], o[2], o[3]))
                }
                if_addrs::IfAddr::V6(_) => None,
            };
            out.push(InterfaceAddr { is_loopback: iface.is_loopback(), ipv4 });
        }
    }
    out
}

#[test]
fn test_get_version() {
    assert_eq!(get_version(), "0.1.0");
}

#[test]
fn test_get_local_ip() {
    let ip = get_local_ip(&system_addrs());
    assert!(!ip.is_empty());
}

#[test]
fn local_ip_skips_loopback_and_ipv6() {
    let addrs = vec![
        InterfaceAddr { is_loopback: true, ipv4: Some((127, 0, 0, 1)) },
        InterfaceAddr { is_loopback: false, ipv4: None },
        InterfaceAddr { is_loopback: false, ipv4: Some((192, 168, 1, 20)) },
        InterfaceAddr { is_loopback: false, ipv4: Some((10, 0, 0, 5)) },
    ];
    assert_eq!(choose_local_ip(&addrs), (192, 168, 1, 20));
    assert_eq!(get_local_ip(&addrs), "192.168.1.20");
}

#[test]
fn local_ip_falls_back_to_loopback() {
    assert_eq!(get_local_ip(&vec![]), "127.0.0.1");
    let only_loopback = vec![InterfaceAddr { is_loopback: true, ipv4: Some((127, 0, 0, 1)) }];
    assert_eq!(choose_local_ip(&only_loopback), (127, 0, 0, 1));
}

#[test]
fn ipv4_text_forms() {
    assert_eq!(ipv4_to_string((0, 0, 0, 0)), "0.0.0.0");
    assert_eq!(ipv4_to_string((255, 10, 7, 100)), "255.10.7.100");
}

struct Counting(Mutex<Vec<(u32, String, String, u64)>>);

impl PrintJobListener for Counting {
    fn on_job_received(&self, job_id: u32, file_path: String, file_name: String, size_bytes: u64) {
        self.0.lock().unwrap().push((job_id, file_path, file_name, size_bytes));
    }
}

#[test]
fn listener_callback_forwards() {
    let listener = Arc::new(Counting(Mutex::new(vec![])));
    let cb = ListenerCallback(listener.clone());
    cb.on_job_received(4, "/p/f.pdf".to_string(), "f.pdf".to_string(), 10);
    assert_eq!(
        *listener.0.lock().unwrap(),
        vec![(4, "/p/f.pdf".to_string(), "f.pdf".to_string(), 10)]
    );
}

#[test]
fn stop_server_without_server() {
    let mut running: Option<ServerHandle> = None;
    assert!(!stop_server(&mut running));
    assert!(running.is_none());
}

#[test]
fn stop_server_stops_and_clears() {
    let (tx, mut rx) = tokio::sync::oneshot::channel::<()>();
    let mut running = Some(ServerHandle { shutdown_tx: tx, local_ip: (10, 1, 2, 3), port: 8631 });
    assert_eq!(
        running.as_ref().unwrap().printer_uri(),
        "ipp://10.1.2.3:8631/ipp/print"
    );
    assert!(stop_server(&mut running));
    assert!(running.is_none());
    assert_eq!(rx.try_recv(), Ok(()));
    assert!(!stop_server(&mut running));
}

#[test]
fn start_only_when_not_running() {
    let mut running: Option<ServerHandle> = None;
    assert!(may_start_server(&running));
    let (tx, _rx) = tokio::sync::oneshot::channel::<()>();
    running = Some(ServerHandle { shutdown_tx: tx, local_ip: (127, 0, 0, 1), port: 6310 });
    assert!(!may_start_server(&running));
}

#[test]
fn server_lifecycle() {
    let mut running: Option<ServerHandle> = None;
    assert!(may_start_server(&running));
    let (tx1, mut rx1) = tokio::sync::oneshot::channel::<()>();
    assert!(install_server(&mut running, ServerHandle { shutdown_tx: tx1, local_ip: (10, 0, 0, 1), port: 6310 }));
    assert!(!may_start_server(&running));

    let (tx2, mut rx2) = tokio::sync::oneshot::channel::<()>();
    assert!(!install_server(&mut running, ServerHandle { shutdown_tx: tx2, local_ip: (10, 0, 0, 2), port: 6311 }));
    assert_eq!(rx2.try_recv(), Ok(()));
    assert_eq!(running.as_ref().unwrap().port, 6310);

    assert!(stop_server(&mut running));
    assert_eq!(rx1.try_recv(), Ok(()));
    assert!(running.is_none());
    assert!(!stop_server(&mut running));
}
