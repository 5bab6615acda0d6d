//! IPP printer core: the IPP wire format, the printer's operations, and the decisions of the
//! HTTP and mDNS layers.

pub mod ipp;
pub mod text;
pub mod server;
pub mod mdns;

use vstd::prelude::*;
use vstd::string::StringExecFns;
use std::sync::Arc;
use crate::ipp::operations::PrintJobCallback;
use crate::server::listener::{
    InterfaceAddr, ServerHandle, choose_local_ip, first_lan_ipv4, ipv4_text, ipv4_to_string,
};

verus! {

/// Told of each document the printer has stored; implemented by the embedding application.
pub trait PrintJobListener: Send + Sync {
    fn on_job_received(&self, job_id: u32, file_path: String, file_name: String, size_bytes: u64);
}

/// A listener, seen as the printer's job callback.
pub struct ListenerCallback(pub Arc<dyn PrintJobListener>);

impl PrintJobCallback for ListenerCallback {
    fn on_job_received(&self, job_id: u32, file_path: String, file_name: String, size_bytes: u64) {
        self.0.on_job_received(job_id, file_path, file_name, size_bytes);
    }
}

/// Whether a server may be started: only when none is running.
pub fn may_start_server(running: &Option<ServerHandle>) -> (ok: bool)
    ensures
        ok == (*running is None),
{
    running.is_none()
}

/// The slot of the running server after a newly started server's handle `h` is offered:
/// it is kept only when no server was running.
pub open spec fn installed(running: Option<ServerHandle>, h: ServerHandle) -> Option<ServerHandle> {
    match running {
        Some(r) => Some(r),
        None => Some(h),
    }
}

/// Keeps the handle of a newly started server as the running one, when none is running;
/// otherwise the new server is told to stop and the running one is kept. Returns whether
/// the handle was kept.
pub fn install_server(running: &mut Option<ServerHandle>, h: ServerHandle) -> (ok: bool)
    ensures
        ok == (*old(running) is None),
        *final(running) == installed(*old(running), h),
{
    if running.is_none() {
        *running = Some(h);
        true
    } else {
        h.stop();
        false
    }
}

/// Stops the running server, if there is one: its handle is taken out of `running` and
/// told to stop. Returns whether a server was running.
pub fn stop_server(running: &mut Option<ServerHandle>) -> (stopped: bool)
    ensures
        stopped == (*old(running) is Some),
        *final(running) is None,
{
    match running.take() {
        Some(h) => {
            h.stop();
            true
        },
        None => false,
    }
}

/// The version of this library.
pub fn get_version() -> (v: String)
    ensures
        v@ == "0.1.0"@,
{
    String::from_str("0.1.0")
}

/// The local LAN address, as text, among the system's interface addresses.
pub fn get_local_ip(addrs: &Vec<InterfaceAddr>) -> (s: String)
    ensures
        s@ == ipv4_text(first_lan_ipv4(addrs@)),
{
    ipv4_to_string(choose_local_ip(addrs))
}

/// The life of the server: a start is allowed only when no server runs; a second start is
/// refused and leaves the running server in place; a start that installs its handle is
/// stopped by the next stop, which reports that a server was running and leaves none.
pub proof fn lemma_server_lifecycle(running: Option<ServerHandle>, h: ServerHandle)
    ensures
        running is Some ==> installed(running, h) == running,
        running is None ==> installed(running, h) == Some(h),
        installed(running, h) is Some,
{
}

} // verus!
