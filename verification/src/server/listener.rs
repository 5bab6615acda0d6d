use vstd::prelude::*;
use vstd::string::StringExecFns;
use std::path::PathBuf;
use std::sync::Arc;
use tokio::sync::oneshot;
use crate::text::{decimal, push_decimal};
use crate::ipp::operations::PrintJobCallback;
use crate::ipp::printer::{printer_uri, spec_printer_uri};

verus! {

/// An IPv4 address, octet by octet.
pub type Ipv4Octets = (u8, u8, u8, u8);

/// A network interface address as the system lists it: whether it is a loopback address,
/// and its IPv4 address when it is one.
#[derive(Debug, Clone, Copy)]
pub struct InterfaceAddr {
    pub is_loopback: bool,
    pub ipv4: Option<Ipv4Octets>,
}

/// The local LAN address: the first non-loopback IPv4 address, else 127.0.0.1.
pub open spec fn first_lan_ipv4(addrs: Seq<InterfaceAddr>) -> Ipv4Octets
    decreases addrs.len(),
{
    if addrs.len() == 0 {
        (127, 0, 0, 1)
    } else if !addrs[0].is_loopback && addrs[0].ipv4 is Some {
        addrs[0].ipv4->Some_0
    } else {
        first_lan_ipv4(addrs.drop_first())
    }
}

/// Picks the local LAN address (first non-loopback IPv4) among the system's interfaces.
pub fn choose_local_ip(addrs: &Vec<InterfaceAddr>) -> (ip: Ipv4Octets)
    ensures
        ip == first_lan_ipv4(addrs@),
{
    let mut i: usize = 0;
    proof {
        assert(addrs@.skip(0) =~= addrs@);
    }
    while i < addrs.len()
        invariant
            i <= addrs@.len(),
            first_lan_ipv4(addrs@) == first_lan_ipv4(addrs@.skip(i as int)),
        decreases addrs@.len() - i,
    {
        proof {
            assert(addrs@.skip(i as int).drop_first() =~= addrs@.skip(i + 1));
        }
        let a = addrs[i];
        if !a.is_loopback {
            match a.ipv4 {
                Some(v4) => return v4,
                None => {},
            }
        }
        i = i + 1;
    }
    (127, 0, 0, 1)
}

/// Dotted-decimal text of an IPv4 address.
pub open spec fn ipv4_text(ip: Ipv4Octets) -> Seq<char> {
    decimal(ip.0 as nat) + "."@ + decimal(ip.1 as nat) + "."@ + decimal(ip.2 as nat) + "."@
        + decimal(ip.3 as nat)
}

/// Writes an IPv4 address in dotted-decimal form.
pub fn ipv4_to_string(ip: Ipv4Octets) -> (s: String)
    ensures
        s@ == ipv4_text(ip),
{
    let mut s = String::new();
    push_decimal(&mut s, ip.0 as u64);
    s.append(".");
    push_decimal(&mut s, ip.1 as u64);
    s.append(".");
    push_decimal(&mut s, ip.2 as u64);
    s.append(".");
    push_decimal(&mut s, ip.3 as u64);
    proof {
        assert(s@ =~= ipv4_text(ip));
    }
    s
}

/// The sending half of a one-shot channel.
#[verifier::external_type_specification]
#[verifier::external_body]
#[verifier::reject_recursive_types(T)]
pub struct ExOneshotSender<T>(oneshot::Sender<T>);

/// What a server is started with: its port, where documents go, the printer's name and who
/// is told of completed jobs.
pub struct ServerConfig {
    pub port: u16,
    pub storage_dir: PathBuf,
    pub printer_name: String,
    pub callback: Option<Arc<dyn PrintJobCallback>>,
}

/// A running server: the channel that stops it, and where it is reached.
pub struct ServerHandle {
    pub shutdown_tx: oneshot::Sender<()>,
    pub local_ip: Ipv4Octets,
    pub port: u16,
}

/// `oneshot::Sender::send`: hands the unit value to the receiving half, if it is still there;
/// whether it was is of no use to the caller, so nothing is stated of the result.
#[verifier::external_body]
fn send_shutdown(tx: oneshot::Sender<()>) {
    let _ = tx.send(());
}

impl ServerHandle {
    /// Tells the server to shut down.
    pub fn stop(self) {
        send_shutdown(self.shutdown_tx);
    }

    /// The printer URI under which the server is reached.
    pub fn printer_uri(&self) -> (s: String)
        ensures
            s@ == spec_printer_uri(ipv4_text(self.local_ip), self.port),
    {
        let ip = ipv4_to_string(self.local_ip);
        printer_uri(ip.as_str(), self.port)
    }
}

} // verus!
