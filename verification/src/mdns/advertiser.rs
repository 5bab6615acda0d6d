use vstd::prelude::*;
use vstd::string::{StringExecFns, StrSliceExecFns};
use crate::text::{decimal, push_char, push_decimal};

verus! {

/// Seconds between re-announcements: remote caches hold the records for 120 s and refresh
/// at about 96 s, so two fresh announcements come before any record can expire.
pub const REANNOUNCE_SECS: u64 = 60;

/// The service type registered: the IPP base type with the AirPrint `_universal` subtype.
pub open spec fn spec_service_type() -> Seq<char> {
    "_universal._sub._ipp._tcp.local."@
}

/// The service type registered.
pub fn service_type() -> (s: String)
    ensures
        s@ == spec_service_type(),
{
    String::from_str("_universal._sub._ipp._tcp.local.")
}

/// The full name of the service instance: `{printer_name}._ipp._tcp.local.`.
pub open spec fn spec_instance_name(printer_name: Seq<char>) -> Seq<char> {
    printer_name + "._ipp._tcp.local."@
}

/// The full name of the service instance.
pub fn instance_name(printer_name: &str) -> (s: String)
    ensures
        s@ == spec_instance_name(printer_name@),
{
    let mut s = String::from_str(printer_name);
    s.append("._ipp._tcp.local.");
    s
}

/// The lower-case form of a string, as `str::to_lowercase` maps it (Unicode case mapping).
pub uninterp spec fn lowercase(s: Seq<char>) -> Seq<char>;

/// Whether every character of a string is ASCII.
pub open spec fn all_ascii(s: Seq<char>) -> bool {
    forall|i: int| 0 <= i < s.len() ==> (#[trigger] s[i] as u32) < 0x80
}

/// An ASCII character in lower case: `A`-`Z` become `a`-`z`, anything else stays.
pub open spec fn ascii_lower(c: char) -> char {
    if 0x41 <= (c as u32) && (c as u32) <= 0x5A {
        ((c as u32) + 0x20) as char
    } else {
        c
    }
}

/// The lower-case form of a string: character by character for ASCII text, by Unicode's
/// case mapping otherwise.
pub open spec fn lower_case(s: Seq<char>) -> Seq<char> {
    if all_ascii(s) {
        Seq::new(s.len(), |i: int| ascii_lower(s[i]))
    } else {
        lowercase(s)
    }
}

/// `str::to_lowercase`: Unicode's lower-case mapping; on ASCII text, each letter `A`-`Z`
/// becomes `a`-`z` and every other character stays, so the length is kept.
#[verifier::external_body]
fn to_lowercase(s: &str) -> (r: String)
    ensures
        r@ == lowercase(s@),
        all_ascii(s@) ==> r@ == Seq::new(s@.len(), |i: int| ascii_lower(s@[i])),
{
    s.to_lowercase()
}

/// `s` with every space made a hyphen.
pub open spec fn spaces_to_hyphens(s: Seq<char>) -> Seq<char> {
    Seq::new(s.len(), |i: int| if s[i] == ' ' { '-' } else { s[i] })
}

/// The host name advertised: the printer name in lower case, spaces made hyphens,
/// in `.local.`.
pub open spec fn spec_host_name(printer_name: Seq<char>) -> Seq<char> {
    spaces_to_hyphens(lower_case(printer_name)) + ".local."@
}

/// The host name advertised for a printer whose name, in lower case, is `lower`.
pub fn host_name_of_lowercase(lower: &str) -> (s: String)
    ensures
        s@ == spaces_to_hyphens(lower@) + ".local."@,
{
    let n = lower.unicode_len();
    let mut s = String::new();
    let mut i: usize = 0;
    while i < n
        invariant
            n == lower@.len(),
            i <= n,
            s@ == spaces_to_hyphens(lower@).take(i as int),
        decreases n - i,
    {
        let c = lower.get_char(i);
        push_char(&mut s, if c == ' ' { '-' } else { c });
        proof {
            assert(s@ =~= spaces_to_hyphens(lower@).take(i + 1));
        }
        i = i + 1;
    }
    s.append(".local.");
    proof {
        assert(spaces_to_hyphens(lower@).take(n as int) =~= spaces_to_hyphens(lower@));
    }
    s
}

/// The host name advertised.
pub fn host_name(printer_name: &str) -> (s: String)
    ensures
        s@ == spec_host_name(printer_name@),
{
    let lower = to_lowercase(printer_name);
    host_name_of_lowercase(lower.as_str())
}

/// The administration URL in the TXT record: `http://{ip}:{port}/`.
pub open spec fn admin_url(ip: Seq<char>, port: u16) -> Seq<char> {
    "http://"@ + ip + ":"@ + decimal(port as nat) + "/"@
}

/// The TXT record of the service, key by key.
pub open spec fn spec_txt_properties(ip: Seq<char>, port: u16) -> Seq<(Seq<char>, Seq<char>)> {
    seq![
        ("txtvers"@, "1"@),
        ("pdl"@, "application/pdf"@),
        ("rp"@, "ipp/print"@),
        ("product"@, "(InkPrint)"@),
        ("ty"@, "InkPrint Virtual Printer"@),
        ("adminurl"@, admin_url(ip, port)),
        ("priority"@, "0"@),
    ]
}

/// The abstract form of key-value pairs of strings.
pub open spec fn pairs_view(v: Seq<(String, String)>) -> Seq<(Seq<char>, Seq<char>)> {
    v.map_values(|p: (String, String)| (p.0@, p.1@))
}

/// Appends a key-value pair.
fn push_pair(v: &mut Vec<(String, String)>, key: &str, value: String)
    ensures
        pairs_view(final(v)@) == pairs_view(old(v)@).push((key@, value@)),
{
    v.push((String::from_str(key), value));
    proof {
        assert(pairs_view(final(v)@) =~= pairs_view(old(v)@).push((key@, value@)));
    }
}

/// The TXT record of the service, for a printer at `ip` and `port`.
pub fn txt_properties(ip: &str, port: u16) -> (props: Vec<(String, String)>)
    ensures
        pairs_view(props@) == spec_txt_properties(ip@, port),
{
    let mut props: Vec<(String, String)> = Vec::new();
    proof {
        assert(pairs_view(props@) =~= Seq::<(Seq<char>, Seq<char>)>::empty());
    }
    let mut admin = String::from_str("http://");
    admin.append(ip);
    admin.append(":");
    push_decimal(&mut admin, port as u64);
    admin.append("/");
    push_pair(&mut props, "txtvers", String::from_str("1"));
    push_pair(&mut props, "pdl", String::from_str("application/pdf"));
    push_pair(&mut props, "rp", String::from_str("ipp/print"));
    push_pair(&mut props, "product", String::from_str("(InkPrint)"));
    push_pair(&mut props, "ty", String::from_str("InkPrint Virtual Printer"));
    push_pair(&mut props, "adminurl", admin);
    push_pair(&mut props, "priority", String::from_str("0"));
    proof {
        assert(pairs_view(props@) =~= spec_txt_properties(ip@, port));
    }
    props
}

} // verus!
