//! The static well-known-service table: a read-only mapping from port
//! number to a human-readable label, built once and never mutated.

use std::collections::HashMap;
use vstd::prelude::*;

verus! {

/// The label the scanner attaches to a well-known port, if any.
pub open spec fn spec_service_name(port: u16) -> Option<Seq<char>> {
    if port == 21 {
        Some("FTP"@)
    } else if port == 22 {
        Some("SSH"@)
    } else if port == 23 {
        Some("TELNET"@)
    } else if port == 25 {
        Some("SMTP"@)
    } else if port == 53 {
        Some("DNS"@)
    } else if port == 80 {
        Some("HTTP"@)
    } else if port == 110 {
        Some("POP3"@)
    } else if port == 143 {
        Some("IMAP"@)
    } else if port == 443 {
        Some("HTTPS"@)
    } else if port == 3306 {
        Some("MySQL"@)
    } else if port == 6379 {
        Some("Redis"@)
    } else if port == 8080 {
        Some("HTTP-ALT"@)
    } else {
        None
    }
}

/// Looks a port up in the service table.
pub fn service_label(port: u16) -> (r: Option<&'static str>)
    ensures
        match r {
            Some(s) => spec_service_name(port) == Some(s@),
            None => spec_service_name(port) is None,
        },
{
    if port == 21 {
        Some("FTP")
    } else if port == 22 {
        Some("SSH")
    } else if port == 23 {
        Some("TELNET")
    } else if port == 25 {
        Some("SMTP")
    } else if port == 53 {
        Some("DNS")
    } else if port == 80 {
        Some("HTTP")
    } else if port == 110 {
        Some("POP3")
    } else if port == 143 {
        Some("IMAP")
    } else if port == 443 {
        Some("HTTPS")
    } else if port == 3306 {
        Some("MySQL")
    } else if port == 6379 {
        Some("Redis")
    } else if port == 8080 {
        Some("HTTP-ALT")
    } else {
        None
    }
}

/// The service table as a map, for callers that prefer to hold it built:
/// its keys are exactly the well-known ports and each maps to its label.
pub fn service_map() -> (m: HashMap<u16, &'static str>)
    ensures
        forall|p: u16| #[trigger] m@.contains_key(p) <==> spec_service_name(p) is Some,
        forall|p: u16| #[trigger] m@.contains_key(p) ==> spec_service_name(p) == Some(m@[p]@),
{
    broadcast use vstd::std_specs::hash::group_hash_axioms;

    let mut m: HashMap<u16, &'static str> = HashMap::new();
    m.insert(21, "FTP");
    m.insert(22, "SSH");
    m.insert(23, "TELNET");
    m.insert(25, "SMTP");
    m.insert(53, "DNS");
    m.insert(80, "HTTP");
    m.insert(110, "POP3");
    m.insert(143, "IMAP");
    m.insert(443, "HTTPS");
    m.insert(3306, "MySQL");
    m.insert(6379, "Redis");
    m.insert(8080, "HTTP-ALT");
    m
}

} // verus!
