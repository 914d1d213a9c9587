//! Host and network trivia: system information through the `sys_info`
//! crate, URL/IP defanging, WHOIS, and the host's internal address.
//!
//! The two operations that need a socket are split: [`mercy_extra_plan`]
//! tells the caller what outside step to perform, the caller performs it,
//! and [`mercy_extra`] turns the outcome into the reported string.

use vstd::prelude::*;
use vstd::string::{StrSliceExecFns, StringExecFns};
use vstd::utf8::{decode_utf8, valid_utf8};

use crate::errors::MercyError;
use crate::text::{chars_to_string, dec_of, starts_with, str_eq, u64_to_string};

verus! {

/// The outside datum an extra operation consumed, as the caller found it.
pub enum NetEvent {
    /// No outside step was needed, or it was not performed.
    NoData,
    /// The local address of a UDP socket routed toward a public host.
    LocalAddr(String),
    /// The bytes a WHOIS server returned for the query.
    WhoisReply(Vec<u8>),
}

/// The outside step an extra operation needs before it can answer.
pub enum ExtraPlan {
    /// The operation answers from its arguments alone.
    NoOutsideWork,
    /// Discover the local outbound address and hand it back.
    DiscoverLocalAddr,
    /// Send this query to the WHOIS server and hand back the raw reply.
    SendWhois(String),
}

/// Relies on `sys_info::hostname`; the value depends on the machine, so
/// nothing further is promised. Known edge: the crate itself aborts on a
/// machine whose hostname is not UTF-8 — machine state that no
/// precondition here could exclude.
#[verifier::external_body]
fn os_hostname() -> (r: Option<String>) {
    sys_info::hostname().ok()
}

/// Relies on `sys_info::cpu_num`; the value depends on the machine.
#[verifier::external_body]
fn os_cpu_num() -> (r: Option<u32>) {
    sys_info::cpu_num().ok()
}

/// Relies on `sys_info::cpu_speed`; the value depends on the machine.
#[verifier::external_body]
fn os_cpu_speed() -> (r: Option<u64>) {
    sys_info::cpu_speed().ok()
}

/// Relies on `sys_info::os_release`; the value depends on the machine.
#[verifier::external_body]
fn os_release_info() -> (r: Option<String>) {
    sys_info::os_release().ok()
}

/// Relies on `sys_info::proc_total`; the value depends on the machine.
#[verifier::external_body]
fn os_proc_total() -> (r: Option<u64>) {
    sys_info::proc_total().ok()
}

/// Relies on `core::str::from_utf8`: it succeeds exactly on valid UTF-8 and
/// yields its decoding.
#[verifier::external_body]
fn bytes_to_utf8(bytes: &Vec<u8>) -> (r: Option<String>)
    ensures
        r is Some <==> valid_utf8(bytes@),
        r matches Some(s) ==> s@ == decode_utf8(bytes@),
{
    match core::str::from_utf8(bytes) {
        Ok(s) => Some(s.to_string()),
        Err(_) => None,
    }
}

/// The defanged form of one character: a dot becomes `[.]`.
pub open spec fn defang_char(c: char) -> Seq<char> {
    if c == '.' {
        seq!['[', '.', ']']
    } else {
        seq![c]
    }
}

/// Every `.` replaced by `[.]`, everything else unchanged.
pub open spec fn defang_of(s: Seq<char>) -> Seq<char>
    decreases s.len(),
{
    if s.len() == 0 {
        Seq::empty()
    } else {
        defang_of(s.drop_last()) + defang_char(s.last())
    }
}

/// Defang a URL or IP address. Total: every string is accepted, the empty
/// string comes back empty.
pub fn defang(ip_or_url: &str) -> (r: String)
    ensures
        r@ == defang_of(ip_or_url@),
{
    let len = ip_or_url.unicode_len();
    let mut out: Vec<char> = Vec::new();
    let mut i: usize = 0;
    while i < len
        invariant
            i <= len,
            len == ip_or_url@.len(),
            out@ == defang_of(ip_or_url@.take(i as int)),
        decreases len - i,
    {
        let c = ip_or_url.get_char(i);
        if c == '.' {
            out.push('[');
            out.push('.');
            out.push(']');
        } else {
            out.push(c);
        }
        proof {
            assert(ip_or_url@.take(i as int + 1).drop_last() =~= ip_or_url@.take(i as int));
            assert(out@ =~= defang_of(ip_or_url@.take(i as int + 1)));
        }
        i += 1;
    }
    proof {
        assert(ip_or_url@.take(len as int) =~= ip_or_url@);
    }
    chars_to_string(&out)
}

/// What a system-information row looks like for its selector: the labelled
/// value on success, `IoError` when the operating system does not expose it.
pub open spec fn info_row_post(prefix: Seq<char>, r: Result<String, MercyError>) -> bool {
    match r {
        Ok(s) => starts_with(s@, prefix),
        Err(e) => e == MercyError::IoError,
    }
}

/// What a numeric system-information row looks like: the label, the decimal
/// rendering of the value the operating system reported, and the unit.
pub open spec fn u64_row_post(
    prefix: Seq<char>,
    suffix: Seq<char>,
    r: Result<String, MercyError>,
) -> bool {
    match r {
        Ok(s) => exists|n: nat| s@ == prefix + #[trigger] dec_of(n) + suffix,
        Err(e) => e == MercyError::IoError,
    }
}

/// The full report of every system value: the five labelled rows in order,
/// with the numeric ones rendered in decimal.
pub open spec fn all_report(
    host: Seq<char>,
    release: Seq<char>,
    cores: nat,
    speed: nat,
    procs: nat,
) -> Seq<char> {
    "\nHostname: "@ + host + "\nNumber of CPU cores: "@ + dec_of(cores) + "\nCPU Fan Speed: "@
        + dec_of(speed) + " MHz\nOperating System Release Version: "@ + release
        + "\nNumber of Processes: "@ + dec_of(procs) + "\n"@
}

/// What the `"all"` selector returns: the full report for the values the
/// operating system handed over, `IoError` when any of them is missing.
pub open spec fn all_rows_post(r: Result<String, MercyError>) -> bool {
    match r {
        Ok(s) => exists|host: Seq<char>, release: Seq<char>, cores: nat, speed: nat, procs: nat|
            s@ == #[trigger] all_report(host, release, cores, speed, procs),
        Err(e) => e == MercyError::IoError,
    }
}

/// What [`system_info`] returns for each selector.
pub open spec fn system_info_post(data: Seq<char>, r: Result<String, MercyError>) -> bool {
    &&& (data == "hostname"@ ==> info_row_post("Hostname: "@, r))
    &&& (data == "cpu_cores"@ ==> u64_row_post("Number of CPU cores: "@, Seq::empty(), r))
    &&& (data == "cpu_speed"@ ==> u64_row_post("CPU Fan Speed: "@, " MHz"@, r))
    &&& (data == "os_release"@ ==> info_row_post("Operating System Release Version: "@, r))
    &&& (data == "proc"@ ==> u64_row_post("Number of Processes: "@, Seq::empty(), r))
    &&& (data == "all"@ ==> all_rows_post(r))
    &&& (data != "hostname"@ && data != "cpu_cores"@ && data != "cpu_speed"@ && data
        != "os_release"@ && data != "proc"@ && data != "all"@ ==> r == Err::<String, MercyError>(
        MercyError::UnsupportedOperation,
    ))
}

fn labelled(prefix: &str, value: &str) -> (r: String)
    ensures
        r@ == prefix@ + value@,
        starts_with(r@, prefix@),
{
    let mut s = String::from_str(prefix);
    s.append(value);
    proof {
        assert((prefix@ + value@).subrange(0, prefix@.len() as int) =~= prefix@);
    }
    s
}

fn labelled_u64(prefix: &str, value: u64) -> (r: String)
    ensures
        r@ == prefix@ + dec_of(value as nat),
        starts_with(r@, prefix@),
{
    let rendered = u64_to_string(value);
    labelled(prefix, rendered.as_str())
}

/// One system-information report, selected by `data`: `"hostname"`,
/// `"cpu_cores"`, `"cpu_speed"`, `"os_release"`, `"proc"` or `"all"`.
pub fn system_info(data: &str) -> (r: Result<String, MercyError>)
    ensures
        system_info_post(data@, r),
{
    proof {
        reveal_strlit("hostname");
        reveal_strlit("cpu_cores");
        reveal_strlit("cpu_speed");
        reveal_strlit("os_release");
        reveal_strlit("proc");
        reveal_strlit("all");
        assert("hostname"@.len() == 8);
        assert("cpu_cores"@.len() == 9);
        assert("cpu_speed"@.len() == 9);
        assert("os_release"@.len() == 10);
        assert("proc"@.len() == 4);
        assert("all"@.len() == 3);
        assert("cpu_cores"@[4] == 'c' && "cpu_speed"@[4] == 's');
    }
    if str_eq(data, "hostname") {
        match os_hostname() {
            Some(h) => Ok(labelled("Hostname: ", h.as_str())),
            None => Err(MercyError::IoError),
        }
    } else if str_eq(data, "cpu_cores") {
        match os_cpu_num() {
            Some(n) => {
                let row = labelled_u64("Number of CPU cores: ", n as u64);
                proof {
                    assert(row@ == "Number of CPU cores: "@ + dec_of((n as u64) as nat)
                        + Seq::<char>::empty()) by {
                        assert(row@ =~= "Number of CPU cores: "@ + dec_of((n as u64) as nat)
                            + Seq::<char>::empty());
                    }
                }
                Ok(row)
            },
            None => Err(MercyError::IoError),
        }
    } else if str_eq(data, "cpu_speed") {
        match os_cpu_speed() {
            Some(n) => {
                let row = labelled_u64("CPU Fan Speed: ", n);
                let full = labelled(row.as_str(), " MHz");
                proof {
                    assert(full@ == "CPU Fan Speed: "@ + dec_of(n as nat) + " MHz"@) by {
                        assert(full@ =~= "CPU Fan Speed: "@ + dec_of(n as nat) + " MHz"@);
                    }
                }
                Ok(full)
            },
            None => Err(MercyError::IoError),
        }
    } else if str_eq(data, "os_release") {
        match os_release_info() {
            Some(v) => Ok(labelled("Operating System Release Version: ", v.as_str())),
            None => Err(MercyError::IoError),
        }
    } else if str_eq(data, "proc") {
        match os_proc_total() {
            Some(n) => {
                let row = labelled_u64("Number of Processes: ", n);
                proof {
                    assert(row@ == "Number of Processes: "@ + dec_of(n as nat)
                        + Seq::<char>::empty()) by {
                        assert(row@ =~= "Number of Processes: "@ + dec_of(n as nat)
                            + Seq::<char>::empty());
                    }
                }
                Ok(row)
            },
            None => Err(MercyError::IoError),
        }
    } else if str_eq(data, "all") {
        let host = os_hostname();
        let cores = os_cpu_num();
        let speed = os_cpu_speed();
        let release = os_release_info();
        let procs = os_proc_total();
        match (host, cores, speed, release, procs) {
            (Some(h), Some(c), Some(sp), Some(re), Some(p)) => {
                let mut s = labelled("\nHostname: ", h.as_str());
                s.append("\nNumber of CPU cores: ");
                let cores_s = u64_to_string(c as u64);
                s.append(cores_s.as_str());
                s.append("\nCPU Fan Speed: ");
                let speed_s = u64_to_string(sp);
                s.append(speed_s.as_str());
                s.append(" MHz\nOperating System Release Version: ");
                s.append(re.as_str());
                s.append("\nNumber of Processes: ");
                let procs_s = u64_to_string(p);
                s.append(procs_s.as_str());
                s.append("\n");
                proof {
                    assert(s@ == all_report(h@, re@, (c as u64) as nat, sp as nat, p as nat)) by {
                        assert(s@ =~= all_report(h@, re@, (c as u64) as nat, sp as nat, p as nat));
                    }
                }
                Ok(s)
            },
            _ => Err(MercyError::IoError),
        }
    } else {
        Err(MercyError::UnsupportedOperation)
    }
}

/// The outside step that an extra call needs: a socket for `"internal_ip"`
/// and `"whois"` (the WHOIS query is the domain followed by CRLF), nothing
/// for the rest.
pub fn mercy_extra_plan(mercy_call: &str, mercy_choose: &str) -> (r: ExtraPlan)
    ensures
        mercy_call@ == "internal_ip"@ ==> r == ExtraPlan::DiscoverLocalAddr,
        mercy_call@ == "whois"@ ==> (r matches ExtraPlan::SendWhois(q) && q@ == mercy_choose@
            + "\r\n"@),
        mercy_call@ != "internal_ip"@ && mercy_call@ != "whois"@ ==> r == ExtraPlan::NoOutsideWork,
{
    proof {
        reveal_strlit("internal_ip");
        reveal_strlit("whois");
        assert("internal_ip"@.len() == 11);
        assert("whois"@.len() == 5);
    }
    if str_eq(mercy_call, "internal_ip") {
        ExtraPlan::DiscoverLocalAddr
    } else if str_eq(mercy_call, "whois") {
        let mut q = String::from_str(mercy_choose);
        q.append("\r\n");
        ExtraPlan::SendWhois(q)
    } else {
        ExtraPlan::NoOutsideWork
    }
}

/// Extra dispatch: `"internal_ip"`, `"system_info"`, `"defang"` and
/// `"whois"` are the recognized calls. The socket-backed operations answer
/// from the event the caller hands back; a missing event is a
/// `NetworkError`, a WHOIS reply that is not UTF-8 a `ParseError`.
pub fn mercy_extra(mercy_call: &str, mercy_choose: &str, event: &NetEvent) -> (r: Result<
    String,
    MercyError,
>)
    ensures
        mercy_call@ == "internal_ip"@ ==> (match *event {
            NetEvent::LocalAddr(a) => r matches Ok(s) && s@ == a@,
            _ => r == Err::<String, MercyError>(MercyError::NetworkError),
        }),
        mercy_call@ == "system_info"@ ==> system_info_post(mercy_choose@, r),
        mercy_call@ == "defang"@ ==> (r matches Ok(s) && s@ == defang_of(mercy_choose@)),
        mercy_call@ == "whois"@ ==> (match *event {
            NetEvent::WhoisReply(bytes) => (if valid_utf8(bytes@) {
                r matches Ok(s) && s@ == decode_utf8(bytes@)
            } else {
                r == Err::<String, MercyError>(MercyError::ParseError)
            }),
            _ => r == Err::<String, MercyError>(MercyError::NetworkError),
        }),
        mercy_call@ != "internal_ip"@ && mercy_call@ != "system_info"@ && mercy_call@ != "defang"@
            && mercy_call@ != "whois"@ ==> r == Err::<String, MercyError>(
            MercyError::UnsupportedOperation,
        ),
{
    proof {
        reveal_strlit("internal_ip");
        reveal_strlit("system_info");
        reveal_strlit("defang");
        reveal_strlit("whois");
        assert("internal_ip"@.len() == 11);
        assert("system_info"@.len() == 11);
        assert("defang"@.len() == 6);
        assert("whois"@.len() == 5);
        assert("internal_ip"@[0] == 'i' && "system_info"@[0] == 's');
    }
    if str_eq(mercy_call, "internal_ip") {
        match event {
            NetEvent::LocalAddr(a) => Ok(a.clone()),
            NetEvent::NoData => Err(MercyError::NetworkError),
            NetEvent::WhoisReply(_) => Err(MercyError::NetworkError),
        }
    } else if str_eq(mercy_call, "system_info") {
        system_info(mercy_choose)
    } else if str_eq(mercy_call, "defang") {
        Ok(defang(mercy_choose))
    } else if str_eq(mercy_call, "whois") {
        match event {
            NetEvent::WhoisReply(bytes) => match bytes_to_utf8(bytes) {
                Some(text) => Ok(text),
                None => Err(MercyError::ParseError),
            },
            NetEvent::NoData => Err(MercyError::NetworkError),
            NetEvent::LocalAddr(_) => Err(MercyError::NetworkError),
        }
    } else {
        Err(MercyError::UnsupportedOperation)
    }
}

} // verus!
