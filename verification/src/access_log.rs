//! Access-log lines: every request is recorded in a fixed web-server line
//! format built from the client address, the local timestamp, the request
//! line, the status code and the elapsed milliseconds.

use crate::text::{dec_rep, u64_to_string};
use chrono::TimeZone;
use vstd::prelude::*;

verus! {

/// The full log line for one request:
/// `ip - - [ts] "METHOD PATH HTTP/1.1" status elapsedms`.
pub open spec fn log_line_spec(
    ip: Seq<char>,
    ts: Seq<char>,
    method: Seq<char>,
    path: Seq<char>,
    status: u16,
    elapsed_ms: u64,
) -> Seq<char> {
    ip + " - - ["@ + ts + "] \""@ + method + " "@ + path + " HTTP/1.1\" "@ + dec_rep(
        status as nat,
    ) + " "@ + dec_rep(elapsed_ms as nat) + "ms"@
}

/// The client address recorded for a request: the forwarded-for header
/// where one came, else a dash.
pub open spec fn client_ip_spec(forwarded_for: Option<String>) -> Seq<char> {
    match forwarded_for {
        Option::Some(h) => h@,
        Option::None => "-"@,
    }
}

/// Renders one access-log line from its parts.
pub fn format_access_log(
    ip: &str,
    timestamp: &str,
    method: &str,
    path: &str,
    status: u16,
    elapsed_ms: u64,
) -> (r: String)
    ensures
        r@ == log_line_spec(ip@, timestamp@, method@, path@, status, elapsed_ms),
{
    let mut out = String::from_str(ip);
    out.append(" - - [");
    out.append(timestamp);
    out.append("] \"");
    out.append(method);
    out.append(" ");
    out.append(path);
    out.append(" HTTP/1.1\" ");
    let status_text = u64_to_string(status as u64);
    out.append(status_text.as_str());
    out.append(" ");
    let elapsed_text = u64_to_string(elapsed_ms);
    out.append(elapsed_text.as_str());
    out.append("ms");
    proof {
        assert(out@ =~= log_line_spec(ip@, timestamp@, method@, path@, status, elapsed_ms));
    }
    out
}

/// Relies on chrono's `TimeZone::timestamp_opt`, `DateTime::with_timezone`
/// and `DateTime::format`: the current local wall-clock time rendered as
/// `dd/Mon/yyyy:HH:MM:SS +zzzz`.  The clock is read through the checked
/// constructor rather than `Local::now`, whose `expect` would abort on a
/// host clock set before the Unix epoch; a clock outside chrono's
/// representable range likewise falls back to the epoch itself, so the
/// call returns on every host.  The result depends on the clock, so only
/// its shape is promised: none of the rendered specifiers or separators
/// ever produces a closing bracket, which keeps the log line's bracketed
/// timestamp field unambiguous.
#[verifier::external_body]
fn now_timestamp() -> (r: String)
    ensures
        forall|i: int| 0 <= i < r@.len() ==> r@[i] != ']',
{
    let since_epoch = std::time::SystemTime::now()
        .duration_since(std::time::UNIX_EPOCH)
        .unwrap_or(std::time::Duration::ZERO);
    let secs = i64::try_from(since_epoch.as_secs()).unwrap_or(i64::MAX);
    let now = match chrono::Utc.timestamp_opt(secs, 0) {
        chrono::LocalResult::Single(t) => t,
        _ => chrono::DateTime::UNIX_EPOCH,
    };
    now.with_timezone(&chrono::Local).format("%d/%b/%Y:%H:%M:%S %z").to_string()
}

/// The access-log line for one finished request, stamped with the current
/// local time: the line is the fixed format around some timestamp, with
/// the client address defaulting to a dash.
pub fn log_apache(
    forwarded_for: Option<String>,
    method: &str,
    path: &str,
    status: u16,
    elapsed_ms: u64,
) -> (r: String)
    ensures
        exists|ts: Seq<char>|
            (forall|i: int| 0 <= i < ts.len() ==> ts[i] != ']') && r@ == log_line_spec(
                client_ip_spec(forwarded_for),
                ts,
                method@,
                path@,
                status,
                elapsed_ms,
            ),
{
    let ip = match forwarded_for {
        Option::Some(h) => h,
        Option::None => String::from_str("-"),
    };
    let ts = now_timestamp();
    let line = format_access_log(ip.as_str(), ts.as_str(), method, path, status, elapsed_ms);
    proof {
        assert(ip@ == client_ip_spec(forwarded_for));
        assert((forall|i: int| 0 <= i < ts@.len() ==> ts@[i] != ']') && line@ == log_line_spec(
            client_ip_spec(forwarded_for),
            ts@,
            method@,
            path@,
            status,
            elapsed_ms,
        ));
    }
    line
}

} // verus!
