//! The host collector: identity strings as the platform reports them, with
//! the vendor prefix stripped from the pretty name.

use crate::model::HostData;
use vstd::prelude::*;

verus! {

/// Holds when `s` starts with the vendor token `"Windows "`, compared
/// case-insensitively on its seven letters.
pub open spec fn vendor_prefixed(s: Seq<char>) -> bool {
    &&& s.len() >= 8
    &&& (s[0] == 'w' || s[0] == 'W')
    &&& (s[1] == 'i' || s[1] == 'I')
    &&& (s[2] == 'n' || s[2] == 'N')
    &&& (s[3] == 'd' || s[3] == 'D')
    &&& (s[4] == 'o' || s[4] == 'O')
    &&& (s[5] == 'w' || s[5] == 'W')
    &&& (s[6] == 's' || s[6] == 'S')
    &&& s[7] == ' '
}

/// The platform string derived from a pretty name: the vendor token is
/// removed exactly when it is present as a true prefix, else the name is
/// left unchanged.
pub open spec fn spec_platform(pretty: Seq<char>) -> Seq<char> {
    if vendor_prefixed(pretty) {
        pretty.skip(8)
    } else {
        pretty
    }
}

/// Removes a case-insensitive leading `"Windows "` token, if present.
pub fn strip_vendor_prefix(pretty: &str) -> (r: String)
    ensures
        r@ == spec_platform(pretty@),
{
    let n = pretty.unicode_len();
    if n >= 8 {
        let c0 = pretty.get_char(0);
        let c1 = pretty.get_char(1);
        let c2 = pretty.get_char(2);
        let c3 = pretty.get_char(3);
        let c4 = pretty.get_char(4);
        let c5 = pretty.get_char(5);
        let c6 = pretty.get_char(6);
        let c7 = pretty.get_char(7);
        let prefixed = (c0 == 'w' || c0 == 'W') && (c1 == 'i' || c1 == 'I') && (c2 == 'n' || c2
            == 'N') && (c3 == 'd' || c3 == 'D') && (c4 == 'o' || c4 == 'O') && (c5 == 'w' || c5
            == 'W') && (c6 == 's' || c6 == 'S') && c7 == ' ';
        if prefixed {
            let rest = pretty.substring_char(8, n);
            proof {
                assert(rest@ =~= pretty@.skip(8));
            }
            return String::from_str(rest);
        }
    }
    String::from_str(pretty)
}

/// Holds when `r` is the reported value `o`, or the literal `"unknown"`
/// where the platform reported none.
pub open spec fn reported_or_unknown(r: Seq<char>, o: Option<String>) -> bool {
    match o {
        Option::Some(s) => r == s@,
        Option::None => r == "unknown"@,
    }
}

/// Builds the host snapshot from the reported identity strings.  Every field
/// defaults to `"unknown"`, and `platform` is the pretty name with the
/// vendor prefix stripped.  There is no failure path.
pub fn gather_host(name: Option<String>, pretty: Option<String>, kernel: Option<String>) -> (r:
    HostData)
    ensures
        reported_or_unknown(r.os@, name),
        reported_or_unknown(r.pretty_name@, pretty),
        reported_or_unknown(r.kernel_version@, kernel),
        r.platform@ == spec_platform(r.pretty_name@),
{
    let os = match name {
        Option::Some(s) => s,
        Option::None => String::from_str("unknown"),
    };
    let pretty_name = match pretty {
        Option::Some(s) => s,
        Option::None => String::from_str("unknown"),
    };
    let kernel_version = match kernel {
        Option::Some(s) => s,
        Option::None => String::from_str("unknown"),
    };
    let platform = strip_vendor_prefix(pretty_name.as_str());
    HostData { os, platform, kernel_version, pretty_name }
}

} // verus!
