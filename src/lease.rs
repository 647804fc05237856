use vstd::prelude::*;

verus! {

/// The transport scheme of one request to the router.
#[derive(Debug, Clone, Copy, PartialEq, Eq, Structural)]
pub enum Scheme {
    Http,
    Https,
}

/// One DHCP lease as the router reports it: a hardware address and the time,
/// in milliseconds, since the device was last seen.
#[derive(Debug, Clone)]
pub struct Lease {
    pub mac_address: String,
    pub last_seen_ms: u64,
}

/// What went wrong with one request.
#[derive(Debug, Clone)]
pub enum FetchErrorKind {
    /// The router answered with a status outside 200..=299.
    Status(u16),
    /// No answer: connection refused, TLS failure, timeout, DNS failure.
    Transport(String),
    /// The answer does not hold a list of leases.
    Decode(String),
}

/// A failed request, with the scheme and host it was made against.
#[derive(Debug, Clone)]
pub struct FetchError {
    pub scheme: Scheme,
    pub host: String,
    pub kind: FetchErrorKind,
}

/// A lease record as it stands in the router's answer, before its duration
/// is read.
#[derive(Debug, Clone)]
pub struct RawLease {
    pub mac_address: String,
    pub last_seen: String,
}

/// The outcome of one request for the lease list.
pub type FetchResult = Result<Vec<Lease>, FetchError>;

/// The value of a decimal digit.
pub open spec fn digit_value(c: char) -> nat {
    (c as nat - '0' as nat) as nat
}

pub open spec fn is_digit(c: char) -> bool {
    '0' <= c && c <= '9'
}

/// Milliseconds in one unit of a router duration: weeks, days, hours,
/// minutes and seconds (`ms`, milliseconds, is read apart).
pub open spec fn unit_ms(c: char) -> Option<nat> {
    if c == 'w' {
        Some(604_800_000)
    } else if c == 'd' {
        Some(86_400_000)
    } else if c == 'h' {
        Some(3_600_000)
    } else if c == 'm' {
        Some(60_000)
    } else if c == 's' {
        Some(1000)
    } else {
        None
    }
}

/// Reads `s` from position `i`, with `total` milliseconds read so far,
/// `num` the digits of the group under way and `in_num` whether there are
/// any, and `any` whether a group has been completed.
pub open spec fn duration_from(s: Seq<char>, i: int, total: nat, num: nat, in_num: bool, any: bool) -> Option<nat>
    decreases s.len() - i,
{
    if i >= s.len() || i < 0 {
        if in_num || !any {
            None
        } else {
            Some(total)
        }
    } else if is_digit(s[i]) {
        duration_from(s, i + 1, total, num * 10 + digit_value(s[i]), true, any)
    } else if !in_num {
        None
    } else if s[i] == 'm' && i + 1 < s.len() && s[i + 1] == 's' {
        duration_from(s, i + 2, total + num, 0, false, true)
    } else if unit_ms(s[i]) is Some {
        duration_from(s, i + 1, total + num * unit_ms(s[i])->Some_0, 0, false, true)
    } else {
        None
    }
}

/// The router's duration encoding: one or more groups of decimal digits each
/// followed by a unit (`w`, `d`, `h`, `m`, `s`, `ms`), as in `1w2d3h4m5s`.
/// The value is the sum of the groups, in milliseconds.
pub open spec fn router_duration_ms(s: Seq<char>) -> Option<nat> {
    duration_from(s, 0, 0, 0, false, false)
}

proof fn lemma_duration_from_grows(s: Seq<char>, i: int, total: nat, num: nat, in_num: bool, any: bool)
    requires
        !in_num ==> num == 0,
    ensures
        duration_from(s, i, total, num, in_num, any) matches Some(r) ==> r >= total + num,
    decreases s.len() - i,
{
    if i >= s.len() || i < 0 {
    } else if is_digit(s[i]) {
        lemma_duration_from_grows(s, i + 1, total, num * 10 + digit_value(s[i]), true, any);
    } else if !in_num {
    } else if s[i] == 'm' && i + 1 < s.len() && s[i + 1] == 's' {
        lemma_duration_from_grows(s, i + 2, total + num, 0, false, true);
    } else if unit_ms(s[i]) is Some {
        let u = unit_ms(s[i])->Some_0;
        assert(num * u >= num) by (nonlinear_arith)
            requires
                u >= 1,
        ;
        lemma_duration_from_grows(s, i + 1, total + num * u, 0, false, true);
    }
}

/// Parses a router duration such as `1d2h3m4s` into milliseconds; `None` if
/// it is malformed or does not fit in a `u64`.
pub fn parse_router_duration(s: &str) -> (r: Option<u64>)
    ensures
        r matches Some(v) ==> router_duration_ms(s@) == Some(v as nat),
        r is None ==> (router_duration_ms(s@) matches Some(n) ==> n > u64::MAX),
{
    let len = s.unicode_len();
    let mut i: usize = 0;
    let mut total: u64 = 0;
    let mut num: u64 = 0;
    let mut in_num = false;
    let mut any = false;
    while i < len
        invariant
            len == s@.len(),
            i <= len,
            router_duration_ms(s@) == duration_from(s@, i as int, total as nat, num as nat, in_num, any),
            !in_num ==> num == 0,
        decreases len - i,
    {
        let c = s.get_char(i);
        if '0' <= c && c <= '9' {
            let d = (c as u32 - '0' as u32) as u64;
            if num > (u64::MAX - d) / 10 {
                proof {
                    lemma_duration_from_grows(s@, i + 1, total as nat, (num * 10 + digit_value(c)) as nat, true, any);
                }
                return None;
            }
            num = num * 10 + d;
            in_num = true;
            i = i + 1;
        } else if !in_num {
            return None;
        } else {
            let unit: u64;
            let width: usize;
            if c == 'm' && i + 1 < len && s.get_char(i + 1) == 's' {
                unit = 1;
                width = 2;
            } else if c == 'w' {
                unit = 604_800_000;
                width = 1;
            } else if c == 'd' {
                unit = 86_400_000;
                width = 1;
            } else if c == 'h' {
                unit = 3_600_000;
                width = 1;
            } else if c == 'm' {
                unit = 60_000;
                width = 1;
            } else if c == 's' {
                unit = 1000;
                width = 1;
            } else {
                return None;
            }
            if num > (u64::MAX - total) / unit {
                proof {
                    assert(num * unit > u64::MAX - total) by (nonlinear_arith)
                        requires
                            num as int > (u64::MAX as int - total as int) / unit as int,
                            unit >= 1,
                    ;
                    lemma_duration_from_grows(s@, i + width, (total + num * unit) as nat, 0, false, true);
                }
                return None;
            }
            assert(num * unit <= u64::MAX - total) by (nonlinear_arith)
                requires
                    num as int <= (u64::MAX as int - total as int) / unit as int,
                    unit >= 1,
            ;
            total = total + num * unit;
            num = 0;
            in_num = false;
            any = true;
            i = i + width;
        }
    }
    if in_num || !any {
        None
    } else {
        Some(total)
    }
}

/// A duration that can be read and fits in a `u64` of milliseconds.
pub open spec fn duration_fits(s: Seq<char>) -> bool {
    router_duration_ms(s) matches Some(n) && n <= u64::MAX
}

/// The lease that a raw record stands for, once its duration is read.
pub open spec fn lease_of(raw: RawLease, lease: Lease) -> bool {
    &&& lease.mac_address@ == raw.mac_address@
    &&& router_duration_ms(raw.last_seen@) == Some(lease.last_seen_ms as nat)
}

/// Reads the duration of each record; on the first that cannot be read,
/// returns its index.
pub fn leases_from_records(records: &Vec<RawLease>) -> (r: Result<Vec<Lease>, usize>)
    ensures
        r matches Ok(v) ==> v@.len() == records@.len() && forall|i: int|
            0 <= i < v@.len() ==> lease_of(#[trigger] records@[i], v@[i]),
        r is Ok <==> forall|i: int| 0 <= i < records@.len() ==> duration_fits(#[trigger] records@[i].last_seen@),
        r matches Err(k) ==> k < records@.len() && !duration_fits(records@[k as int].last_seen@) && forall|i: int|
            0 <= i < k ==> duration_fits(#[trigger] records@[i].last_seen@),
{
    let mut leases: Vec<Lease> = Vec::new();
    let mut i: usize = 0;
    while i < records.len()
        invariant
            i <= records@.len(),
            leases@.len() == i,
            forall|j: int| 0 <= j < i ==> lease_of(#[trigger] records@[j], leases@[j]),
            forall|j: int| 0 <= j < i ==> duration_fits(#[trigger] records@[j].last_seen@),
        decreases records@.len() - i,
    {
        match parse_router_duration(records[i].last_seen.as_str()) {
            Some(ms) => {
                leases.push(Lease { mac_address: records[i].mac_address.clone(), last_seen_ms: ms });
            },
            None => {
                return Err(i);
            },
        }
        i = i + 1;
    }
    Ok(leases)
}

/// The name of a scheme as it stands in a URL.
pub open spec fn scheme_text(scheme: Scheme) -> Seq<char> {
    match scheme {
        Scheme::Http => "http"@,
        Scheme::Https => "https"@,
    }
}

/// The path of the router's lease-list endpoint.
pub open spec fn lease_path() -> Seq<char> {
    "/rest/ip/dhcp-server/lease/print"@
}

/// The URL of the lease list on `host` over `scheme`.
pub fn lease_url(scheme: Scheme, host: &str) -> (r: String)
    ensures
        r@ == scheme_text(scheme) + "://"@ + host@ + lease_path(),
{
    let mut url = match scheme {
        Scheme::Http => String::from_str("http"),
        Scheme::Https => String::from_str("https"),
    };
    url.append("://");
    url.append(host);
    url.append("/rest/ip/dhcp-server/lease/print");
    url
}

/// The JSON body of the lease-list request: it asks for the hardware address
/// and the last-seen duration only.
pub fn lease_request_body() -> (r: String)
    ensures
        r@ == "{\".proplist\":[\"mac-address\",\"last-seen\"]}"@,
{
    String::from_str("{\".proplist\":[\"mac-address\",\"last-seen\"]}")
}

/// Whether an HTTP status is a success (2xx).
pub fn is_success_status(status: u16) -> (r: bool)
    ensures
        r == (200 <= status && status <= 299),
{
    200 <= status && status <= 299
}

/// The message of a decode failure caused by an unreadable duration.
pub open spec fn bad_duration_message(raw: Seq<char>) -> Seq<char> {
    "invalid last-seen value: "@ + raw
}

/// The message of `result` when it is a decode failure against `host`
/// over `scheme`.
pub open spec fn decode_failure(result: FetchResult, scheme: Scheme, host: Seq<char>) -> Option<Seq<char>> {
    match result {
        Err(e) => if e.scheme == scheme && e.host@ == host {
            match e.kind {
                FetchErrorKind::Decode(m) => Some(m@),
                _ => None,
            }
        } else {
            None
        },
        Ok(_) => None,
    }
}

/// The status of `result` when it is a status failure against `host` over
/// `scheme`.
pub open spec fn status_failure(result: FetchResult, scheme: Scheme, host: Seq<char>) -> Option<u16> {
    match result {
        Err(e) => if e.scheme == scheme && e.host@ == host {
            match e.kind {
                FetchErrorKind::Status(code) => Some(code),
                _ => None,
            }
        } else {
            None
        },
        Ok(_) => None,
    }
}

/// Whether `result` is the lease list that `records` stand for.
pub open spec fn leases_of(records: Seq<RawLease>, result: FetchResult) -> bool {
    match result {
        Ok(v) => v@.len() == records.len() && forall|i: int| 0 <= i < v@.len() ==> lease_of(#[trigger] records[i], v@[i]),
        Err(_) => false,
    }
}

/// The outcome of one request that the router answered: `status` is its
/// HTTP status and `body` the records its JSON body decoded to, or why it
/// did not.
pub open spec fn answer_outcome(
    scheme: Scheme,
    host: Seq<char>,
    status: u16,
    body: Result<Vec<RawLease>, String>,
    result: FetchResult,
) -> bool {
    if !(200 <= status && status <= 299) {
        status_failure(result, scheme, host) == Some(status)
    } else {
        match body {
            Err(msg) => decode_failure(result, scheme, host) == Some(msg@),
            Ok(records) => {
                if forall|i: int| 0 <= i < records@.len() ==> duration_fits(#[trigger] records@[i].last_seen@) {
                    leases_of(records@, result)
                } else {
                    exists|k: int|
                        0 <= k < records@.len() && !duration_fits(#[trigger] records@[k].last_seen@)
                            && (forall|j: int| 0 <= j < k ==> duration_fits(#[trigger] records@[j].last_seen@))
                            && decode_failure(result, scheme, host) == Some(bad_duration_message(records@[k].last_seen@))
                }
            },
        }
    }
}

/// Classifies the router's answer to one request: a status outside 2xx is a
/// status error, an undecodable body or an unreadable duration a decode
/// error, and anything else the lease list.
pub fn answer_to_result(scheme: Scheme, host: &String, status: u16, body: Result<Vec<RawLease>, String>) -> (r: FetchResult)
    ensures
        answer_outcome(scheme, host@, status, body, r),
{
    if !is_success_status(status) {
        return Err(FetchError { scheme, host: host.clone(), kind: FetchErrorKind::Status(status) });
    }
    match body {
        Err(msg) => Err(FetchError { scheme, host: host.clone(), kind: FetchErrorKind::Decode(msg) }),
        Ok(records) => match leases_from_records(&records) {
            Ok(v) => Ok(v),
            Err(k) => {
                let msg = String::from_str("invalid last-seen value: ").concat(records[k].last_seen.as_str());
                Err(FetchError { scheme, host: host.clone(), kind: FetchErrorKind::Decode(msg) })
            },
        },
    }
}

/// A failure to reach the router at all.
pub fn transport_error(scheme: Scheme, host: &String, message: String) -> (r: FetchError)
    ensures
        r.scheme == scheme,
        r.host@ == host@,
        r.kind matches FetchErrorKind::Transport(m) && m@ == message@,
{
    FetchError { scheme, host: host.clone(), kind: FetchErrorKind::Transport(message) }
}

} // verus!
