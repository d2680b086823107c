//! The network diagnostic probe: external IP, HTTP latency, and rough
//! download and upload throughput, measured against fixed endpoint lists,
//! tolerating partial failure. The probe is a state machine: this module
//! decides, from the current state and the outcome of one HTTP exchange,
//! what was measured and which exchange comes next; the unverified shell
//! performs the exchanges and times them. A failed exchange only advances
//! the probe — the sole caller-visible error is failing to construct the
//! HTTP client itself. Throughput is carried in kilobits per second
//! (thousandths of a megabit per second), exact integer arithmetic.

use vstd::prelude::*;

use crate::jsonval::{json_get_str, json_of, json_parse, json_str_field};

verus! {

/// How many external IP lookup endpoints the probe tries, in order.
pub const IP_ENDPOINT_COUNT: usize = 3;

/// How many download mirrors the probe tries, in order.
pub const DOWNLOAD_ENDPOINT_COUNT: usize = 2;

/// A download response no longer than this many bytes is a miss and the
/// next mirror is tried.
pub const DOWNLOAD_MIN_BYTES: usize = 100000;

/// The last byte index of the ranged download request (about 3 MB).
pub const DOWNLOAD_RANGE_LAST: u64 = 3000000;

/// The size of the zero-filled upload payload, in bytes.
pub const UPLOAD_PAYLOAD_BYTES: usize = 500000;

/// The probe's result record. The four measurement fields are filled
/// independently; a failure in one sub-probe leaves its field absent and
/// never touches the others.
#[derive(Clone, Debug, PartialEq, Eq)]
pub struct NetTestResult {
    pub external_ip: Option<String>,
    pub http_latency_ms: Option<u64>,
    pub download_kbps: Option<u64>,
    pub upload_kbps: Option<u64>,
    pub error: Option<String>,
}

/// The mathematical shape of a `NetTestResult`.
pub struct NetResultView {
    pub external_ip: Option<Seq<char>>,
    pub http_latency_ms: Option<u64>,
    pub download_kbps: Option<u64>,
    pub upload_kbps: Option<u64>,
    pub error: Option<Seq<char>>,
}

impl View for NetTestResult {
    type V = NetResultView;

    open spec fn view(&self) -> NetResultView {
        NetResultView {
            external_ip: self.external_ip.deep_view(),
            http_latency_ms: self.http_latency_ms,
            download_kbps: self.download_kbps,
            upload_kbps: self.upload_kbps,
            error: self.error.deep_view(),
        }
    }
}

/// A result with every field absent.
pub open spec fn empty_result_view() -> NetResultView {
    NetResultView {
        external_ip: None,
        http_latency_ms: None,
        download_kbps: None,
        upload_kbps: None,
        error: None,
    }
}

/// Which sub-probe runs next: the IP lookup and download phases carry the
/// index of the endpoint about to be tried.
#[derive(Clone, Copy, Debug, PartialEq, Eq, Structural)]
pub enum ProbePhase {
    IpLookup { idx: usize },
    Latency,
    Download { idx: usize },
    Upload,
    Finished,
}

/// An endpoint index never runs past its list.
pub open spec fn phase_wf(p: ProbePhase) -> bool {
    match p {
        ProbePhase::IpLookup { idx } => idx < IP_ENDPOINT_COUNT,
        ProbePhase::Download { idx } => idx < DOWNLOAD_ENDPOINT_COUNT,
        _ => true,
    }
}

/// The probe's state: the phase and the measurements gathered so far.
#[derive(Clone, Debug, PartialEq, Eq)]
pub struct ProbeState {
    pub phase: ProbePhase,
    pub result: NetTestResult,
}

/// The mathematical shape of a `ProbeState`.
pub struct ProbeStateView {
    pub phase: ProbePhase,
    pub result: NetResultView,
}

impl View for ProbeState {
    type V = ProbeStateView;

    open spec fn view(&self) -> ProbeStateView {
        ProbeStateView { phase: self.phase, result: self.result@ }
    }
}

/// The outcome of one HTTP exchange, as the shell reports it: a text
/// body, a binary body's length, a bodiless success, or a failure of any
/// kind (timeout, no route, refused) — all failures look alike here.
#[derive(Clone, Debug, PartialEq, Eq)]
pub enum ProbeEvent {
    Body { text: String, elapsed_ms: u64 },
    Chunk { len: usize, elapsed_ms: u64 },
    Delivered { elapsed_ms: u64 },
    Failed,
}

/// The mathematical shape of a `ProbeEvent`.
pub enum ProbeEventView {
    Body { text: Seq<char>, elapsed_ms: u64 },
    Chunk { len: usize, elapsed_ms: u64 },
    Delivered { elapsed_ms: u64 },
    Failed,
}

impl View for ProbeEvent {
    type V = ProbeEventView;

    open spec fn view(&self) -> ProbeEventView {
        match self {
            ProbeEvent::Body { text, elapsed_ms } => (ProbeEventView::Body {
                text: text@,
                elapsed_ms: *elapsed_ms,
            }),
            ProbeEvent::Chunk { len, elapsed_ms } => (ProbeEventView::Chunk {
                len: *len,
                elapsed_ms: *elapsed_ms,
            }),
            ProbeEvent::Delivered { elapsed_ms } => (ProbeEventView::Delivered {
                elapsed_ms: *elapsed_ms,
            }),
            ProbeEvent::Failed => ProbeEventView::Failed,
        }
    }
}

/// The HTTP exchange the shell should perform next: a plain GET, a GET of
/// a bounded byte range, a POST of a zero-filled payload, or nothing —
/// the probe is done.
pub enum ProbeAction {
    Get { url: &'static str },
    GetRange { url: &'static str, range_last: u64 },
    PostZeros { url: &'static str, payload_len: usize },
    Finish,
}

/// The IP lookup endpoints, in the order tried.
pub open spec fn ip_url_spec(idx: int) -> Seq<char> {
    if idx == 0 {
        "https://myip.ipip.net/json"@
    } else if idx == 1 {
        "https://ip.useragentinfo.com/json"@
    } else {
        "https://whois.pconline.com.cn/ipJson.jsp?json=true"@
    }
}

/// The fixed latency-probe URL.
pub open spec fn latency_url_spec() -> Seq<char> {
    "https://www.baidu.com/img/flexible/logo/pc/peak-result.png"@
}

/// The download mirrors, in the order tried.
pub open spec fn download_url_spec(idx: int) -> Seq<char> {
    if idx == 0 {
        "https://dldir1.qq.com/qqfile/qq/PCQQ9.7.17/QQ9.7.17.29225.exe"@
    } else {
        "https://npm.taobao.org/mirrors/node/v18.0.0/node-v18.0.0.tar.gz"@
    }
}

/// The fixed upload echo endpoint.
pub open spec fn upload_url_spec() -> Seq<char> {
    "https://httpbin.org/post"@
}

fn ip_lookup_url(idx: usize) -> (r: &'static str)
    requires
        idx < IP_ENDPOINT_COUNT,
    ensures
        r@ == ip_url_spec(idx as int),
{
    if idx == 0 {
        "https://myip.ipip.net/json"
    } else if idx == 1 {
        "https://ip.useragentinfo.com/json"
    } else {
        "https://whois.pconline.com.cn/ipJson.jsp?json=true"
    }
}

fn download_url(idx: usize) -> (r: &'static str)
    requires
        idx < DOWNLOAD_ENDPOINT_COUNT,
    ensures
        r@ == download_url_spec(idx as int),
{
    if idx == 0 {
        "https://dldir1.qq.com/qqfile/qq/PCQQ9.7.17/QQ9.7.17.29225.exe"
    } else {
        "https://npm.taobao.org/mirrors/node/v18.0.0/node-v18.0.0.tar.gz"
    }
}

/// Throughput in kilobits per second from a byte count and an elapsed
/// time in milliseconds, the time floored to one millisecond so that a
/// very fast exchange never divides by zero. Saturates at `u64::MAX`.
pub open spec fn kbps_spec(bytes: nat, elapsed_ms: u64) -> u64 {
    let ms = if elapsed_ms == 0 {
        1nat
    } else {
        elapsed_ms as nat
    };
    if 8 * bytes / ms > u64::MAX {
        u64::MAX
    } else {
        (8 * bytes / ms) as u64
    }
}

/// Kilobits per second transferred: `8 * bytes` divided by the elapsed
/// milliseconds (floored to 1), saturating at `u64::MAX`.
pub fn throughput_kbps(bytes: usize, elapsed_ms: u64) -> (r: u64)
    ensures
        r == kbps_spec(bytes as nat, elapsed_ms),
{
    let ms: u128 = if elapsed_ms == 0 {
        1
    } else {
        elapsed_ms as u128
    };
    let bits: u128 = 8 * (bytes as u128);
    let q: u128 = bits / ms;
    if q > u64::MAX as u128 {
        u64::MAX
    } else {
        q as u64
    }
}

/// The external IP a lookup response body carries: the conventional `ip`
/// string field of the body parsed as JSON, absent when the body is not
/// JSON or has no such field.
pub open spec fn ip_of_body(text: Seq<char>) -> Option<Seq<char>> {
    match json_of(text) {
        Some(doc) => json_str_field(doc, "ip"@),
        None => None,
    }
}

/// Extract the external IP from a lookup response body.
pub fn extract_external_ip(body: &str) -> (r: Option<String>)
    ensures
        (r is Some) == (ip_of_body(body@) is Some),
        r matches Some(ip) ==> ip_of_body(body@) == Some(ip@),
{
    match json_parse(body) {
        Some(doc) => match json_get_str(&doc, "ip") {
            Some(s) => Some(s.to_owned()),
            None => None,
        },
        None => None,
    }
}

/// The state the probe starts in: the first IP endpoint is about to be
/// tried and nothing is measured yet.
pub open spec fn init_view() -> ProbeStateView {
    ProbeStateView { phase: ProbePhase::IpLookup { idx: 0 }, result: empty_result_view() }
}

/// Start the probe.
pub fn probe_init() -> (s: ProbeState)
    ensures
        s@ == init_view(),
        phase_wf(s.phase),
{
    ProbeState {
        phase: ProbePhase::IpLookup { idx: 0 },
        result: NetTestResult {
            external_ip: None,
            http_latency_ms: None,
            download_kbps: None,
            upload_kbps: None,
            error: None,
        },
    }
}

/// The result when the HTTP client itself could not be constructed: the
/// only path that carries an error message, and every measurement absent.
pub fn probe_client_failed(message: String) -> (r: NetTestResult)
    ensures
        r.external_ip is None,
        r.http_latency_ms is None,
        r.download_kbps is None,
        r.upload_kbps is None,
        r.error == Some(message),
{
    NetTestResult {
        external_ip: None,
        http_latency_ms: None,
        download_kbps: None,
        upload_kbps: None,
        error: Some(message),
    }
}

/// Whether an action fits a phase: each phase asks for its own exchange,
/// at its own endpoint.
pub open spec fn action_matches(p: ProbePhase, a: ProbeAction) -> bool {
    match p {
        ProbePhase::IpLookup { idx } => a matches ProbeAction::Get { url } && url@ == ip_url_spec(
            idx as int,
        ),
        ProbePhase::Latency => a matches ProbeAction::Get { url } && url@ == latency_url_spec(),
        ProbePhase::Download { idx } => a matches ProbeAction::GetRange { url, range_last }
            && url@ == download_url_spec(idx as int) && range_last == DOWNLOAD_RANGE_LAST,
        ProbePhase::Upload => a matches ProbeAction::PostZeros { url, payload_len } && url@
            == upload_url_spec() && payload_len == UPLOAD_PAYLOAD_BYTES,
        ProbePhase::Finished => a is Finish,
    }
}

/// The exchange the shell should perform next.
pub fn next_action(s: &ProbeState) -> (a: ProbeAction)
    requires
        phase_wf(s.phase),
    ensures
        action_matches(s.phase, a),
{
    match s.phase {
        ProbePhase::IpLookup { idx } => ProbeAction::Get { url: ip_lookup_url(idx) },
        ProbePhase::Latency => ProbeAction::Get {
            url: "https://www.baidu.com/img/flexible/logo/pc/peak-result.png",
        },
        ProbePhase::Download { idx } => ProbeAction::GetRange {
            url: download_url(idx),
            range_last: DOWNLOAD_RANGE_LAST,
        },
        ProbePhase::Upload => ProbeAction::PostZeros {
            url: "https://httpbin.org/post",
            payload_len: UPLOAD_PAYLOAD_BYTES,
        },
        ProbePhase::Finished => ProbeAction::Finish,
    }
}

/// The phase after an IP endpoint yields nothing: the next endpoint, or
/// the latency sub-probe when the list is exhausted.
pub open spec fn ip_advance(idx: usize) -> ProbePhase {
    if idx + 1 < IP_ENDPOINT_COUNT {
        ProbePhase::IpLookup { idx: (idx + 1) as usize }
    } else {
        ProbePhase::Latency
    }
}

/// The phase after a download mirror yields too little: the next mirror,
/// or the upload sub-probe when the list is exhausted.
pub open spec fn download_advance(idx: usize) -> ProbePhase {
    if idx + 1 < DOWNLOAD_ENDPOINT_COUNT {
        ProbePhase::Download { idx: (idx + 1) as usize }
    } else {
        ProbePhase::Upload
    }
}

/// One probe transition. An IP body with a readable `ip` field records it
/// and ends the IP phase at once; any other IP outcome advances to the
/// next endpoint. A latency success records the elapsed time. A download
/// body over the minimum size records the throughput and ends the phase;
/// a smaller one advances to the next mirror. An upload success records
/// the payload's throughput. A failure anywhere records nothing, and no
/// transition ever touches the error field.
pub open spec fn step_spec(s: ProbeStateView, e: ProbeEventView) -> ProbeStateView {
    match s.phase {
        ProbePhase::IpLookup { idx } => {
            let hit = match e {
                ProbeEventView::Body { text, .. } => ip_of_body(text),
                _ => None,
            };
            match hit {
                Some(ip) => ProbeStateView {
                    phase: ProbePhase::Latency,
                    result: NetResultView { external_ip: Some(ip), ..s.result },
                },
                None => ProbeStateView { phase: ip_advance(idx), result: s.result },
            }
        },
        ProbePhase::Latency => ProbeStateView {
            phase: ProbePhase::Download { idx: 0 },
            result: match e {
                ProbeEventView::Body { elapsed_ms, .. } => (NetResultView {
                    http_latency_ms: Some(elapsed_ms),
                    ..s.result
                }),
                _ => s.result,
            },
        },
        ProbePhase::Download { idx } => match e {
            ProbeEventView::Chunk { len, elapsed_ms } => {
                if len > DOWNLOAD_MIN_BYTES {
                    ProbeStateView {
                        phase: ProbePhase::Upload,
                        result: NetResultView {
                            download_kbps: Some(kbps_spec(len as nat, elapsed_ms)),
                            ..s.result
                        },
                    }
                } else {
                    ProbeStateView { phase: download_advance(idx), result: s.result }
                }
            },
            _ => ProbeStateView { phase: download_advance(idx), result: s.result },
        },
        ProbePhase::Upload => ProbeStateView {
            phase: ProbePhase::Finished,
            result: match e {
                ProbeEventView::Delivered { elapsed_ms } => (NetResultView {
                    upload_kbps: Some(kbps_spec(UPLOAD_PAYLOAD_BYTES as nat, elapsed_ms)),
                    ..s.result
                }),
                _ => s.result,
            },
        },
        ProbePhase::Finished => s,
    }
}

/// Apply one exchange outcome to the probe.
pub fn probe_step(s: ProbeState, e: ProbeEvent) -> (r: ProbeState)
    requires
        phase_wf(s.phase),
    ensures
        r@ == step_spec(s@, e@),
        phase_wf(r.phase),
{
    match s.phase {
        ProbePhase::IpLookup { idx } => {
            let hit: Option<String> = match &e {
                ProbeEvent::Body { text, .. } => extract_external_ip(text.as_str()),
                _ => None,
            };
            match hit {
                Some(ip) => ProbeState {
                    phase: ProbePhase::Latency,
                    result: NetTestResult { external_ip: Some(ip), ..s.result },
                },
                None => {
                    let phase = if idx + 1 < IP_ENDPOINT_COUNT {
                        ProbePhase::IpLookup { idx: idx + 1 }
                    } else {
                        ProbePhase::Latency
                    };
                    ProbeState { phase, result: s.result }
                },
            }
        },
        ProbePhase::Latency => {
            let result = match &e {
                ProbeEvent::Body { elapsed_ms, .. } => (NetTestResult {
                    http_latency_ms: Some(*elapsed_ms),
                    ..s.result
                }),
                _ => s.result,
            };
            ProbeState { phase: ProbePhase::Download { idx: 0 }, result }
        },
        ProbePhase::Download { idx } => {
            match &e {
                ProbeEvent::Chunk { len, elapsed_ms } => {
                    if *len > DOWNLOAD_MIN_BYTES {
                        ProbeState {
                            phase: ProbePhase::Upload,
                            result: NetTestResult {
                                download_kbps: Some(throughput_kbps(*len, *elapsed_ms)),
                                ..s.result
                            },
                        }
                    } else {
                        let phase = if idx + 1 < DOWNLOAD_ENDPOINT_COUNT {
                            ProbePhase::Download { idx: idx + 1 }
                        } else {
                            ProbePhase::Upload
                        };
                        ProbeState { phase, result: s.result }
                    }
                },
                _ => {
                    let phase = if idx + 1 < DOWNLOAD_ENDPOINT_COUNT {
                        ProbePhase::Download { idx: idx + 1 }
                    } else {
                        ProbePhase::Upload
                    };
                    ProbeState { phase, result: s.result }
                },
            }
        },
        ProbePhase::Upload => {
            let result = match &e {
                ProbeEvent::Delivered { elapsed_ms } => (NetTestResult {
                    upload_kbps: Some(throughput_kbps(UPLOAD_PAYLOAD_BYTES, *elapsed_ms)),
                    ..s.result
                }),
                _ => s.result,
            };
            ProbeState { phase: ProbePhase::Finished, result }
        },
        ProbePhase::Finished => s,
    }
}

/// The state after a whole run of exchange outcomes, first to last.
pub open spec fn run_spec(s: ProbeStateView, events: Seq<ProbeEventView>) -> ProbeStateView
    decreases events.len(),
{
    if events.len() == 0 {
        s
    } else {
        run_spec(step_spec(s, events[0]), events.skip(1))
    }
}

/// A failed exchange records nothing: the result is exactly what it was.
pub proof fn lemma_step_failure_keeps_result(s: ProbeStateView, e: ProbeEventView)
    requires
        e is Failed,
    ensures
        step_spec(s, e).result == s.result,
{
}

/// No transition ever touches the error field: partial network failure is
/// never reported as a top-level error.
pub proof fn lemma_step_never_sets_error(s: ProbeStateView, e: ProbeEventView)
    ensures
        step_spec(s, e).result.error == s.result.error,
{
}

/// Whatever the exchanges return, a probe run never sets the error
/// field: the only error a caller can see is the client-construction one.
pub proof fn lemma_run_never_sets_error(s: ProbeStateView, events: Seq<ProbeEventView>)
    ensures
        run_spec(s, events).result.error == s.result.error,
    decreases events.len(),
{
    if events.len() > 0 {
        lemma_step_never_sets_error(s, events[0]);
        lemma_run_never_sets_error(step_spec(s, events[0]), events.skip(1));
    }
}

proof fn lemma_run_failures_keep_result(s: ProbeStateView, events: Seq<ProbeEventView>)
    requires
        forall|i: int| 0 <= i < events.len() ==> events[i] is Failed,
    ensures
        run_spec(s, events).result == s.result,
    decreases events.len(),
{
    if events.len() > 0 {
        lemma_step_failure_keeps_result(s, events[0]);
        lemma_run_failures_keep_result(step_spec(s, events[0]), events.skip(1));
    }
}

/// When every endpoint is unreachable — every exchange fails — all four
/// measurement fields are absent and the error field is absent too.
pub proof fn lemma_all_failures_leave_fields_absent(events: Seq<ProbeEventView>)
    requires
        forall|i: int| 0 <= i < events.len() ==> events[i] is Failed,
    ensures
        run_spec(init_view(), events).result == empty_result_view(),
{
    lemma_run_failures_keep_result(init_view(), events);
}

/// The first IP endpoint whose body yields an address ends the IP phase:
/// the address is recorded and no further IP endpoint is queried.
pub proof fn lemma_first_ip_success_stops(s: ProbeStateView, e: ProbeEventView, ip: Seq<char>)
    requires
        s.phase is IpLookup,
        e matches ProbeEventView::Body { text, .. } && ip_of_body(text) == Some(ip),
    ensures
        step_spec(s, e).result.external_ip == Some(ip),
        step_spec(s, e).phase == ProbePhase::Latency,
{
}

} // verus!
