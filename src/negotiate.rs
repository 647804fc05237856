use vstd::prelude::*;

use crate::config::MikrotikScheme;
use crate::lease::{FetchError, FetchResult, Scheme};

verus! {

/// What the caller of a negotiation does next.
#[derive(Debug)]
pub enum NegotiationStep {
    /// The attempt on `failed.scheme` failed: log `failed` as a warning and
    /// make one attempt on `next`.
    Fallback { failed: FetchError, next: Scheme },
    /// The negotiation is over with `result`; report its health once.
    Finish(FetchResult),
}

/// The health signal of one negotiation, for the observability collaborator.
#[derive(Debug)]
pub struct HealthReport {
    pub service: String,
    pub success: bool,
}

/// The health report of a negotiation that ended with `result`: under the
/// service key `mikrotik`, a success exactly when the result is one.
pub fn health_report(result: &FetchResult) -> (r: HealthReport)
    ensures
        r.service@ == "mikrotik"@,
        r.success == result is Ok,
{
    HealthReport { service: String::from_str("mikrotik"), success: result.is_ok() }
}

/// The scheme of the first attempt under a policy.
pub open spec fn first_scheme_of(policy: MikrotikScheme) -> Scheme {
    match policy {
        MikrotikScheme::Http => Scheme::Http,
        _ => Scheme::Https,
    }
}

/// The step that follows an attempt on `tried` that ended with `outcome`.
pub open spec fn step_after(policy: MikrotikScheme, tried: Scheme, outcome: FetchResult) -> NegotiationStep {
    match outcome {
        Err(e) => if policy == MikrotikScheme::Auto && tried == Scheme::Https {
            NegotiationStep::Fallback { failed: e, next: Scheme::Http }
        } else {
            NegotiationStep::Finish(Err(e))
        },
        Ok(v) => NegotiationStep::Finish(Ok(v)),
    }
}

/// The scheme that a negotiation under `policy` tries first.
pub fn first_scheme(policy: MikrotikScheme) -> (r: Scheme)
    ensures
        r == first_scheme_of(policy),
{
    match policy {
        MikrotikScheme::Http => Scheme::Http,
        _ => Scheme::Https,
    }
}

/// Decides what follows an attempt on `tried` whose outcome is `outcome`.
pub fn after_attempt(policy: MikrotikScheme, tried: Scheme, outcome: FetchResult) -> (r: NegotiationStep)
    ensures
        r == step_after(policy, tried, outcome),
{
    match outcome {
        Err(e) => {
            if policy == MikrotikScheme::Auto && tried == Scheme::Https {
                NegotiationStep::Fallback { failed: e, next: Scheme::Http }
            } else {
                NegotiationStep::Finish(Err(e))
            }
        },
        Ok(v) => NegotiationStep::Finish(Ok(v)),
    }
}

/// Everything a negotiation does, when the network would answer `https` to an
/// attempt on HTTPS and `http` to one on HTTP.
pub struct NegotiationTrace {
    /// The schemes attempted, in order.
    pub attempts: Seq<Scheme>,
    /// The failures logged as warnings, in order.
    pub warnings: Seq<FetchError>,
    /// The health signals reported, in order.
    pub health_reports: Seq<bool>,
    /// The result handed to the caller.
    pub result: FetchResult,
}

pub open spec fn answer_to(scheme: Scheme, https: FetchResult, http: FetchResult) -> FetchResult {
    match scheme {
        Scheme::Https => https,
        Scheme::Http => http,
    }
}

/// Drives a negotiation with `first_scheme` and `after_attempt`: attempts
/// until a `Finish`, then one health report of whether it is `Ok`.
pub open spec fn negotiation_trace(policy: MikrotikScheme, https: FetchResult, http: FetchResult) -> NegotiationTrace {
    let s1 = first_scheme_of(policy);
    match step_after(policy, s1, answer_to(s1, https, http)) {
        NegotiationStep::Finish(r) => NegotiationTrace {
            attempts: seq![s1],
            warnings: Seq::empty(),
            health_reports: seq![r is Ok],
            result: r,
        },
        NegotiationStep::Fallback { failed, next } => match step_after(policy, next, answer_to(next, https, http)) {
            NegotiationStep::Finish(r) => NegotiationTrace {
                attempts: seq![s1, next],
                warnings: seq![failed],
                health_reports: seq![r is Ok],
                result: r,
            },
            // Not reached: an attempt on HTTP never falls back.
            NegotiationStep::Fallback { failed: f2, next: n2 } => NegotiationTrace {
                attempts: seq![s1, next, n2],
                warnings: seq![failed, f2],
                health_reports: Seq::empty(),
                result: Err(f2),
            },
        },
    }
}

/// Under a fixed scheme exactly one attempt is made, on that scheme, and its
/// outcome, success or failure, is the result unchanged.
pub proof fn lemma_fixed_scheme_single_attempt(policy: MikrotikScheme, https: FetchResult, http: FetchResult)
    requires
        policy != MikrotikScheme::Auto,
    ensures
        ({
            let t = negotiation_trace(policy, https, http);
            let s = if policy == MikrotikScheme::Http { Scheme::Http } else { Scheme::Https };
            &&& t.attempts == seq![s]
            &&& t.result == answer_to(s, https, http)
            &&& t.warnings.len() == 0
            &&& t.health_reports == seq![t.result is Ok]
        }),
{
}

/// Under `Auto`, a successful HTTPS attempt is the result and no HTTP attempt
/// is made.
pub proof fn lemma_auto_https_success(https: FetchResult, http: FetchResult)
    requires
        https is Ok,
    ensures
        ({
            let t = negotiation_trace(MikrotikScheme::Auto, https, http);
            &&& t.attempts == seq![Scheme::Https]
            &&& t.result == https
            &&& t.health_reports == seq![true]
        }),
{
}

/// Under `Auto`, when HTTPS fails in any way, the failure is logged once and
/// the result is exactly the outcome of one HTTP attempt.
pub proof fn lemma_auto_fallback_to_http(https: FetchResult, http: FetchResult)
    requires
        https is Err,
    ensures
        ({
            let t = negotiation_trace(MikrotikScheme::Auto, https, http);
            &&& t.attempts == seq![Scheme::Https, Scheme::Http]
            &&& t.warnings == seq![https->Err_0]
            &&& t.result == http
        }),
{
}

/// Under `Auto`, when both attempts fail the result is the HTTP failure, and
/// the whole negotiation reports its health once, as a failure.
pub proof fn lemma_auto_both_fail(https: FetchResult, http: FetchResult)
    requires
        https is Err,
        http is Err,
    ensures
        ({
            let t = negotiation_trace(MikrotikScheme::Auto, https, http);
            &&& t.result == http
            &&& t.health_reports == seq![false]
        }),
{
}

/// Every negotiation reports its health exactly once, and the report says
/// whether the result is a success.
pub proof fn lemma_single_health_report(policy: MikrotikScheme, https: FetchResult, http: FetchResult)
    ensures
        negotiation_trace(policy, https, http).health_reports
            == seq![negotiation_trace(policy, https, http).result is Ok],
        negotiation_trace(policy, https, http).attempts.len() <= 2,
{
}

} // verus!
