//! Typed representation of the inbound alert-webhook payload.
//!
//! Every field is optional: absence of a field never fails, it only
//! triggers the fallback rules (`"unknown"` components, payload-level
//! status, default description).

use vstd::prelude::*;
use vstd::string::StringExecFns;

verus! {

/// Identifying labels of one alert. `alertname` and `namespace` form
/// the thread identity; `pod` is carried but unused by reconciliation.
pub struct AlertLabels {
    pub alertname: Option<String>,
    pub namespace: Option<String>,
    pub pod: Option<String>,
}

/// Free-form annotations of one alert.
pub struct AlertAnnotations {
    pub description: Option<String>,
}

/// One monitored condition's current report.
pub struct Alert {
    pub status: Option<String>,
    pub labels: Option<AlertLabels>,
    pub annotations: Option<AlertAnnotations>,
}

/// Top-level webhook body.
pub struct AlertPayload {
    pub alerts: Option<Vec<Alert>>,
    pub status: Option<String>,
}

/// The fallback text substituted for any missing identity component.
pub open spec fn unknown_text() -> Seq<char> {
    "unknown"@
}

/// The string a present optional field contributes, or `"unknown"`.
pub open spec fn spec_or_unknown(s: Option<String>) -> Seq<char> {
    match s {
        Some(v) => v@,
        None => unknown_text(),
    }
}

/// The alertname component of an alert's identity.
pub open spec fn spec_alertname(labels: Option<AlertLabels>) -> Seq<char> {
    match labels {
        Some(l) => spec_or_unknown(l.alertname),
        None => unknown_text(),
    }
}

/// The namespace component of an alert's identity.
pub open spec fn spec_namespace(labels: Option<AlertLabels>) -> Seq<char> {
    match labels {
        Some(l) => spec_or_unknown(l.namespace),
        None => unknown_text(),
    }
}

/// The derived thread identity: `"{alertname} - {namespace}"`, each
/// component degrading independently to `"unknown"` when absent.
pub open spec fn key_of(labels: Option<AlertLabels>) -> Seq<char> {
    spec_alertname(labels) + " - "@ + spec_namespace(labels)
}

/// The status an alert is reconciled under: its own status when
/// present, else the payload-level status, else `"unknown"`.
pub open spec fn status_of(alert_status: Option<String>, payload_status: Option<String>) -> Seq<
    char,
> {
    match alert_status {
        Some(s) => s@,
        None => match payload_status {
            Some(p) => p@,
            None => unknown_text(),
        },
    }
}

fn clone_or_unknown(s: &Option<String>) -> (r: String)
    ensures
        r@ == spec_or_unknown(*s),
{
    match s {
        Some(v) => v.clone(),
        None => "unknown".to_owned(),
    }
}

/// Derives the thread identity of an alert from its labels.
pub fn thread_key(labels: &Option<AlertLabels>) -> (r: String)
    ensures
        r@ == key_of(*labels),
{
    let mut name: String = match labels {
        Some(l) => clone_or_unknown(&l.alertname),
        None => "unknown".to_owned(),
    };
    name.append(" - ");
    let ns: String = match labels {
        Some(l) => clone_or_unknown(&l.namespace),
        None => "unknown".to_owned(),
    };
    name.append(ns.as_str());
    proof {
        assert(name@ =~= key_of(*labels));
    }
    name
}

/// Resolves the status an alert is reconciled under.
pub fn effective_status(alert_status: &Option<String>, payload_status: &Option<String>) -> (r:
    String)
    ensures
        r@ == status_of(*alert_status, *payload_status),
{
    match alert_status {
        Some(s) => s.clone(),
        None => match payload_status {
            Some(p) => p.clone(),
            None => "unknown".to_owned(),
        },
    }
}

/// Two alerts with the same alertname and namespace always map to the
/// same thread identity, regardless of any other label difference.
pub proof fn lemma_key_ignores_other_labels(a: AlertLabels, b: AlertLabels)
    requires
        a.alertname == b.alertname,
        a.namespace == b.namespace,
    ensures
        key_of(Some(a)) == key_of(Some(b)),
{
}

/// An alert's own status takes precedence over the payload-level one.
pub proof fn lemma_alert_status_precedence(s: String, payload_status: Option<String>)
    ensures
        status_of(Some(s), payload_status) == s@,
{
}

/// An alert without a status falls back to the payload-level status.
pub proof fn lemma_payload_status_fallback(p: String)
    ensures
        status_of(None::<String>, Some(p)) == p@,
{
}

/// With both statuses absent the alert is reconciled as `"unknown"`.
pub proof fn lemma_status_default()
    ensures
        status_of(None::<String>, None::<String>) == unknown_text(),
{
}

} // verus!
