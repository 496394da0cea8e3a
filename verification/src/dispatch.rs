//! Webhook dispatcher: turns one inbound payload into the sequence of
//! per-alert reconciliation requests, one per alert, in payload order.
//!
//! Callers locate the thread for each request and feed the result to
//! the reconciler, sequentially and in this order.

use vstd::prelude::*;
use crate::model::{
    Alert, AlertAnnotations, AlertPayload, effective_status, key_of, status_of, thread_key,
};

verus! {

/// Everything the reconciler needs for one alert: the derived thread
/// identity, the effective status, and the alert's annotations.
pub struct ReconcileRequest {
    pub thread_name: String,
    pub status: String,
    pub annotations: Option<AlertAnnotations>,
}

/// The alerts a payload carries: an absent list is an empty one.
pub open spec fn alerts_of(payload: AlertPayload) -> Seq<Alert> {
    match payload.alerts {
        Some(v) => v@,
        None => Seq::<Alert>::empty(),
    }
}

/// Whether `req` is the reconciliation request owed for `alert` under
/// the payload-level fallback status.
pub open spec fn request_matches(
    req: ReconcileRequest,
    alert: Alert,
    payload_status: Option<String>,
) -> bool {
    req.thread_name@ == key_of(alert.labels) && req.status@ == status_of(
        alert.status,
        payload_status,
    ) && req.annotations == alert.annotations
}

fn clone_opt_string(s: &Option<String>) -> (r: Option<String>)
    ensures
        r == *s,
{
    match s {
        Some(v) => Some(v.clone()),
        None => None,
    }
}

fn clone_annotations(a: &Option<AlertAnnotations>) -> (r: Option<AlertAnnotations>)
    ensures
        r == *a,
{
    match a {
        Some(ann) => Some(AlertAnnotations { description: clone_opt_string(&ann.description) }),
        None => None,
    }
}

/// Derives one reconciliation request per alert, in payload order.
pub fn dispatch(payload: &AlertPayload) -> (r: Vec<ReconcileRequest>)
    ensures
        r@.len() == alerts_of(*payload).len(),
        forall|i: int|
            0 <= i < r@.len() ==> request_matches(
                #[trigger] r@[i],
                alerts_of(*payload)[i],
                payload.status,
            ),
{
    let mut out: Vec<ReconcileRequest> = Vec::new();
    match &payload.alerts {
        None => out,
        Some(alerts) => {
            let n = alerts.len();
            for i in 0..n
                invariant
                    payload.alerts == Some(*alerts),
                    n == alerts@.len(),
                    out@.len() == i,
                    forall|j: int|
                        0 <= j < i ==> request_matches(
                            #[trigger] out@[j],
                            alerts@[j],
                            payload.status,
                        ),
            {
                let alert = &alerts[i];
                let thread_name = thread_key(&alert.labels);
                let status = effective_status(&alert.status, &payload.status);
                let annotations = clone_annotations(&alert.annotations);
                out.push(ReconcileRequest { thread_name, status, annotations });
            }
            out
        },
    }
}

} // verus!
