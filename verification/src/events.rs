//! Decisions and response handling for the CloudWatch Events side of the
//! library: the put-rule request that creates a job watcher rule, and the
//! put-targets request that points a rule at an SNS topic.

use crate::clock::{utc_now_parts, UtcParts};
use crate::error::WatchError;
use crate::filter::{event_pattern, build_event_pattern, BatchRuleDetails, BatchRuleDetailsView};
use crate::jsonfmt::{joined, lemma_joined_push};
use crate::naming::{target_id, target_id_view};
use vstd::prelude::*;
use vstd::string::StringExecFns;

verus! {

/// The arguments of a put-rule call.
pub struct PutRuleParams {
    /// The rule name, chosen by the caller.
    pub name: String,
    /// The optional human-readable description.
    pub description: Option<String>,
    /// The rule state: `ENABLED` or `DISABLED`.
    pub state: String,
    /// The event pattern the rule matches on.
    pub event_pattern: String,
}

/// Builds the put-rule request for a rule that watches Batch job state
/// changes: the state follows the enable flag, and the event pattern is
/// built from the three optional filter fields.
pub fn job_watcher_rule_params(
    rule_name: String,
    enable: bool,
    rule_description: Option<String>,
    statuses: Option<Vec<String>>,
    job_queues: Option<Vec<String>>,
    job_names: Option<Vec<String>>,
) -> (r: PutRuleParams)
    ensures
        r.name@ == rule_name@,
        r.description.deep_view() == rule_description.deep_view(),
        enable ==> r.state@ == "ENABLED"@,
        !enable ==> r.state@ == "DISABLED"@,
        r.event_pattern@ == event_pattern(
            (BatchRuleDetailsView {
                statuses: statuses.deep_view(),
                job_names: job_names.deep_view(),
                job_queues: job_queues.deep_view(),
            }),
        ),
{
    let details = BatchRuleDetails { statuses, job_names, job_queues };
    let pattern = build_event_pattern(&details);
    let state = if enable {
        "ENABLED".to_owned()
    } else {
        "DISABLED".to_owned()
    };
    PutRuleParams { name: rule_name, description: rule_description, state, event_pattern: pattern }
}

/// Maps the provider's put-rule response: the rule name on success; a
/// failure is an `EventRule` error carrying the message.
pub fn put_rule_outcome(rule_name: String, response: Result<(), String>) -> (r: Result<
    String,
    WatchError,
>)
    ensures
        r is Ok <==> response is Ok,
        response is Ok ==> (r matches Ok(n) && n@ == rule_name@),
        response matches Err(msg) ==> (r matches Err(e) && e matches WatchError::EventRule(m) && m@
            == msg@),
{
    match response {
        Ok(()) => Ok(rule_name),
        Err(msg) => Err(WatchError::EventRule(msg)),
    }
}

/// The arguments of a put-targets call: a single target pointing a rule at
/// a topic.
pub struct SnsTargetParams {
    /// The rule the target is attached to.
    pub rule: String,
    /// The generated target id.
    pub target_id: String,
    /// The ARN of the topic the target points at.
    pub target_arn: String,
}

/// Builds the put-targets request pointing a rule at a topic, with the
/// target id generated from the given UTC time.
pub fn sns_target_params(rule_name: String, topic_arn: String, now: UtcParts) -> (r:
    SnsTargetParams)
    ensures
        r.rule@ == rule_name@,
        r.target_arn@ == topic_arn@,
        r.target_id@ == target_id_view(
            now.year as int,
            now.month as int,
            now.day as int,
            now.hour as int,
        ),
{
    let id = target_id(now.year, now.month, now.day, now.hour);
    SnsTargetParams { rule: rule_name, target_id: id, target_arn: topic_arn }
}

/// Builds the put-targets request pointing a rule at a topic, with the
/// target id generated from the current UTC time.
pub fn sns_target_params_now(rule_name: String, topic_arn: String) -> (r: SnsTargetParams)
    ensures
        r.rule@ == rule_name@,
        r.target_arn@ == topic_arn@,
        exists|y: int, m: int, d: int, h: int|
            1 <= m <= 12 && 1 <= d <= 31 && 0 <= h <= 23 && r.target_id@
                == #[trigger] target_id_view(y, m, d, h),
{
    let now = utc_now_parts();
    let r = sns_target_params(rule_name, topic_arn, now);
    proof {
        assert(r.target_id@ == target_id_view(
            now.year as int,
            now.month as int,
            now.day as int,
            now.hour as int,
        ));
    }
    r
}

/// Maps the provider's put-targets response. A failing call is an
/// `EventTarget` error with its message. A successful response still lists
/// the entries that failed: any non-empty list makes the whole call an
/// `EventTarget` error whose message carries every failed entry, even
/// though the response as a whole reported success. Only an empty list is
/// success.
pub fn put_targets_outcome(response: Result<Vec<String>, String>) -> (r: Result<(), WatchError>)
    ensures
        r is Ok <==> (response matches Ok(v) && v@.len() == 0),
        response matches Err(msg) ==> (r matches Err(e) && e matches WatchError::EventTarget(m)
            && m@ == msg@),
        response matches Ok(v) ==> (v@.len() > 0 ==> (r matches Err(e) && e matches
            WatchError::EventTarget(m) && m@ == "failed entries: "@ + joined(
            v.deep_view(),
            ", "@,
        ))),
{
    match response {
        Err(msg) => Err(WatchError::EventTarget(msg)),
        Ok(entries) => {
            if entries.len() == 0 {
                Ok(())
            } else {
                let ghost dv = entries.deep_view();
                let mut msg = String::new();
                msg.append("failed entries: ");
                proof {
                    assert(dv.take(0) =~= Seq::<Seq<char>>::empty());
                }
                let mut i: usize = 0;
                while i < entries.len()
                    invariant
                        i <= entries.len(),
                        dv == entries.deep_view(),
                        dv.len() == entries.len(),
                        msg@ == "failed entries: "@ + joined(dv.take(i as int), ", "@),
                    decreases entries.len() - i,
                {
                    if i > 0 {
                        msg.append(", ");
                    }
                    msg.append(entries[i].as_str());
                    proof {
                        assert(entries[i as int]@ == dv[i as int]);
                        lemma_joined_push(dv.take(i as int), ", "@, dv[i as int]);
                        assert(dv.take(i as int).push(dv[i as int]) =~= dv.take(i as int + 1));
                        assert(msg@ =~= "failed entries: "@ + joined(dv.take(i as int + 1), ", "@));
                    }
                    i = i + 1;
                }
                proof {
                    assert(dv.take(entries.len() as int) =~= dv);
                }
                Err(WatchError::EventTarget(msg))
            }
        },
    }
}

} // verus!
