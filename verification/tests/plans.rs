//! Tests for the operation plans and the response handlers.

use watchrs::clock::UtcParts;
use watchrs::error::WatchError;
use watchrs::events::{put_rule_outcome, put_targets_outcome, sns_target_params};
use watchrs::events::{job_watcher_rule_params, sns_target_params_now};
use watchrs::naming::{target_id, topic_name};
use watchrs::policy::access_policy;
use watchrs::sns::{
    create_topic_outcome, delete_topic_outcome, plan_topic_step, plan_topic_step_now,
    plan_unsubscribe, subscribe_outcome, subscribe_request, unsubscribe_outcome, TopicStep,
    UnsubscribeAction,
};

fn parts() -> UtcParts {
    UtcParts { year: 2021, month: 6, day: 7, hour: 8 }
}

#[test]
fn unsubscribe_with_delete_and_no_topic_fails_before_any_call() {
    let r = plan_unsubscribe("sub-arn".to_owned(), true, None);
    assert_eq!(
        r,
        Err(WatchError::SNSTopic(
            "topic arn should be `Some` when `deleted_flag` is true".to_owned()
        ))
    );
}

#[test]
fn unsubscribe_with_delete_and_topic_plans_delete_never_unsubscribe() {
    let r = plan_unsubscribe("sub-arn".to_owned(), true, Some("topic-arn".to_owned()));
    match r {
        Ok(UnsubscribeAction::DeleteTopic { topic_arn }) => assert_eq!(topic_arn, "topic-arn"),
        other => panic!("expected a delete-topic plan, got {:?}", other),
    }
}

#[test]
fn unsubscribe_without_delete_plans_cancellation() {
    let r = plan_unsubscribe("sub-arn".to_owned(), false, Some("topic-arn".to_owned()));
    match r {
        Ok(UnsubscribeAction::CancelSubscription { subscription_arn }) => {
            assert_eq!(subscription_arn, "sub-arn")
        }
        other => panic!("expected a cancellation plan, got {:?}", other),
    }
    let r = plan_unsubscribe("sub-arn".to_owned(), false, None);
    assert!(matches!(r, Ok(UnsubscribeAction::CancelSubscription { .. })));
}

#[test]
fn delete_succeeds_iff_the_provider_call_succeeds() {
    assert_eq!(delete_topic_outcome(Ok(())), Ok(()));
    assert_eq!(
        delete_topic_outcome(Err("boom".to_owned())),
        Err(WatchError::SNSTopic("boom".to_owned()))
    );
}

#[test]
fn unsubscribe_outcome_keeps_the_provider_message() {
    assert_eq!(unsubscribe_outcome(Ok(())), Ok(()));
    assert_eq!(
        unsubscribe_outcome(Err("no such subscription".to_owned())),
        Err(WatchError::SNSSubscription("no such subscription".to_owned()))
    );
}

#[test]
fn subscribe_with_existing_topic_never_plans_create_topic() {
    let r = plan_topic_step(Some("topic-arn".to_owned()), "us-east-1", parts());
    match r {
        TopicStep::Existing { topic_arn } => assert_eq!(topic_arn, "topic-arn"),
        TopicStep::Create { .. } => panic!("no create-topic call may be planned"),
    }
    let r = plan_topic_step_now(Some("topic-arn".to_owned()), "us-east-1");
    assert!(matches!(r, TopicStep::Existing { .. }));
}

#[test]
fn subscribe_without_topic_plans_exactly_one_create_topic() {
    let r = plan_topic_step(None, "us-east-1", parts());
    match r {
        TopicStep::Create { name, policy } => {
            assert_eq!(name, topic_name(2021, 6, 7, 8));
            assert_eq!(name, "watchrs_2021_6_7_8");
            assert_eq!(policy, access_policy("us-east-1", &name));
        }
        TopicStep::Existing { .. } => panic!("a create-topic call must be planned"),
    }
    let r = plan_topic_step_now(None, "eu-west-1");
    match r {
        TopicStep::Create { name, policy } => {
            assert!(name.starts_with("watchrs_"));
            assert_eq!(policy, access_policy("eu-west-1", &name));
        }
        TopicStep::Existing { .. } => panic!("a create-topic call must be planned"),
    }
}

#[test]
fn generated_names_embed_a_calendar_date() {
    let r = plan_topic_step_now(None, "us-east-1");
    let name = match r {
        TopicStep::Create { name, .. } => name,
        TopicStep::Existing { .. } => panic!("a create-topic call must be planned"),
    };
    let tail = name.strip_prefix("watchrs_").expect("the fixed prefix");
    let parts: Vec<i64> = tail.split('_').map(|p| p.parse().expect("a number")).collect();
    assert_eq!(parts.len(), 4);
    assert!((1..=12).contains(&parts[1]));
    assert!((1..=31).contains(&parts[2]));
    assert!((0..=23).contains(&parts[3]));
}

#[test]
fn subscribe_request_uses_the_email_protocol() {
    let r = subscribe_request("topic-arn".to_owned(), "ops@example.com".to_owned());
    assert_eq!(r.topic_arn, "topic-arn");
    assert_eq!(r.protocol, "email");
    assert_eq!(r.endpoint, "ops@example.com");
}

#[test]
fn create_topic_outcome_demands_an_arn_in_the_response() {
    assert_eq!(
        create_topic_outcome(Ok(Some("topic-arn".to_owned()))),
        Ok("topic-arn".to_owned())
    );
    assert_eq!(
        create_topic_outcome(Ok(None)),
        Err(WatchError::SNSTopic("error creating topic".to_owned()))
    );
    assert_eq!(
        create_topic_outcome(Err("denied".to_owned())),
        Err(WatchError::SNSTopic("denied".to_owned()))
    );
}

#[test]
fn subscribe_outcome_demands_an_arn_in_the_response() {
    assert_eq!(
        subscribe_outcome(Ok(Some("sub-arn".to_owned()))),
        Ok("sub-arn".to_owned())
    );
    assert_eq!(
        subscribe_outcome(Ok(None)),
        Err(WatchError::SNSSubscription("error retrieving subscription arn".to_owned()))
    );
    assert_eq!(
        subscribe_outcome(Err("denied".to_owned())),
        Err(WatchError::SNSSubscription("denied".to_owned()))
    );
}

#[test]
fn rule_params_follow_the_enable_flag_and_filter() {
    let r = job_watcher_rule_params(
        "r1".to_owned(),
        true,
        None,
        Some(vec!["FAILED".to_owned()]),
        None,
        None,
    );
    assert_eq!(r.name, "r1");
    assert_eq!(r.description, None);
    assert_eq!(r.state, "ENABLED");
    assert_eq!(
        r.event_pattern,
        "{\"detail-type\":[\"Batch Job State Change\"],\"source\":[\"aws.batch\"],\
         \"detail\":{\"status\":[\"FAILED\"]}}"
    );

    let r = job_watcher_rule_params(
        "r2".to_owned(),
        false,
        Some("watch failed jobs".to_owned()),
        None,
        None,
        None,
    );
    assert_eq!(r.state, "DISABLED");
    assert_eq!(r.description, Some("watch failed jobs".to_owned()));
    assert!(!r.event_pattern.contains("\"detail\":"));
}

#[test]
fn put_rule_outcome_returns_the_rule_name_on_success() {
    assert_eq!(
        put_rule_outcome("r1".to_owned(), Ok(())),
        Ok("r1".to_owned())
    );
    assert_eq!(
        put_rule_outcome("r1".to_owned(), Err("bad pattern".to_owned())),
        Err(WatchError::EventRule("bad pattern".to_owned()))
    );
}

#[test]
fn target_params_embed_the_generated_id() {
    let r = sns_target_params("r1".to_owned(), "topic-arn".to_owned(), parts());
    assert_eq!(r.rule, "r1");
    assert_eq!(r.target_arn, "topic-arn");
    assert_eq!(r.target_id, target_id(2021, 6, 7, 8));
    assert_eq!(r.target_id, "watchrs_sns_target_2021_6_7_8");

    let r = sns_target_params_now("r1".to_owned(), "topic-arn".to_owned());
    assert!(r.target_id.starts_with("watchrs_sns_target_"));
}

#[test]
fn put_targets_failed_entries_surface_as_event_target_error() {
    let failed = vec!["entry one refused".to_owned(), "entry two refused".to_owned()];
    let r = put_targets_outcome(Ok(failed));
    match r {
        Err(WatchError::EventTarget(message)) => {
            assert_eq!(message, "failed entries: entry one refused, entry two refused");
            assert!(message.contains("entry one refused"));
            assert!(message.contains("entry two refused"));
        }
        other => panic!("expected an event-target error, got {:?}", other),
    }
}

#[test]
fn put_targets_succeeds_only_with_no_failed_entries() {
    assert_eq!(put_targets_outcome(Ok(vec![])), Ok(()));
    assert_eq!(
        put_targets_outcome(Err("throttled".to_owned())),
        Err(WatchError::EventTarget("throttled".to_owned()))
    );
}

#[test]
fn error_message_is_reachable_for_every_kind() {
    assert_eq!(WatchError::SNSTopic("a".to_owned()).message().as_str(), "a");
    assert_eq!(WatchError::SNSSubscription("b".to_owned()).message().as_str(), "b");
    assert_eq!(WatchError::EventRule("c".to_owned()).message().as_str(), "c");
    assert_eq!(WatchError::EventTarget("d".to_owned()).message().as_str(), "d");
}
