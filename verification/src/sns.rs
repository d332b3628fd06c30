//! Decisions and response handling for the SNS side of the library:
//! subscribing an email endpoint to a topic (creating the topic first when
//! none is supplied) and unsubscribing (or deleting the topic outright).
//!
//! The provider calls themselves are network I/O and stay outside the
//! library; these functions decide which call to make and what its inputs
//! are, and map each response to a result, so that every decision is
//! verified.

use crate::clock::{utc_now_parts, UtcParts};
use crate::error::WatchError;
use crate::naming::{topic_name, topic_name_view};
use crate::policy::{access_policy, access_policy_view};
use vstd::prelude::*;

verus! {

/// The first step of a subscribe operation: create a topic, or use the one
/// the caller supplied.
#[derive(Debug, PartialEq, Eq)]
pub enum TopicStep {
    /// No topic was supplied: plan one create-topic call with this name and
    /// access policy.
    Create {
        /// The generated topic name.
        name: String,
        /// The access policy handed to create-topic.
        policy: String,
    },
    /// The caller supplied a topic: use it; no create-topic call is planned.
    Existing {
        /// The topic ARN the caller supplied.
        topic_arn: String,
    },
}

impl TopicStep {
    /// Whether this step plans a create-topic call.
    pub open spec fn plans_create(&self) -> bool {
        self matches TopicStep::Create { .. }
    }
}

/// Plans the topic step of a subscribe operation at a given UTC time. A
/// supplied topic ARN is used as it stands and create-topic is never
/// planned; with no ARN supplied, exactly one create-topic call is planned,
/// named after the time and carrying the access policy for that name.
pub fn plan_topic_step(topic_arn: Option<String>, region: &str, now: UtcParts) -> (r: TopicStep)
    ensures
        r.plans_create() <==> topic_arn is None,
        topic_arn matches Some(arn) ==> (r matches TopicStep::Existing { topic_arn: t } && t@
            == arn@),
        topic_arn is None ==> (r matches TopicStep::Create { name, policy } && name@
            == topic_name_view(
            now.year as int,
            now.month as int,
            now.day as int,
            now.hour as int,
        ) && policy@ == access_policy_view(region@, name@)),
{
    match topic_arn {
        Some(arn) => TopicStep::Existing { topic_arn: arn },
        None => {
            let name = topic_name(now.year, now.month, now.day, now.hour);
            let policy = access_policy(region, name.as_str());
            TopicStep::Create { name, policy }
        },
    }
}

/// Plans the topic step of a subscribe operation at the current UTC time.
pub fn plan_topic_step_now(topic_arn: Option<String>, region: &str) -> (r: TopicStep)
    ensures
        r.plans_create() <==> topic_arn is None,
        topic_arn matches Some(arn) ==> (r matches TopicStep::Existing { topic_arn: t } && t@
            == arn@),
        topic_arn is None ==> (r matches TopicStep::Create { name, policy } && policy@
            == access_policy_view(region@, name@) && (exists|y: int, m: int, d: int, h: int|
            1 <= m <= 12 && 1 <= d <= 31 && 0 <= h <= 23 && name@ == #[trigger] topic_name_view(
                y,
                m,
                d,
                h,
            ))),
{
    let now = utc_now_parts();
    plan_topic_step(topic_arn, region, now)
}

/// The subscribe request for an email endpoint.
pub struct SubscribeRequest {
    /// The topic subscribed to.
    pub topic_arn: String,
    /// The delivery protocol.
    pub protocol: String,
    /// The email address notified.
    pub endpoint: String,
}

/// Builds the subscribe request for an email endpoint. The protocol is
/// `email`: notifications arrive as plain text, not JSON-wrapped.
pub fn subscribe_request(topic_arn: String, email: String) -> (r: SubscribeRequest)
    ensures
        r.topic_arn@ == topic_arn@,
        r.protocol@ == "email"@,
        r.endpoint@ == email@,
{
    SubscribeRequest { topic_arn, protocol: "email".to_owned(), endpoint: email }
}

/// Maps the provider's create-topic response: the topic ARN when one came
/// back. A failing call, or a response that carries no topic ARN, is an
/// `SNSTopic` error.
pub fn create_topic_outcome(response: Result<Option<String>, String>) -> (r: Result<
    String,
    WatchError,
>)
    ensures
        r is Ok <==> (response matches Ok(o) && o is Some),
        response matches Ok(Some(arn)) ==> (r matches Ok(a) && a@ == arn@),
        response matches Ok(None) ==> (r matches Err(e) && e matches WatchError::SNSTopic(m) && m@
            == "error creating topic"@),
        response matches Err(msg) ==> (r matches Err(e) && e matches WatchError::SNSTopic(m) && m@
            == msg@),
{
    match response {
        Ok(Some(arn)) => Ok(arn),
        Ok(None) => Err(WatchError::SNSTopic("error creating topic".to_owned())),
        Err(msg) => Err(WatchError::SNSTopic(msg)),
    }
}

/// Maps the provider's subscribe response: the subscription ARN when one
/// came back. A failing call, or a response that carries no subscription
/// ARN, is an `SNSSubscription` error — the failure lies in the
/// subscription step either way.
pub fn subscribe_outcome(response: Result<Option<String>, String>) -> (r: Result<
    String,
    WatchError,
>)
    ensures
        r is Ok <==> (response matches Ok(o) && o is Some),
        response matches Ok(Some(arn)) ==> (r matches Ok(a) && a@ == arn@),
        response matches Ok(None) ==> (r matches Err(e) && e matches WatchError::SNSSubscription(m)
            && m@ == "error retrieving subscription arn"@),
        response matches Err(msg) ==> (r matches Err(e) && e matches WatchError::SNSSubscription(m)
            && m@ == msg@),
{
    match response {
        Ok(Some(arn)) => Ok(arn),
        Ok(None) => Err(
            WatchError::SNSSubscription("error retrieving subscription arn".to_owned()),
        ),
        Err(msg) => Err(WatchError::SNSSubscription(msg)),
    }
}

/// The single provider call an unsubscribe operation makes.
#[derive(Debug, PartialEq, Eq)]
pub enum UnsubscribeAction {
    /// Delete the topic; the provider cascades the deletion to every
    /// subscription under it.
    DeleteTopic {
        /// The topic ARN to delete.
        topic_arn: String,
    },
    /// Cancel the one subscription.
    CancelSubscription {
        /// The subscription ARN to cancel.
        subscription_arn: String,
    },
}

/// Decides what an unsubscribe request does, before any call is attempted.
/// Deleting the topic demands a topic ARN: with the delete flag set and no
/// ARN supplied, the request fails with an `SNSTopic` validation error and
/// plans no call at all. With the flag set and an ARN supplied, the plan is
/// to delete the topic — never to unsubscribe. Without the flag, the plan
/// is to cancel the given subscription.
pub fn plan_unsubscribe(
    subscription_arn: String,
    delete_topic: bool,
    topic_arn: Option<String>,
) -> (r: Result<UnsubscribeAction, WatchError>)
    ensures
        r is Err <==> (delete_topic && topic_arn is None),
        r matches Err(e) ==> (e matches WatchError::SNSTopic(m) && m@
            == "topic arn should be `Some` when `deleted_flag` is true"@),
        delete_topic ==> (topic_arn matches Some(arn) ==> (r matches Ok(a) && a matches
            UnsubscribeAction::DeleteTopic { topic_arn: t } && t@ == arn@)),
        !delete_topic ==> (r matches Ok(a) && a matches UnsubscribeAction::CancelSubscription {
            subscription_arn: s,
        } && s@ == subscription_arn@),
{
    if delete_topic {
        match topic_arn {
            None => Err(
                WatchError::SNSTopic(
                    "topic arn should be `Some` when `deleted_flag` is true".to_owned(),
                ),
            ),
            Some(arn) => Ok(UnsubscribeAction::DeleteTopic { topic_arn: arn }),
        }
    } else {
        Ok(UnsubscribeAction::CancelSubscription { subscription_arn })
    }
}

/// Maps the provider's delete-topic response: success exactly when the call
/// succeeded; a failure is an `SNSTopic` error carrying the message.
pub fn delete_topic_outcome(response: Result<(), String>) -> (r: Result<(), WatchError>)
    ensures
        r is Ok <==> response is Ok,
        response matches Err(msg) ==> (r matches Err(e) && e matches WatchError::SNSTopic(m) && m@
            == msg@),
{
    match response {
        Ok(()) => Ok(()),
        Err(msg) => Err(WatchError::SNSTopic(msg)),
    }
}

/// Maps the provider's unsubscribe response: success exactly when the call
/// succeeded; a failure is an `SNSSubscription` error carrying the message.
pub fn unsubscribe_outcome(response: Result<(), String>) -> (r: Result<(), WatchError>)
    ensures
        r is Ok <==> response is Ok,
        response matches Err(msg) ==> (r matches Err(e) && e matches WatchError::SNSSubscription(m)
            && m@ == msg@),
{
    match response {
        Ok(()) => Ok(()),
        Err(msg) => Err(WatchError::SNSSubscription(msg)),
    }
}

} // verus!
