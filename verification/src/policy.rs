//! The SNS topic access policy. EventBridge cannot publish to an SNS topic
//! without an explicit resource policy, so every generated topic is created
//! with one: a fixed two-statement template granting the account wildcard
//! principal the topic-management actions, and granting the events service
//! permission to publish, with the region and the topic name spliced into
//! the resource ARN of both statements.

use vstd::prelude::*;
use vstd::string::StringExecFns;

verus! {

/// The resource ARN of a topic: region and name spliced into the fixed
/// ARN shape, with a wildcard account.
pub open spec fn topic_resource_arn(region: Seq<char>, topic: Seq<char>) -> Seq<char> {
    "arn:aws:sns:"@ + region + ":*:"@ + topic
}

/// The opening of the policy document, up to the first resource ARN.
pub open spec fn policy_head() -> Seq<char> {
    "{\"Id\":\"AWSSNSCWEIntegration\",\"Statement\":[{\"Action\":[\"SNS:GetTopicAttributes\",\"SNS:SetTopicAttributes\",\"SNS:AddPermission\",\"SNS:RemovePermission\",\"SNS:DeleteTopic\",\"SNS:Subscribe\",\"SNS:ListSubscriptionsByTopic\",\"SNS:Publish\",\"SNS:Receive\"],\"Effect\":\"Allow\",\"Principal\":{\"AWS\":\"*\"},\"Resource\":\""@
}

/// The middle of the policy document, between the two resource ARNs.
pub open spec fn policy_mid() -> Seq<char> {
    "\",\"Sid\":\"AWSSNSAccess\"},{\"Sid\":\"PublishEventsToSNS\",\"Effect\":\"Allow\",\"Principal\":{\"Service\":\"events.amazonaws.com\"},\"Action\":\"sns:Publish\",\"Resource\":\""@
}

/// The closing of the policy document, after the second resource ARN.
pub open spec fn policy_tail() -> Seq<char> {
    "\"}],\"Version\":\"2008-10-17\"}"@
}

/// The full access policy for a topic in a region.
pub open spec fn access_policy_view(region: Seq<char>, topic: Seq<char>) -> Seq<char> {
    policy_head() + topic_resource_arn(region, topic) + policy_mid() + topic_resource_arn(
        region,
        topic,
    ) + policy_tail()
}

/// Appends the resource ARN of a topic to `out`.
fn push_topic_resource_arn(out: &mut String, region: &str, topic: &str)
    ensures
        final(out)@ == old(out)@ + topic_resource_arn(region@, topic@),
{
    out.append("arn:aws:sns:");
    out.append(region);
    out.append(":*:");
    out.append(topic);
    proof {
        assert(final(out)@ =~= old(out)@ + topic_resource_arn(region@, topic@));
    }
}

/// Builds the access policy for a topic in a region.
pub fn access_policy(region: &str, topic: &str) -> (r: String)
    ensures
        r@ == access_policy_view(region@, topic@),
{
    let mut out = String::new();
    out.append(
        "{\"Id\":\"AWSSNSCWEIntegration\",\"Statement\":[{\"Action\":[\"SNS:GetTopicAttributes\",\"SNS:SetTopicAttributes\",\"SNS:AddPermission\",\"SNS:RemovePermission\",\"SNS:DeleteTopic\",\"SNS:Subscribe\",\"SNS:ListSubscriptionsByTopic\",\"SNS:Publish\",\"SNS:Receive\"],\"Effect\":\"Allow\",\"Principal\":{\"AWS\":\"*\"},\"Resource\":\"",
    );
    push_topic_resource_arn(&mut out, region, topic);
    out.append(
        "\",\"Sid\":\"AWSSNSAccess\"},{\"Sid\":\"PublishEventsToSNS\",\"Effect\":\"Allow\",\"Principal\":{\"Service\":\"events.amazonaws.com\"},\"Action\":\"sns:Publish\",\"Resource\":\"",
    );
    push_topic_resource_arn(&mut out, region, topic);
    out.append("\"}],\"Version\":\"2008-10-17\"}");
    proof {
        assert(out@ =~= access_policy_view(region@, topic@));
    }
    out
}

} // verus!
