//! Tests for the SNS access policy document.

use watchrs::policy::access_policy;

#[test]
fn policy_matches_expected_text() {
    let policy = access_policy("us-east-1", "watchrs_2020_1_2_3");
    let expected = "{\"Id\":\"AWSSNSCWEIntegration\",\"Statement\":[\
        {\"Action\":[\"SNS:GetTopicAttributes\",\"SNS:SetTopicAttributes\",\
        \"SNS:AddPermission\",\"SNS:RemovePermission\",\"SNS:DeleteTopic\",\
        \"SNS:Subscribe\",\"SNS:ListSubscriptionsByTopic\",\"SNS:Publish\",\
        \"SNS:Receive\"],\"Effect\":\"Allow\",\"Principal\":{\"AWS\":\"*\"},\
        \"Resource\":\"arn:aws:sns:us-east-1:*:watchrs_2020_1_2_3\",\
        \"Sid\":\"AWSSNSAccess\"},\
        {\"Sid\":\"PublishEventsToSNS\",\"Effect\":\"Allow\",\
        \"Principal\":{\"Service\":\"events.amazonaws.com\"},\
        \"Action\":\"sns:Publish\",\
        \"Resource\":\"arn:aws:sns:us-east-1:*:watchrs_2020_1_2_3\"}],\
        \"Version\":\"2008-10-17\"}";
    assert_eq!(policy, expected);
}

#[test]
fn policy_is_valid_json_with_both_statements() {
    let policy = access_policy("eu-west-1", "alerts");
    let value: serde_json::Value = serde_json::from_str(&policy).expect("valid JSON");
    assert_eq!(value["Id"], "AWSSNSCWEIntegration");
    assert_eq!(value["Version"], "2008-10-17");
    let statements = value["Statement"].as_array().expect("a statement list");
    assert_eq!(statements.len(), 2);
    assert_eq!(statements[0]["Resource"], "arn:aws:sns:eu-west-1:*:alerts");
    assert_eq!(statements[1]["Resource"], "arn:aws:sns:eu-west-1:*:alerts");
    assert_eq!(statements[1]["Principal"]["Service"], "events.amazonaws.com");
    assert_eq!(statements[0]["Principal"]["AWS"], "*");
}
