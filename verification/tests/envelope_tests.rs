use lambda_events::envelope::{AutoScalingEvent, Envelope};
use lambda_events::tree::JsonValue;

fn decode(data: &[u8]) -> Envelope {
    let tree = JsonValue::parse(data).unwrap();
    Envelope::decode(&tree).unwrap()
}

fn round_trip(data: &[u8]) {
    let parsed = decode(data);
    let output = parsed.encode().to_bytes();
    let reparsed = decode(&output);
    assert_eq!(parsed, reparsed);
}

#[test]
fn example_autoscaling_event_launch_successful() {
    round_trip(
        br#"{"version":"0","id":"3e3c153a-8339-4e30-8c35-687ebef853fe","detail-type":"EC2 Instance Launch Successful","source":"aws.autoscaling","account":"123456789012","time":"2015-11-11T21:31:47Z","region":"us-east-1","resources":["arn:aws:autoscaling:us-east-1:123456789012:autoScalingGroup:eb56d16b:autoScalingGroupName/sampleLuanchSucASG"],"detail":{"StatusCode":"InProgress","AutoScalingGroupName":"sampleLuanchSucASG"}}"#,
    );
}

#[test]
fn example_autoscaling_event_launch_unsuccessful() {
    round_trip(
        br#"{"version":"0","id":"1681ab87-4a09-459f-a76d-c7339b4a38ab","detail-type":"EC2 Instance Launch Unsuccessful","source":"aws.autoscaling","account":"123456789012","time":"2015-11-11T21:31:47Z","region":"us-east-1","resources":["arn:aws:autoscaling:us-east-1:123456789012:autoScalingGroup:9305cb2e:autoScalingGroupName/sampleLaunchUnsucASG"],"detail":{"StatusCode":"Failed","AutoScalingGroupName":"sampleLaunchUnsucASG"}}"#,
    );
}

#[test]
fn example_autoscaling_event_lifecycle_action() {
    round_trip(
        br#"{"version":"0","id":"468fe059-f4b7-445f-bb22-2a271b94974d","detail-type":"EC2 Instance-launch Lifecycle Action","source":"aws.autoscaling","account":"123456789012","time":"2015-12-22T18:43:48Z","region":"us-east-1","resources":["arn:aws:autoscaling:us-east-1:123456789012:autoScalingGroup:59fcbb81:autoScalingGroupName/sampleASG"],"detail":{"LifecycleActionToken":"c613620e-07e2-4ed2-a9e2-ef8258911ade","AutoScalingGroupName":"sampleASG"}}"#,
    );
}

#[test]
fn example_autoscaling_event_terminate_action() {
    round_trip(
        br#"{"version":"0","id":"468fe059-f4b7-445f-bb22-2a271b94974d","detail-type":"EC2 Instance-terminate Lifecycle Action","source":"aws.autoscaling","account":"123456789012","time":"2015-12-22T18:43:48Z","region":"us-east-1","resources":["arn:aws:autoscaling:us-east-1:123456789012:autoScalingGroup:59fcbb81:autoScalingGroupName/sampleTerASG"],"detail":{"LifecycleActionToken":"b4dd0f5b-0123-4567-a012-1234567890ab","AutoScalingGroupName":"sampleTerASG"}}"#,
    );
}

#[test]
fn example_autoscaling_event_terminate_successful() {
    round_trip(
        br#"{"version":"0","id":"156d01c9-a6c3-4d7e-b883-5758266b95af","detail-type":"EC2 Instance Terminate Successful","source":"aws.autoscaling","account":"123456789012","time":"2015-11-11T21:36:57Z","region":"us-east-1","resources":["arn:aws:autoscaling:us-east-1:123456789012:autoScalingGroup:b8bbc17b:autoScalingGroupName/sampleTermSucASG"],"detail":{"StatusCode":"InProgress","AutoScalingGroupName":"sampleTermSucASG"}}"#,
    );
}

#[test]
fn example_autoscaling_event_terminate_unsuccessful() {
    round_trip(
        br#"{"version":"0","id":"b51cab06-9da2-4c61-a209-cc86e14f72c7","detail-type":"EC2 Instance Terminate Unsuccessful","source":"aws.autoscaling","account":"123456789012","time":"2015-11-11T21:41:44Z","region":"us-east-1","resources":["arn:aws:autoscaling:us-east-1:123456789012:autoScalingGroup:37d6e33b:autoScalingGroupName/sampleTermUnsucASG"],"detail":{"StatusCode":"Failed","AutoScalingGroupName":"sampleTermUnsucASG"}}"#,
    );
}

#[test]
fn envelope_time_decodes_to_the_named_instant() {
    let parsed = decode(
        br#"{"time":"2015-11-11T21:31:47Z","resources":[],"detail":{}}"#,
    );
    assert_eq!(1447277507, parsed.time);
    // The historical name stays usable for the same shape.
    let again: AutoScalingEvent = parsed;
    assert_eq!(1447277507, again.time);
}

#[test]
fn envelope_detail_defaults_to_empty_when_absent() {
    let parsed = decode(br#"{"time":"2015-11-11T21:31:47Z","resources":[]}"#);
    assert!(parsed.detail.is_empty());
    let parsed = decode(br#"{"time":"2015-11-11T21:31:47Z","resources":[],"detail":null}"#);
    assert!(parsed.detail.is_empty());
}

#[test]
fn envelope_detail_carries_present_pairs() {
    let parsed = decode(
        br#"{"time":"2015-11-11T21:31:47Z","resources":[],"detail":{"a":1,"b":"x"}}"#,
    );
    assert_eq!(2, parsed.detail.len());
    assert_eq!(("a".to_string(), JsonValue::Int(1)), parsed.detail[0]);
    assert_eq!(("b".to_string(), JsonValue::Str("x".to_string())), parsed.detail[1]);
}

#[test]
fn envelope_rejects_bad_shapes() {
    let tree = JsonValue::parse(br#"{"time":"2015-11-11T21:31:47Z","resources":[],"detail":[1]}"#)
        .unwrap();
    assert!(Envelope::decode(&tree).is_none());
    let tree = JsonValue::parse(br#"{"time":"eleven o'clock","resources":[]}"#).unwrap();
    assert!(Envelope::decode(&tree).is_none());
    let tree = JsonValue::parse(br#"{"resources":[]}"#).unwrap();
    assert!(Envelope::decode(&tree).is_none());
    let tree = JsonValue::parse(br#"{"time":"2015-11-11T21:31:47Z"}"#).unwrap();
    assert!(Envelope::decode(&tree).is_none());
    let tree = JsonValue::parse(br#"{"time":"2015-11-11T21:31:47Z","resources":[7]}"#).unwrap();
    assert!(Envelope::decode(&tree).is_none());
}

#[test]
fn envelope_encoding_writes_the_rfc3339_text() {
    let parsed = decode(br#"{"time":"2015-11-11T21:31:47Z","resources":["r"]}"#);
    let encoded = parsed.encode();
    let time_node = encoded.get_key("time").unwrap();
    assert_eq!(&JsonValue::Str("2015-11-11T21:31:47+00:00".to_string()), time_node);
}
