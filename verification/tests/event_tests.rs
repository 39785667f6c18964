use lambda_events::kinesis::{
    KinesisEncryptionType, KinesisEvent, KinesisTimeWindowEvent, KinesisTimeWindowEventResponse,
    TimeWindowEventResponseProperties,
};
use lambda_events::secrets::SecretsManagerSecretRotationEvent;
use lambda_events::tree::JsonValue;

#[test]
fn example_kinesis_event() {
    let data = br#"{"Records":[{"awsRegion":"us-east-1","eventID":"shardId-000000000000:49545115243490985018280067714973144582180062593244200961","eventName":"aws:kinesis:record","eventSource":"aws:kinesis","eventSourceARN":"arn:aws:kinesis:EXAMPLE","eventVersion":"1.0","invokeIdentityArn":"arn:aws:iam::EXAMPLE","kinesis":{"approximateArrivalTimestamp":1428537600,"data":"SGVsbG8sIHRoaXMgaXMgYSB0ZXN0IDEyMy4=","partitionKey":"partitionKey-03","sequenceNumber":"49545115243490985018280067714973144582180062593244200961","kinesisSchemaVersion":"1.0"}}]}"#;
    let tree = JsonValue::parse(data).unwrap();
    let parsed = KinesisEvent::decode(&tree).unwrap();
    assert_eq!(KinesisEncryptionType::NoEncryption, parsed.records[0].kinesis.encryption_type);

    let output = parsed.encode().to_bytes();
    let retree = JsonValue::parse(&output).unwrap();
    let reparsed = KinesisEvent::decode(&retree).unwrap();
    assert_eq!(parsed, reparsed);
}

#[test]
fn example_kinesis_event_encrypted() {
    let data = br#"{"Records":[{"awsRegion":"us-east-1","eventID":"shardId-000000000000:49545115243490985018280067714973144582180062593244200961","eventName":"aws:kinesis:record","eventSource":"aws:kinesis","eventSourceARN":"arn:aws:kinesis:EXAMPLE","eventVersion":"1.0","invokeIdentityArn":"arn:aws:iam::EXAMPLE","kinesis":{"approximateArrivalTimestamp":1428537600,"data":"SGVsbG8sIHRoaXMgaXMgYSB0ZXN0IDEyMy4=","encryptionType":"KMS","partitionKey":"partitionKey-03","sequenceNumber":"49545115243490985018280067714973144582180062593244200961","kinesisSchemaVersion":"1.0"}}]}"#;
    let tree = JsonValue::parse(data).unwrap();
    let parsed = KinesisEvent::decode(&tree).unwrap();
    assert_eq!(KinesisEncryptionType::Kms, parsed.records[0].kinesis.encryption_type);

    let output = parsed.encode().to_bytes();
    let retree = JsonValue::parse(&output).unwrap();
    let reparsed = KinesisEvent::decode(&retree).unwrap();
    assert_eq!(parsed, reparsed);
}

#[test]
fn example_secretsmanager_secret_rotation_event() {
    let data = br#"{"Step":"createSecret","SecretId":"arn:aws:secretsmanager:us-west-2:123456789012:secret:MyTestDatabaseSecret-a1b2c3","ClientRequestToken":"550e8400-e29b-41d4-a716-446655440000"}"#;
    let tree = JsonValue::parse(data).unwrap();
    let parsed = SecretsManagerSecretRotationEvent::decode(&tree).unwrap();
    let output = parsed.encode().to_bytes();
    let retree = JsonValue::parse(&output).unwrap();
    let reparsed = SecretsManagerSecretRotationEvent::decode(&retree).unwrap();
    assert_eq!(parsed, reparsed);
}

#[test]
fn secret_rotation_fields_are_required() {
    let tree = JsonValue::parse(br#"{"Step":"createSecret","SecretId":"s"}"#).unwrap();
    assert!(SecretsManagerSecretRotationEvent::decode(&tree).is_none());
    let tree = JsonValue::parse(br#"{"Step":"createSecret","SecretId":"s","ClientRequestToken":7}"#)
        .unwrap();
    assert!(SecretsManagerSecretRotationEvent::decode(&tree).is_none());
}

#[test]
fn kinesis_record_fields_decode_exactly() {
    let data = br#"{"Records":[{"kinesis":{"approximateArrivalTimestamp":1428537600,"data":"aGk=","encryptionType":"NONE"}}]}"#;
    let tree = JsonValue::parse(data).unwrap();
    let parsed = KinesisEvent::decode(&tree).unwrap();
    let record = &parsed.records[0].kinesis;
    assert_eq!(1428537600, record.approximate_arrival_timestamp);
    assert_eq!("aGk=", record.data);
    assert_eq!(KinesisEncryptionType::NoEncryption, record.encryption_type);
    assert_eq!("", record.partition_key);
    assert_eq!("", record.sequence_number);
    assert_eq!(None, record.kinesis_schema_version);
    assert_eq!(None, parsed.records[0].aws_region);
}

#[test]
fn kinesis_event_requires_decodable_records() {
    let tree = JsonValue::parse(br#"{"Records":[{"kinesis":{"data":"aGk="}}]}"#).unwrap();
    assert!(KinesisEvent::decode(&tree).is_none());
    let tree = JsonValue::parse(br#"{"Records":[17]}"#).unwrap();
    assert!(KinesisEvent::decode(&tree).is_none());
    let tree = JsonValue::parse(br#"{}"#).unwrap();
    assert!(KinesisEvent::decode(&tree).is_none());
    let tree = JsonValue::parse(
        br#"{"Records":[{"kinesis":{"approximateArrivalTimestamp":1,"data":"aGk=","encryptionType":"ROT13"}}]}"#,
    )
    .unwrap();
    assert!(KinesisEvent::decode(&tree).is_none());
}

#[test]
fn kinesis_time_window_event_round_trips() {
    let data = br#"{"Records":[{"kinesis":{"approximateArrivalTimestamp":1607497475,"data":"SGVsbG8=","partitionKey":"123","sequenceNumber":"49"}}],"window":{"start":"2020-12-09T07:04:00Z","end":"2020-12-09T07:06:00Z"},"shardId":"shardId-000000000006","isFinalInvokeForWindow":false,"isWindowTerminatedEarly":false}"#;
    let tree = JsonValue::parse(data).unwrap();
    let parsed = KinesisTimeWindowEvent::decode(&tree).unwrap();
    assert_eq!(
        "2020-12-09T07:04:00Z",
        parsed.time_window_properties.window.as_ref().unwrap().start
    );
    assert_eq!(Some(false), parsed.time_window_properties.is_final_invoke_for_window);

    let output = parsed.encode().to_bytes();
    let retree = JsonValue::parse(&output).unwrap();
    let reparsed = KinesisTimeWindowEvent::decode(&retree).unwrap();
    assert_eq!(parsed, reparsed);
}

#[test]
fn kinesis_time_window_response_round_trips() {
    let data = br#"{"state":{"runningSum":"7","seen":"3"}}"#;
    let tree = JsonValue::parse(data).unwrap();
    let parsed = KinesisTimeWindowEventResponse::decode(&tree).unwrap();
    assert_eq!(
        vec![
            ("runningSum".to_string(), "7".to_string()),
            ("seen".to_string(), "3".to_string()),
        ],
        parsed.time_window_event_response_properties.state
    );
    let output = parsed.encode().to_bytes();
    let retree = JsonValue::parse(&output).unwrap();
    let reparsed = KinesisTimeWindowEventResponse::decode(&retree).unwrap();
    assert_eq!(parsed, reparsed);

    let empty = JsonValue::parse(br#"{}"#).unwrap();
    let defaulted = KinesisTimeWindowEventResponse::decode(&empty).unwrap();
    assert!(defaulted.time_window_event_response_properties.state.is_empty());
    let built = KinesisTimeWindowEventResponse {
        time_window_event_response_properties: TimeWindowEventResponseProperties {
            state: Vec::new(),
        },
    };
    assert_eq!(built, KinesisTimeWindowEventResponse::new());
}
