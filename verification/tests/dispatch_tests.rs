use lambda_events::dispatch::{dispatch_slice, DiscriminationError, DispatchConfig, ResolvedEvent, VariantKind};
use lambda_events::tree::JsonValue;

fn all() -> DispatchConfig {
    DispatchConfig::all()
}

fn no_pass_through() -> DispatchConfig {
    DispatchConfig {
        api_gateway_v1: true,
        api_gateway_v2: true,
        alb: true,
        web_socket: true,
        pass_through: false,
    }
}

#[test]
fn test_deserialize_apigw_rest() {
    let data = br#"{"httpMethod":"GET","path":"/hello","requestContext":{"accountId":"12345678912","stage":"prod"}}"#;
    let req = dispatch_slice(data, all()).expect("failed to deserialize apigw rest data");
    match req {
        ResolvedEvent::ApiGatewayV1(req) => {
            assert_eq!("12345678912", req.request_context.account_id.unwrap());
        }
        other => panic!("unexpected request variant: {:?}", other),
    }
}

#[test]
fn test_deserialize_apigw_http() {
    let data = br#"{"routeKey":"$default","requestContext":{"accountId":"123456789012","http":{"method":"GET","path":"/"}}}"#;
    let req = dispatch_slice(data, all()).expect("failed to deserialize apigw http data");
    match req {
        ResolvedEvent::ApiGatewayV2(req) => {
            assert_eq!("123456789012", req.request_context.account_id.unwrap());
        }
        other => panic!("unexpected request variant: {:?}", other),
    }
}

#[test]
fn test_deserialize_sam_rest() {
    let data = br#"{"httpMethod":"POST","path":"/","requestContext":{"accountId":"123456789012","stage":"Prod"}}"#;
    let req = dispatch_slice(data, all()).expect("failed to deserialize SAM rest data");
    match req {
        ResolvedEvent::ApiGatewayV1(req) => {
            assert_eq!("123456789012", req.request_context.account_id.unwrap());
        }
        other => panic!("unexpected request variant: {:?}", other),
    }
}

#[test]
fn test_deserialize_sam_http() {
    let data = br#"{"routeKey":"GET /","requestContext":{"accountId":"123456789012","http":{"method":"GET","path":"/"}}}"#;
    let req = dispatch_slice(data, all()).expect("failed to deserialize SAM http data");
    match req {
        ResolvedEvent::ApiGatewayV2(req) => {
            assert_eq!("123456789012", req.request_context.account_id.unwrap());
        }
        other => panic!("unexpected request variant: {:?}", other),
    }
}

#[test]
fn test_deserialize_alb() {
    let data = br#"{"path":"/lambda","requestContext":{"elb":{"targetGroupArn":"arn:aws:elasticloadbalancing:us-east-1:123456789012:targetgroup/lambda-target/abcdefgh"}}}"#;
    let req = dispatch_slice(data, all()).expect("failed to deserialize alb rest data");
    match req {
        ResolvedEvent::Alb(req) => {
            assert_eq!(
                "arn:aws:elasticloadbalancing:us-east-1:123456789012:targetgroup/lambda-target/abcdefgh",
                req.request_context.elb.target_group_arn.unwrap()
            );
        }
        other => panic!("unexpected request variant: {:?}", other),
    }
}

#[test]
fn test_deserialize_apigw_websocket() {
    let data =
        br#"{"connectedAt":1234,"requestContext":{"eventType":"CONNECT","connectionId":"abcdef"}}"#;
    let req = dispatch_slice(data, all()).expect("failed to deserialize apigw websocket data");
    match req {
        ResolvedEvent::WebSocket(req) => {
            assert_eq!("CONNECT", req.request_context.event_type.unwrap());
        }
        other => panic!("unexpected request variant: {:?}", other),
    }
}

#[test]
fn test_deserialize_bedrock_agent() {
    let data = br#"{"messageVersion":"1.0","agent":{"name":"agent"},"inputText":"hi"}"#;
    let req = dispatch_slice(data, all()).expect("failed to deserialize bedrock agent request data");
    match req {
        ResolvedEvent::PassThrough(req) => {
            let original = JsonValue::parse(data).unwrap();
            assert_eq!(original, req);
        }
        other => panic!("unexpected request variant: {:?}", other),
    }
}

#[test]
fn test_deserialize_sqs() {
    let data = br#"{"Records":[{"eventSource":"aws:sqs","body":"hello"}]}"#;
    let req = dispatch_slice(data, all()).expect("failed to deserialize sqs event data");
    match req {
        ResolvedEvent::PassThrough(req) => {
            let original = JsonValue::parse(data).unwrap();
            assert_eq!(original, req);
        }
        other => panic!("unexpected request variant: {:?}", other),
    }
}

#[test]
fn http_gateway_marker_selects_http_flavor() {
    let data = br#"{"requestContext":{"http":{}}}"#;
    let req = dispatch_slice(data, all()).unwrap();
    assert!(matches!(req, ResolvedEvent::ApiGatewayV2(_)));
}

#[test]
fn elb_marker_selects_load_balancer_flavor() {
    let data = br#"{"requestContext":{"elb":{"targetGroupArn":"arn:aws:elasticloadbalancing:us-east-1:1:targetgroup/x/y"}}}"#;
    let req = dispatch_slice(data, all()).unwrap();
    match req {
        ResolvedEvent::Alb(req) => {
            assert_eq!(
                "arn:aws:elasticloadbalancing:us-east-1:1:targetgroup/x/y",
                req.request_context.elb.target_group_arn.unwrap()
            );
        }
        other => panic!("unexpected request variant: {:?}", other),
    }
}

#[test]
fn connected_at_selects_websocket_flavor() {
    let data = br#"{"connectedAt":1234}"#;
    let req = dispatch_slice(data, all()).unwrap();
    match req {
        ResolvedEvent::WebSocket(req) => {
            assert_eq!(1234, req.connected_at);
        }
        other => panic!("unexpected request variant: {:?}", other),
    }
}

#[test]
fn unmatched_payload_without_pass_through_is_unrecognized() {
    let data = br#"{"foo":"bar"}"#;
    let err = dispatch_slice(data, no_pass_through()).unwrap_err();
    assert_eq!(DiscriminationError::UnrecognizedShape, err);
}

#[test]
fn unmatched_payload_with_pass_through_is_wrapped_unmodified() {
    let data = br#"{"foo":"bar"}"#;
    let req = dispatch_slice(data, all()).unwrap();
    match req {
        ResolvedEvent::PassThrough(tree) => {
            assert_eq!(JsonValue::parse(data).unwrap(), tree);
        }
        other => panic!("unexpected request variant: {:?}", other),
    }
}

#[test]
fn overlapping_fingerprints_resolve_by_priority_order() {
    // Matches both the REST-style fingerprint and the WebSocket one; the
    // REST flavor stands earlier in the priority order and must win, on
    // every run.
    let data = br#"{"httpMethod":"GET","requestContext":{},"connectedAt":99}"#;
    for _ in 0..3 {
        let req = dispatch_slice(data, all()).unwrap();
        assert!(matches!(req, ResolvedEvent::ApiGatewayV1(_)));
    }
    // With the REST flavor disabled the next matching variant wins.
    let cfg = DispatchConfig {
        api_gateway_v1: false,
        api_gateway_v2: true,
        alb: true,
        web_socket: true,
        pass_through: true,
    };
    let req = dispatch_slice(data, cfg).unwrap();
    assert!(matches!(req, ResolvedEvent::WebSocket(_)));
}

#[test]
fn structural_match_with_bad_fields_is_a_variant_decode_error() {
    // The REST fingerprint holds (the marker keys are present) but the
    // method is not a string, so the typed decode fails and the error
    // names the matched variant.
    let data = br#"{"httpMethod":123,"requestContext":{}}"#;
    let err = dispatch_slice(data, all()).unwrap_err();
    assert_eq!(DiscriminationError::VariantDecode(VariantKind::ApiGatewayV1), err);
}

#[test]
fn malformed_bytes_are_a_parse_error() {
    let err = dispatch_slice(b"this is not json", all()).unwrap_err();
    assert_eq!(DiscriminationError::ParseError, err);
    // A number outside the tree's integer model is rejected at the same
    // boundary.
    let err = dispatch_slice(b"{\"connectedAt\":1.5}", all()).unwrap_err();
    assert_eq!(DiscriminationError::ParseError, err);
}

#[test]
fn error_messages_are_fixed_lines() {
    assert_eq!(
        "the payload matches none of the configured event shapes",
        DiscriminationError::UnrecognizedShape.message()
    );
    assert_eq!(
        "the payload is not a well-formed JSON document",
        DiscriminationError::ParseError.message()
    );
}

#[test]
fn resolved_events_round_trip_through_encoding() {
    let inputs: Vec<&[u8]> = vec![
        br#"{"httpMethod":"GET","path":"/hello","requestContext":{"accountId":"12345678912","stage":"prod"}}"#,
        br#"{"routeKey":"$default","requestContext":{"accountId":"123456789012","http":{"method":"GET","path":"/"}}}"#,
        br#"{"path":"/lambda","requestContext":{"elb":{"targetGroupArn":"arn:aws:elasticloadbalancing:us-east-1:1:targetgroup/x/y"}}}"#,
        br#"{"connectedAt":1234,"requestContext":{"eventType":"CONNECT","connectionId":"abcdef"}}"#,
    ];
    for data in inputs {
        let first = dispatch_slice(data, all()).unwrap();
        let reencoded = first.to_json_bytes();
        let second = dispatch_slice(&reencoded, all()).unwrap();
        assert_eq!(first, second);
    }
}

#[test]
fn probe_answers_presence_questions() {
    let tree = JsonValue::parse(br#"{"a":{"b":1},"c":null}"#).unwrap();
    assert!(tree.has_key("a"));
    assert!(tree.has_key("c"));
    assert!(!tree.has_key("b"));
    assert!(tree.get_object("a").is_some());
    assert!(tree.get_object("c").is_none());
    let inner = tree.get_key("a").unwrap();
    assert!(inner.has_key("b"));
    assert_eq!(&JsonValue::Int(1), inner.get_key("b").unwrap());
    assert_eq!(tree, tree.deep_copy());
}

#[test]
fn probe_answers_path_questions() {
    let tree =
        JsonValue::parse(br#"{"requestContext":{"elb":{"targetGroupArn":"arn:x"}}}"#).unwrap();
    assert!(tree.has_path(&["requestContext", "elb"]));
    assert!(tree.has_path(&["requestContext", "elb", "targetGroupArn"]));
    assert!(!tree.has_path(&["requestContext", "http"]));
    assert!(tree.get_object_path(&["requestContext", "elb"]).is_some());
    assert!(tree.get_object_path(&["requestContext", "elb", "targetGroupArn"]).is_none());
    assert!(tree.path_has_key(&["requestContext"], "elb"));
    assert!(!tree.path_has_key(&["requestContext"], "http"));
    assert!(tree.has_path(&[]));
}
