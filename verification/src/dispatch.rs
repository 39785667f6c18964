//! The variant catalog and the dispatcher.
//!
//! The catalog is an explicit, priority-ordered list of the variants that a
//! build enables; each variant carries a structural fingerprint over the
//! generic tree. The dispatcher walks that list in order, selects the first
//! variant whose fingerprint holds, and decodes the typed value from the
//! same tree; when none holds it falls back to passthrough, or reports an
//! unrecognized shape.

use vstd::prelude::*;

use crate::gateway::{
    alb_request_of, rest_request_of, v2_request_of, ws_request_of, AlbTargetGroupRequest,
    AlbTargetGroupRequestModel, ApiGatewayProxyRequest, ApiGatewayProxyRequestModel,
    ApiGatewayV2httpRequest, ApiGatewayV2httpRequestModel, ApiGatewayWebsocketProxyRequest,
    ApiGatewayWebsocketProxyRequestModel,
};
use crate::tree::{tree_get, tree_get_object, tree_has_key, JsonModel, JsonValue};
use crate::trusted::{parse_bytes, parsed_doc, write_json};

verus! {

/// One supported variant, named for diagnostics and for the catalog order.
#[derive(Debug, Clone, Copy, PartialEq, Eq, Structural)]
pub enum VariantKind {
    ApiGatewayV1,
    ApiGatewayV2,
    Alb,
    WebSocket,
}

/// Which variants a build enables, and whether an unmatched payload passes
/// through instead of failing.
#[derive(Debug, Clone, Copy, PartialEq, Eq, Structural)]
pub struct DispatchConfig {
    pub api_gateway_v1: bool,
    pub api_gateway_v2: bool,
    pub alb: bool,
    pub web_socket: bool,
    pub pass_through: bool,
}

impl DispatchConfig {
    /// A configuration with every variant and the passthrough enabled.
    pub fn all() -> (r: DispatchConfig)
        ensures
            r == (DispatchConfig {
                api_gateway_v1: true,
                api_gateway_v2: true,
                alb: true,
                web_socket: true,
                pass_through: true,
            }),
    {
        DispatchConfig {
            api_gateway_v1: true,
            api_gateway_v2: true,
            alb: true,
            web_socket: true,
            pass_through: true,
        }
    }
}

/// Whether the configuration enables a variant.
pub open spec fn enabled(cfg: DispatchConfig, k: VariantKind) -> bool {
    match k {
        VariantKind::ApiGatewayV1 => cfg.api_gateway_v1,
        VariantKind::ApiGatewayV2 => cfg.api_gateway_v2,
        VariantKind::Alb => cfg.alb,
        VariantKind::WebSocket => cfg.web_socket,
    }
}

/// A variant's place in the fixed priority order: lower is tried first.
pub open spec fn priority_index(k: VariantKind) -> int {
    match k {
        VariantKind::ApiGatewayV1 => 0,
        VariantKind::ApiGatewayV2 => 1,
        VariantKind::Alb => 2,
        VariantKind::WebSocket => 3,
    }
}

/// A variant's structural fingerprint: the presence and shape facts that
/// select it, reading key paths only, never values.
pub open spec fn fingerprint(k: VariantKind, m: JsonModel) -> bool {
    match k {
        VariantKind::ApiGatewayV1 => tree_get_object(m, "requestContext"@) matches Some(rc)
            && tree_get(rc, "http"@) is None && tree_has_key(m, "httpMethod"@),
        VariantKind::ApiGatewayV2 => tree_get_object(m, "requestContext"@) matches Some(rc)
            && tree_get(rc, "http"@) is Some,
        VariantKind::Alb => tree_get_object(m, "requestContext"@) matches Some(rc) && tree_get(
            rc,
            "elb"@,
        ) is Some,
        VariantKind::WebSocket => tree_has_key(m, "connectedAt"@),
    }
}

/// The catalog a configuration compiles: the enabled variants, in priority
/// order.
pub open spec fn spec_catalog(cfg: DispatchConfig) -> Seq<VariantKind> {
    (if cfg.api_gateway_v1 {
        seq![VariantKind::ApiGatewayV1]
    } else {
        Seq::empty()
    }) + (if cfg.api_gateway_v2 {
        seq![VariantKind::ApiGatewayV2]
    } else {
        Seq::empty()
    }) + (if cfg.alb {
        seq![VariantKind::Alb]
    } else {
        Seq::empty()
    }) + (if cfg.web_socket {
        seq![VariantKind::WebSocket]
    } else {
        Seq::empty()
    })
}

/// The first variant of the list whose fingerprint holds of the tree.
pub open spec fn first_match(list: Seq<VariantKind>, m: JsonModel) -> Option<VariantKind>
    decreases list.len(),
{
    if list.len() == 0 {
        None
    } else if fingerprint(list[0], m) {
        Some(list[0])
    } else {
        first_match(list.drop_first(), m)
    }
}

/// The variant a configuration selects for a tree.
pub open spec fn selected(cfg: DispatchConfig, m: JsonModel) -> Option<VariantKind> {
    first_match(spec_catalog(cfg), m)
}

/// Whether a variant's fingerprint holds of the tree.
pub fn matches_fingerprint(t: &JsonValue, k: VariantKind) -> (r: bool)
    ensures
        r == fingerprint(k, t.deep_view()),
{
    match k {
        VariantKind::ApiGatewayV1 => match t.get_object("requestContext") {
            Some(rc) => !rc.has_key("http") && t.has_key("httpMethod"),
            None => false,
        },
        VariantKind::ApiGatewayV2 => match t.get_object("requestContext") {
            Some(rc) => rc.has_key("http"),
            None => false,
        },
        VariantKind::Alb => match t.get_object("requestContext") {
            Some(rc) => rc.has_key("elb"),
            None => false,
        },
        VariantKind::WebSocket => t.has_key("connectedAt"),
    }
}

/// The catalog as a value: the enabled variants in priority order.
pub fn priority_catalog(cfg: DispatchConfig) -> (r: Vec<VariantKind>)
    ensures
        r@ == spec_catalog(cfg),
{
    let mut list: Vec<VariantKind> = Vec::new();
    if cfg.api_gateway_v1 {
        list.push(VariantKind::ApiGatewayV1);
    }
    if cfg.api_gateway_v2 {
        list.push(VariantKind::ApiGatewayV2);
    }
    if cfg.alb {
        list.push(VariantKind::Alb);
    }
    if cfg.web_socket {
        list.push(VariantKind::WebSocket);
    }
    proof {
        assert(list@ =~= spec_catalog(cfg));
    }
    list
}

/// The outcome of a dispatch: exactly one decoded variant, or the original
/// tree passed through unchanged.
#[derive(Debug, PartialEq, Eq)]
pub enum ResolvedEvent {
    ApiGatewayV1(ApiGatewayProxyRequest),
    ApiGatewayV2(ApiGatewayV2httpRequest),
    Alb(AlbTargetGroupRequest),
    WebSocket(ApiGatewayWebsocketProxyRequest),
    PassThrough(JsonValue),
}

#[verifier::ext_equal]
pub enum ResolvedEventModel {
    ApiGatewayV1(ApiGatewayProxyRequestModel),
    ApiGatewayV2(ApiGatewayV2httpRequestModel),
    Alb(AlbTargetGroupRequestModel),
    WebSocket(ApiGatewayWebsocketProxyRequestModel),
    PassThrough(JsonModel),
}

impl DeepView for ResolvedEvent {
    type V = ResolvedEventModel;

    open spec fn deep_view(&self) -> ResolvedEventModel {
        match self {
            ResolvedEvent::ApiGatewayV1(q) => ResolvedEventModel::ApiGatewayV1(q.deep_view()),
            ResolvedEvent::ApiGatewayV2(q) => ResolvedEventModel::ApiGatewayV2(q.deep_view()),
            ResolvedEvent::Alb(q) => ResolvedEventModel::Alb(q.deep_view()),
            ResolvedEvent::WebSocket(q) => ResolvedEventModel::WebSocket(q.deep_view()),
            ResolvedEvent::PassThrough(t) => ResolvedEventModel::PassThrough(t.deep_view()),
        }
    }
}

/// Why a dispatch failed.
///
/// `ParseError` reports malformed bytes; `UnrecognizedShape` reports a tree
/// that no configured variant matched, with passthrough disabled;
/// `VariantDecode` reports a tree that matched the named variant whose
/// typed decode then failed.
#[derive(Debug, Clone, Copy, PartialEq, Eq, Structural)]
pub enum DiscriminationError {
    ParseError,
    UnrecognizedShape,
    VariantDecode(VariantKind),
}

impl DiscriminationError {
    /// A fixed diagnostic line. The unrecognized-shape text never names the
    /// services that were probed, so it is stable across configurations.
    pub fn message(&self) -> (m: &'static str)
        ensures
            m@ == error_message(*self),
    {
        match self {
            DiscriminationError::ParseError => "the payload is not a well-formed JSON document",
            DiscriminationError::UnrecognizedShape => "the payload matches none of the configured event shapes",
            DiscriminationError::VariantDecode(_) => "the payload matches an event shape but its fields do not conform",
        }
    }
}

/// The diagnostic text of each failure.
pub open spec fn error_message(e: DiscriminationError) -> Seq<char> {
    match e {
        DiscriminationError::ParseError => "the payload is not a well-formed JSON document"@,
        DiscriminationError::UnrecognizedShape => "the payload matches none of the configured event shapes"@,
        DiscriminationError::VariantDecode(_) => "the payload matches an event shape but its fields do not conform"@,
    }
}

/// The typed value a variant decodes from a tree, or `None` when the tree's
/// fields do not conform to that variant.
pub open spec fn variant_decode(k: VariantKind, m: JsonModel) -> Option<ResolvedEventModel> {
    match k {
        VariantKind::ApiGatewayV1 => match rest_request_of(m) {
            Some(q) => Some(ResolvedEventModel::ApiGatewayV1(q)),
            None => None,
        },
        VariantKind::ApiGatewayV2 => match v2_request_of(m) {
            Some(q) => Some(ResolvedEventModel::ApiGatewayV2(q)),
            None => None,
        },
        VariantKind::Alb => match alb_request_of(m) {
            Some(q) => Some(ResolvedEventModel::Alb(q)),
            None => None,
        },
        VariantKind::WebSocket => match ws_request_of(m) {
            Some(q) => Some(ResolvedEventModel::WebSocket(q)),
            None => None,
        },
    }
}

fn decode_variant(k: VariantKind, t: &JsonValue) -> (r: Option<ResolvedEvent>)
    ensures
        match variant_decode(k, t.deep_view()) {
            Some(e) => r matches Some(v) && v.deep_view() == e,
            None => r is None,
        },
{
    match k {
        VariantKind::ApiGatewayV1 => match ApiGatewayProxyRequest::decode(t) {
            Some(q) => Some(ResolvedEvent::ApiGatewayV1(q)),
            None => None,
        },
        VariantKind::ApiGatewayV2 => match ApiGatewayV2httpRequest::decode(t) {
            Some(q) => Some(ResolvedEvent::ApiGatewayV2(q)),
            None => None,
        },
        VariantKind::Alb => match AlbTargetGroupRequest::decode(t) {
            Some(q) => Some(ResolvedEvent::Alb(q)),
            None => None,
        },
        VariantKind::WebSocket => match ApiGatewayWebsocketProxyRequest::decode(t) {
            Some(q) => Some(ResolvedEvent::WebSocket(q)),
            None => None,
        },
    }
}

/// What a dispatch returns for a tree: the first matching variant's decode,
/// the passthrough, or the failure.
pub open spec fn dispatch_spec(cfg: DispatchConfig, m: JsonModel) -> Result<
    ResolvedEventModel,
    DiscriminationError,
> {
    match selected(cfg, m) {
        Some(k) => match variant_decode(k, m) {
            Some(e) => Ok(e),
            None => Err(DiscriminationError::VariantDecode(k)),
        },
        None => if cfg.pass_through {
            Ok(ResolvedEventModel::PassThrough(m))
        } else {
            Err(DiscriminationError::UnrecognizedShape)
        },
    }
}

/// Select a variant for the tree and decode it from that same tree.
///
/// The first variant of the catalog whose fingerprint holds is decoded; a
/// tree no variant matches passes through unchanged when the configuration
/// allows it, and is otherwise reported as an unrecognized shape.
pub fn dispatch(t: JsonValue, cfg: DispatchConfig) -> (r: Result<
    ResolvedEvent,
    DiscriminationError,
>)
    ensures
        match r {
            Ok(e) => dispatch_spec(cfg, t.deep_view()) == Ok::<ResolvedEventModel, DiscriminationError>(e.deep_view()),
            Err(er) => dispatch_spec(cfg, t.deep_view()) == Err::<ResolvedEventModel, DiscriminationError>(er),
        },
{
    let list = priority_catalog(cfg);
    let mut i: usize = 0;
    proof {
        assert(list@.skip(0) =~= list@);
    }
    while i < list.len()
        invariant
            0 <= i <= list@.len(),
            list@ == spec_catalog(cfg),
            first_match(list@.skip(i as int), t.deep_view()) == first_match(
                list@,
                t.deep_view(),
            ),
            forall|j: int| 0 <= j < i ==> !fingerprint(list@[j], t.deep_view()),
        decreases list@.len() - i,
    {
        if matches_fingerprint(&t, list[i]) {
            proof {
                assert(list@.skip(i as int)[0] == list@[i as int]);
                assert(first_match(list@.skip(i as int), t.deep_view()) == Some(
                    list@[i as int],
                ));
            }
            let k = list[i];
            return match decode_variant(k, &t) {
                Some(e) => Ok(e),
                None => Err(DiscriminationError::VariantDecode(k)),
            };
        }
        proof {
            assert(list@.skip(i as int).drop_first() =~= list@.skip(i as int + 1));
            assert(list@.skip(i as int)[0] == list@[i as int]);
        }
        i = i + 1;
    }
    proof {
        assert(list@.skip(i as int) =~= Seq::<VariantKind>::empty());
    }
    if cfg.pass_through {
        Ok(ResolvedEvent::PassThrough(t))
    } else {
        Err(DiscriminationError::UnrecognizedShape)
    }
}

/// What dispatching raw bytes returns: a parse failure, or the dispatch of
/// the parsed tree.
pub open spec fn dispatch_slice_spec(cfg: DispatchConfig, bytes: Seq<u8>) -> Result<
    ResolvedEventModel,
    DiscriminationError,
> {
    match parsed_doc(bytes) {
        Some(m) => dispatch_spec(cfg, m),
        None => Err(DiscriminationError::ParseError),
    }
}

/// Parse one JSON document from the bytes and dispatch the tree.
pub fn dispatch_slice(data: &[u8], cfg: DispatchConfig) -> (r: Result<
    ResolvedEvent,
    DiscriminationError,
>)
    ensures
        match r {
            Ok(e) => dispatch_slice_spec(cfg, data@) == Ok::<ResolvedEventModel, DiscriminationError>(e.deep_view()),
            Err(er) => dispatch_slice_spec(cfg, data@) == Err::<ResolvedEventModel, DiscriminationError>(er),
        },
{
    match parse_bytes(data) {
        Some(t) => dispatch(t, cfg),
        None => Err(DiscriminationError::ParseError),
    }
}

impl ResolvedEvent {
    /// Encode this value back to a tree equivalent to what it decoded from;
    /// a passthrough returns its tree unchanged.
    pub fn encode(&self) -> (r: JsonValue)
        ensures
            r.deep_view() == resolved_tree(self.deep_view()),
    {
        match self {
            ResolvedEvent::ApiGatewayV1(q) => q.encode(),
            ResolvedEvent::ApiGatewayV2(q) => q.encode(),
            ResolvedEvent::Alb(q) => q.encode(),
            ResolvedEvent::WebSocket(q) => q.encode(),
            ResolvedEvent::PassThrough(t) => t.deep_copy(),
        }
    }

    /// Print the encoding of this value as one JSON document.
    pub fn to_json_bytes(&self) -> (r: Vec<u8>)
        ensures
            r@ == crate::trusted::printed_doc(resolved_tree(self.deep_view())),
    {
        let t = self.encode();
        write_json(&t)
    }
}

/// The tree a resolved value encodes to.
pub open spec fn resolved_tree(e: ResolvedEventModel) -> JsonModel {
    match e {
        ResolvedEventModel::ApiGatewayV1(q) => crate::gateway::rest_request_tree(q),
        ResolvedEventModel::ApiGatewayV2(q) => crate::gateway::v2_request_tree(q),
        ResolvedEventModel::Alb(q) => crate::gateway::alb_request_tree(q),
        ResolvedEventModel::WebSocket(q) => crate::gateway::ws_request_tree(q),
        ResolvedEventModel::PassThrough(m) => m,
    }
}

} // verus!
