//! The selection and fallback laws of the dispatcher.
//!
//! These lemmas state, over the dispatcher's own specification, how a
//! variant is chosen: the first enabled variant whose fingerprint holds
//! wins, ties are broken by the fixed priority order alone, an unmatched
//! tree passes through unchanged or is reported, and the tree a typed value
//! encodes to dispatches back to that same value.

use vstd::prelude::*;

use crate::dispatch::{
    dispatch_spec, enabled, fingerprint, first_match, priority_index, selected, spec_catalog,
    variant_decode, DiscriminationError, DispatchConfig, ResolvedEventModel, VariantKind,
};
use crate::gateway::{
    alb_request_tree, lemma_alb_round_trip, lemma_rest_round_trip, lemma_v2_round_trip,
    lemma_ws_round_trip, rest_request_tree, v2_request_tree, ws_request_tree,
    AlbTargetGroupRequestModel, ApiGatewayProxyRequestModel, ApiGatewayV2httpRequestModel,
    ApiGatewayWebsocketProxyRequestModel,
};
use crate::tree::{tree_get, tree_get_object, tree_has_key, JsonModel};

verus! {

proof fn lemma_first_match_append(a: Seq<VariantKind>, b: Seq<VariantKind>, m: JsonModel)
    ensures
        first_match(a + b, m) == (match first_match(a, m) {
            Some(k) => Some(k),
            None => first_match(b, m),
        }),
    decreases a.len(),
{
    if a.len() == 0 {
        assert(a + b =~= b);
    } else {
        assert((a + b)[0] == a[0]);
        assert((a + b).drop_first() =~= a.drop_first() + b);
        lemma_first_match_append(a.drop_first(), b, m);
    }
}

proof fn lemma_first_match_single(k: VariantKind, m: JsonModel)
    ensures
        first_match(seq![k], m) == (if fingerprint(k, m) {
            Some(k)
        } else {
            None::<VariantKind>
        }),
{
    assert(seq![k].drop_first() =~= Seq::<VariantKind>::empty());
    reveal_with_fuel(first_match, 3);
}

/// The selection in closed form: the first enabled variant, in priority
/// order, whose fingerprint holds.
pub proof fn lemma_selected_characterization(cfg: DispatchConfig, m: JsonModel)
    ensures
        selected(cfg, m) == (if cfg.api_gateway_v1 && fingerprint(VariantKind::ApiGatewayV1, m) {
            Some(VariantKind::ApiGatewayV1)
        } else if cfg.api_gateway_v2 && fingerprint(VariantKind::ApiGatewayV2, m) {
            Some(VariantKind::ApiGatewayV2)
        } else if cfg.alb && fingerprint(VariantKind::Alb, m) {
            Some(VariantKind::Alb)
        } else if cfg.web_socket && fingerprint(VariantKind::WebSocket, m) {
            Some(VariantKind::WebSocket)
        } else {
            None::<VariantKind>
        }),
{
    let s1 = if cfg.api_gateway_v1 {
        seq![VariantKind::ApiGatewayV1]
    } else {
        Seq::<VariantKind>::empty()
    };
    let s2 = if cfg.api_gateway_v2 {
        seq![VariantKind::ApiGatewayV2]
    } else {
        Seq::<VariantKind>::empty()
    };
    let s3 = if cfg.alb {
        seq![VariantKind::Alb]
    } else {
        Seq::<VariantKind>::empty()
    };
    let s4 = if cfg.web_socket {
        seq![VariantKind::WebSocket]
    } else {
        Seq::<VariantKind>::empty()
    };
    assert(spec_catalog(cfg) == s1 + s2 + s3 + s4);
    lemma_first_match_append(s1 + s2 + s3, s4, m);
    lemma_first_match_append(s1 + s2, s3, m);
    lemma_first_match_append(s1, s2, m);
    lemma_first_match_single(VariantKind::ApiGatewayV1, m);
    lemma_first_match_single(VariantKind::ApiGatewayV2, m);
    lemma_first_match_single(VariantKind::Alb, m);
    lemma_first_match_single(VariantKind::WebSocket, m);
    reveal_with_fuel(first_match, 1);
    assert(first_match(Seq::<VariantKind>::empty(), m) is None);
}

/// Law: a tree that matches an enabled variant's fingerprint, and no
/// enabled variant's of higher priority, dispatches to that variant: its
/// decode when the fields conform, and the variant-decode failure named
/// after it when they do not.
pub proof fn lemma_exact_match_dispatch(cfg: DispatchConfig, m: JsonModel, k: VariantKind)
    requires
        enabled(cfg, k),
        fingerprint(k, m),
        forall|j: VariantKind|
            priority_index(j) < priority_index(k) ==> !(enabled(cfg, j) && fingerprint(j, m)),
    ensures
        selected(cfg, m) == Some(k),
        variant_decode(k, m) matches Some(e) ==> dispatch_spec(cfg, m) == Ok::<
            ResolvedEventModel,
            DiscriminationError,
        >(e),
        variant_decode(k, m) is None ==> dispatch_spec(cfg, m) == Err::<
            ResolvedEventModel,
            DiscriminationError,
        >(DiscriminationError::VariantDecode(k)),
{
    lemma_selected_characterization(cfg, m);
    if priority_index(VariantKind::ApiGatewayV1) < priority_index(k) {
        assert(!(enabled(cfg, VariantKind::ApiGatewayV1) && fingerprint(
            VariantKind::ApiGatewayV1,
            m,
        )));
    }
    if priority_index(VariantKind::ApiGatewayV2) < priority_index(k) {
        assert(!(enabled(cfg, VariantKind::ApiGatewayV2) && fingerprint(
            VariantKind::ApiGatewayV2,
            m,
        )));
    }
    if priority_index(VariantKind::Alb) < priority_index(k) {
        assert(!(enabled(cfg, VariantKind::Alb) && fingerprint(VariantKind::Alb, m)));
    }
}

/// Law: when two enabled variants' fingerprints both hold of one tree, the
/// one earlier in the priority order is selected, never the later; the
/// selection is a function of the tree and the configuration alone, so
/// repeated dispatches agree.
pub proof fn lemma_priority_tie_break(
    cfg: DispatchConfig,
    m: JsonModel,
    k1: VariantKind,
    k2: VariantKind,
)
    requires
        enabled(cfg, k1),
        fingerprint(k1, m),
        enabled(cfg, k2),
        fingerprint(k2, m),
        priority_index(k1) < priority_index(k2),
    ensures
        selected(cfg, m) is Some,
        selected(cfg, m) != Some(k2),
        priority_index(selected(cfg, m)->0) <= priority_index(k1),
{
    lemma_selected_characterization(cfg, m);
}

/// Law: a tree that no enabled variant's fingerprint matches passes
/// through unchanged when passthrough is enabled, and is reported as an
/// unrecognized shape, with no partial value, when it is not.
pub proof fn lemma_unmatched_fallback(cfg: DispatchConfig, m: JsonModel)
    requires
        forall|k: VariantKind| !(enabled(cfg, k) && #[trigger] fingerprint(k, m)),
    ensures
        cfg.pass_through ==> dispatch_spec(cfg, m) == Ok::<
            ResolvedEventModel,
            DiscriminationError,
        >(ResolvedEventModel::PassThrough(m)),
        !cfg.pass_through ==> dispatch_spec(cfg, m) == Err::<
            ResolvedEventModel,
            DiscriminationError,
        >(DiscriminationError::UnrecognizedShape),
{
    lemma_selected_characterization(cfg, m);
    assert(!(enabled(cfg, VariantKind::ApiGatewayV1) && fingerprint(VariantKind::ApiGatewayV1, m)));
    assert(!(enabled(cfg, VariantKind::ApiGatewayV2) && fingerprint(VariantKind::ApiGatewayV2, m)));
    assert(!(enabled(cfg, VariantKind::Alb) && fingerprint(VariantKind::Alb, m)));
    assert(!(enabled(cfg, VariantKind::WebSocket) && fingerprint(VariantKind::WebSocket, m)));
}


/// Law: the tree a REST-style value encodes to dispatches back to exactly
/// that value whenever the REST-style variant is enabled.
pub proof fn lemma_rest_dispatch_round_trip(cfg: DispatchConfig, q: ApiGatewayProxyRequestModel)
    requires
        cfg.api_gateway_v1,
    ensures
        dispatch_spec(cfg, rest_request_tree(q)) == Ok::<ResolvedEventModel, DiscriminationError>(
            ResolvedEventModel::ApiGatewayV1(q),
        ),
{
    reveal_strlit("httpMethod");
    reveal_strlit("path");
    reveal_strlit("requestContext");
    reveal_strlit("accountId");
    reveal_strlit("stage");
    reveal_strlit("http");
    reveal_with_fuel(crate::tree::entries_get, 5);
    assert("httpMethod"@.len() == 10);
    assert("path"@.len() == 4);
    assert("requestContext"@.len() == 14);
    assert("accountId"@.len() == 9);
    assert("stage"@.len() == 5);
    assert("http"@.len() == 4);
    assert("path"@[0] == 'p' && "http"@[0] == 'h');
    let m = rest_request_tree(q);
    let es = m->Obj_0;
    assert(es.drop_first() =~= seq![es[1], es[2]]);
    assert(es.drop_first().drop_first() =~= seq![es[2]]);
    assert(tree_get(m, "requestContext"@) == Some(
        crate::gateway::rest_context_tree(q.request_context),
    ));
    assert(tree_get_object(m, "requestContext"@) == Some(
        crate::gateway::rest_context_tree(q.request_context),
    ));
    let cs = crate::gateway::rest_context_tree(q.request_context)->Obj_0;
    assert(cs.drop_first() =~= seq![cs[1]]);
    assert(tree_get(crate::gateway::rest_context_tree(q.request_context), "http"@) is None);
    assert(tree_has_key(m, "httpMethod"@));
    assert(fingerprint(VariantKind::ApiGatewayV1, m));
    lemma_rest_round_trip(q);
    lemma_exact_match_dispatch(cfg, m, VariantKind::ApiGatewayV1);
}

/// Law: the tree an HTTP-style value encodes to dispatches back to exactly
/// that value whenever the HTTP-style variant is enabled.
pub proof fn lemma_v2_dispatch_round_trip(cfg: DispatchConfig, q: ApiGatewayV2httpRequestModel)
    requires
        cfg.api_gateway_v2,
    ensures
        dispatch_spec(cfg, v2_request_tree(q)) == Ok::<ResolvedEventModel, DiscriminationError>(
            ResolvedEventModel::ApiGatewayV2(q),
        ),
{
    reveal_strlit("routeKey");
    reveal_strlit("requestContext");
    reveal_strlit("accountId");
    reveal_strlit("http");
    reveal_strlit("httpMethod");
    reveal_with_fuel(crate::tree::entries_get, 4);
    assert("routeKey"@.len() == 8);
    assert("requestContext"@.len() == 14);
    assert("accountId"@.len() == 9);
    assert("http"@.len() == 4);
    assert("httpMethod"@.len() == 10);
    let m = v2_request_tree(q);
    let es = m->Obj_0;
    assert(es.drop_first() =~= seq![es[1]]);
    assert(tree_get(m, "requestContext"@) == Some(
        crate::gateway::v2_context_tree(q.request_context),
    ));
    assert(tree_get_object(m, "requestContext"@) == Some(
        crate::gateway::v2_context_tree(q.request_context),
    ));
    let cs = crate::gateway::v2_context_tree(q.request_context)->Obj_0;
    assert(cs.drop_first() =~= seq![cs[1]]);
    assert(tree_get(crate::gateway::v2_context_tree(q.request_context), "http"@) == Some(
        crate::gateway::v2_http_tree(q.request_context.http),
    ));
    assert(tree_get(m, "httpMethod"@) is None);
    assert(fingerprint(VariantKind::ApiGatewayV2, m));
    assert(!fingerprint(VariantKind::ApiGatewayV1, m));
    lemma_v2_round_trip(q);
    lemma_exact_match_dispatch(cfg, m, VariantKind::ApiGatewayV2);
}

/// Law: the tree a load-balancer value encodes to dispatches back to
/// exactly that value whenever the load-balancer variant is enabled.
pub proof fn lemma_alb_dispatch_round_trip(cfg: DispatchConfig, q: AlbTargetGroupRequestModel)
    requires
        cfg.alb,
    ensures
        dispatch_spec(cfg, alb_request_tree(q)) == Ok::<ResolvedEventModel, DiscriminationError>(
            ResolvedEventModel::Alb(q),
        ),
{
    reveal_strlit("path");
    reveal_strlit("requestContext");
    reveal_strlit("elb");
    reveal_strlit("http");
    reveal_strlit("httpMethod");
    reveal_with_fuel(crate::tree::entries_get, 4);
    assert("path"@.len() == 4);
    assert("requestContext"@.len() == 14);
    assert("elb"@.len() == 3);
    assert("http"@.len() == 4);
    assert("httpMethod"@.len() == 10);
    let m = alb_request_tree(q);
    let es = m->Obj_0;
    assert(es.drop_first() =~= seq![es[1]]);
    assert(tree_get(m, "requestContext"@) == Some(
        crate::gateway::alb_context_tree(q.request_context),
    ));
    assert(tree_get_object(m, "requestContext"@) == Some(
        crate::gateway::alb_context_tree(q.request_context),
    ));
    assert(tree_get(crate::gateway::alb_context_tree(q.request_context), "elb"@) == Some(
        crate::gateway::elb_tree(q.request_context.elb),
    ));
    assert(tree_get(crate::gateway::alb_context_tree(q.request_context), "http"@) is None);
    assert(tree_get(m, "httpMethod"@) is None);
    assert(fingerprint(VariantKind::Alb, m));
    assert(!fingerprint(VariantKind::ApiGatewayV1, m));
    assert(!fingerprint(VariantKind::ApiGatewayV2, m));
    lemma_alb_round_trip(q);
    lemma_exact_match_dispatch(cfg, m, VariantKind::Alb);
}

/// Law: the tree a WebSocket value encodes to dispatches back to exactly
/// that value whenever the WebSocket variant is enabled.
pub proof fn lemma_ws_dispatch_round_trip(
    cfg: DispatchConfig,
    q: ApiGatewayWebsocketProxyRequestModel,
)
    requires
        cfg.web_socket,
    ensures
        dispatch_spec(cfg, ws_request_tree(q)) == Ok::<ResolvedEventModel, DiscriminationError>(
            ResolvedEventModel::WebSocket(q),
        ),
{
    reveal_strlit("connectedAt");
    reveal_strlit("requestContext");
    reveal_strlit("eventType");
    reveal_strlit("connectionId");
    reveal_strlit("elb");
    reveal_strlit("http");
    reveal_strlit("httpMethod");
    reveal_with_fuel(crate::tree::entries_get, 4);
    assert("connectedAt"@.len() == 11);
    assert("requestContext"@.len() == 14);
    assert("eventType"@.len() == 9);
    assert("connectionId"@.len() == 12);
    assert("elb"@.len() == 3);
    assert("http"@.len() == 4);
    assert("httpMethod"@.len() == 10);
    let m = ws_request_tree(q);
    let es = m->Obj_0;
    assert(es.drop_first() =~= seq![es[1]]);
    assert(tree_get(m, "connectedAt"@) == Some(crate::tree::JsonModel::Int(q.connected_at)));
    assert(tree_get(m, "requestContext"@) == Some(
        crate::gateway::ws_context_tree(q.request_context),
    ));
    assert(tree_get_object(m, "requestContext"@) == Some(
        crate::gateway::ws_context_tree(q.request_context),
    ));
    let cs = crate::gateway::ws_context_tree(q.request_context)->Obj_0;
    assert(cs.drop_first() =~= seq![cs[1]]);
    assert(tree_get(crate::gateway::ws_context_tree(q.request_context), "http"@) is None);
    assert(tree_get(crate::gateway::ws_context_tree(q.request_context), "elb"@) is None);
    assert(tree_get(m, "httpMethod"@) is None);
    assert(fingerprint(VariantKind::WebSocket, m));
    assert(!fingerprint(VariantKind::ApiGatewayV1, m));
    assert(!fingerprint(VariantKind::ApiGatewayV2, m));
    assert(!fingerprint(VariantKind::Alb, m));
    lemma_ws_round_trip(q);
    lemma_exact_match_dispatch(cfg, m, VariantKind::WebSocket);
}

} // verus!
