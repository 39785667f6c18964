//! The typed shapes of the gateway, load-balancer and WebSocket payloads.
//!
//! Only the fields this library works with are carried; the full wire
//! contracts are owned by the upstream services. Each shape has a decode
//! from the generic tree and an encode back to it, and decoding what was
//! encoded gives back an equal value.

use vstd::prelude::*;

use crate::tree::{
    opt_str_field, req_int_field, req_str_field, tree_get, JsonModel, JsonValue,
};

verus! {

/// The JSON value of an optional string: the string, or null when unset.
pub open spec fn opt_str_json(v: Option<Seq<char>>) -> JsonModel {
    match v {
        Some(s) => JsonModel::Str(s),
        None => JsonModel::Null,
    }
}

pub(crate) fn opt_str_value(v: &Option<String>) -> (r: JsonValue)
    ensures
        r.deep_view() == opt_str_json(v.deep_view()),
{
    match v {
        Some(s) => JsonValue::Str(s.clone()),
        None => JsonValue::Null,
    }
}

/// The request context of a REST-style gateway payload.
#[derive(Debug, Clone, PartialEq, Eq)]
pub struct ApiGatewayProxyRequestContext {
    pub account_id: Option<String>,
    pub stage: Option<String>,
}

#[verifier::ext_equal]
pub struct ApiGatewayProxyRequestContextModel {
    pub account_id: Option<Seq<char>>,
    pub stage: Option<Seq<char>>,
}

impl DeepView for ApiGatewayProxyRequestContext {
    type V = ApiGatewayProxyRequestContextModel;

    open spec fn deep_view(&self) -> ApiGatewayProxyRequestContextModel {
        ApiGatewayProxyRequestContextModel {
            account_id: self.account_id.deep_view(),
            stage: self.stage.deep_view(),
        }
    }
}

/// A REST-style gateway payload.
#[derive(Debug, Clone, PartialEq, Eq)]
pub struct ApiGatewayProxyRequest {
    pub http_method: String,
    pub path: Option<String>,
    pub request_context: ApiGatewayProxyRequestContext,
}

#[verifier::ext_equal]
pub struct ApiGatewayProxyRequestModel {
    pub http_method: Seq<char>,
    pub path: Option<Seq<char>>,
    pub request_context: ApiGatewayProxyRequestContextModel,
}

impl DeepView for ApiGatewayProxyRequest {
    type V = ApiGatewayProxyRequestModel;

    open spec fn deep_view(&self) -> ApiGatewayProxyRequestModel {
        ApiGatewayProxyRequestModel {
            http_method: self.http_method@,
            path: self.path.deep_view(),
            request_context: self.request_context.deep_view(),
        }
    }
}

/// The decoded REST context of a `requestContext` member: defaults when the
/// member is absent, a shape error when it is not an object.
pub open spec fn rest_context_of(c: Option<JsonModel>) -> Option<
    ApiGatewayProxyRequestContextModel,
> {
    match c {
        None => Some(
            ApiGatewayProxyRequestContextModel { account_id: None, stage: None },
        ),
        Some(cm) => if !(cm is Obj) {
            None
        } else {
            match (opt_str_field(cm, "accountId"@), opt_str_field(cm, "stage"@)) {
                (Some(a), Some(s)) => Some(
                    ApiGatewayProxyRequestContextModel { account_id: a, stage: s },
                ),
                _ => None,
            }
        },
    }
}

/// The REST-style value a tree decodes to, or `None` on a shape error.
pub open spec fn rest_request_of(m: JsonModel) -> Option<ApiGatewayProxyRequestModel> {
    if !(m is Obj) {
        None
    } else {
        match (req_str_field(m, "httpMethod"@), opt_str_field(m, "path"@), rest_context_of(
            tree_get(m, "requestContext"@),
        )) {
            (Some(hm), Some(p), Some(rc)) => Some(
                ApiGatewayProxyRequestModel { http_method: hm, path: p, request_context: rc },
            ),
            _ => None,
        }
    }
}

/// The tree a REST-style value encodes to.
pub open spec fn rest_context_tree(c: ApiGatewayProxyRequestContextModel) -> JsonModel {
    JsonModel::Obj(
        seq![
            ("accountId"@, opt_str_json(c.account_id)),
            ("stage"@, opt_str_json(c.stage)),
        ],
    )
}

pub open spec fn rest_request_tree(q: ApiGatewayProxyRequestModel) -> JsonModel {
    JsonModel::Obj(
        seq![
            ("httpMethod"@, JsonModel::Str(q.http_method)),
            ("path"@, opt_str_json(q.path)),
            ("requestContext"@, rest_context_tree(q.request_context)),
        ],
    )
}

impl ApiGatewayProxyRequest {
    /// Decode a REST-style payload from the tree.
    pub fn decode(t: &JsonValue) -> (r: Option<ApiGatewayProxyRequest>)
        ensures
            match rest_request_of(t.deep_view()) {
                Some(q) => r matches Some(v) && v.deep_view() == q,
                None => r is None,
            },
    {
        match t {
            JsonValue::Obj(_) => {},
            _ => {
                return None;
            },
        }
        let http_method = match t.req_string_member("httpMethod") {
            Some(s) => s,
            None => {
                return None;
            },
        };
        let path = match t.opt_string_member("path") {
            Some(p) => p,
            None => {
                return None;
            },
        };
        let request_context = match t.get_key("requestContext") {
            None => ApiGatewayProxyRequestContext { account_id: None, stage: None },
            Some(c) => {
                match c {
                    JsonValue::Obj(_) => {},
                    _ => {
                        return None;
                    },
                }
                let account_id = match c.opt_string_member("accountId") {
                    Some(a) => a,
                    None => {
                        return None;
                    },
                };
                let stage = match c.opt_string_member("stage") {
                    Some(s) => s,
                    None => {
                        return None;
                    },
                };
                ApiGatewayProxyRequestContext { account_id, stage }
            },
        };
        Some(ApiGatewayProxyRequest { http_method, path, request_context })
    }

    /// Encode this value back to a tree.
    pub fn encode(&self) -> (r: JsonValue)
        ensures
            r.deep_view() == rest_request_tree(self.deep_view()),
    {
        let mut rc: Vec<(String, JsonValue)> = Vec::new();
        rc.push((String::from_str("accountId"), opt_str_value(&self.request_context.account_id)));
        rc.push((String::from_str("stage"), opt_str_value(&self.request_context.stage)));
        let mut top: Vec<(String, JsonValue)> = Vec::new();
        top.push((String::from_str("httpMethod"), JsonValue::Str(self.http_method.clone())));
        top.push((String::from_str("path"), opt_str_value(&self.path)));
        top.push((String::from_str("requestContext"), JsonValue::Obj(rc)));
        let r = JsonValue::Obj(top);
        proof {
            crate::tree::lemma_entries_view(top@);
            crate::tree::lemma_entries_view(top@[2].1->Obj_0@);
            assert(top@[2].1.deep_view()->Obj_0 =~= rest_context_tree(
                self.request_context.deep_view(),
            )->Obj_0);
            assert(top@[2].1.deep_view() == rest_context_tree(self.request_context.deep_view()));
            assert(r.deep_view()->Obj_0 =~= rest_request_tree(self.deep_view())->Obj_0);
        }
        r
    }
}

/// The `http` description inside an HTTP-style gateway request context.
#[derive(Debug, Clone, PartialEq, Eq)]
pub struct ApiGatewayV2httpRequestContextHttpDescription {
    pub method: Option<String>,
    pub path: Option<String>,
}

#[verifier::ext_equal]
pub struct ApiGatewayV2httpRequestContextHttpDescriptionModel {
    pub method: Option<Seq<char>>,
    pub path: Option<Seq<char>>,
}

impl DeepView for ApiGatewayV2httpRequestContextHttpDescription {
    type V = ApiGatewayV2httpRequestContextHttpDescriptionModel;

    open spec fn deep_view(&self) -> ApiGatewayV2httpRequestContextHttpDescriptionModel {
        ApiGatewayV2httpRequestContextHttpDescriptionModel {
            method: self.method.deep_view(),
            path: self.path.deep_view(),
        }
    }
}

/// The request context of an HTTP-style gateway payload.
#[derive(Debug, Clone, PartialEq, Eq)]
pub struct ApiGatewayV2httpRequestContext {
    pub account_id: Option<String>,
    pub http: ApiGatewayV2httpRequestContextHttpDescription,
}

#[verifier::ext_equal]
pub struct ApiGatewayV2httpRequestContextModel {
    pub account_id: Option<Seq<char>>,
    pub http: ApiGatewayV2httpRequestContextHttpDescriptionModel,
}

impl DeepView for ApiGatewayV2httpRequestContext {
    type V = ApiGatewayV2httpRequestContextModel;

    open spec fn deep_view(&self) -> ApiGatewayV2httpRequestContextModel {
        ApiGatewayV2httpRequestContextModel {
            account_id: self.account_id.deep_view(),
            http: self.http.deep_view(),
        }
    }
}

/// An HTTP-style gateway payload.
#[derive(Debug, Clone, PartialEq, Eq)]
pub struct ApiGatewayV2httpRequest {
    pub route_key: Option<String>,
    pub request_context: ApiGatewayV2httpRequestContext,
}

#[verifier::ext_equal]
pub struct ApiGatewayV2httpRequestModel {
    pub route_key: Option<Seq<char>>,
    pub request_context: ApiGatewayV2httpRequestContextModel,
}

impl DeepView for ApiGatewayV2httpRequest {
    type V = ApiGatewayV2httpRequestModel;

    open spec fn deep_view(&self) -> ApiGatewayV2httpRequestModel {
        ApiGatewayV2httpRequestModel {
            route_key: self.route_key.deep_view(),
            request_context: self.request_context.deep_view(),
        }
    }
}

pub open spec fn v2_http_of(c: Option<JsonModel>) -> Option<
    ApiGatewayV2httpRequestContextHttpDescriptionModel,
> {
    match c {
        None => Some(
            ApiGatewayV2httpRequestContextHttpDescriptionModel { method: None, path: None },
        ),
        Some(cm) => if !(cm is Obj) {
            None
        } else {
            match (opt_str_field(cm, "method"@), opt_str_field(cm, "path"@)) {
                (Some(m), Some(p)) => Some(
                    ApiGatewayV2httpRequestContextHttpDescriptionModel { method: m, path: p },
                ),
                _ => None,
            }
        },
    }
}

pub open spec fn v2_context_of(c: Option<JsonModel>) -> Option<ApiGatewayV2httpRequestContextModel> {
    match c {
        None => Some(
            ApiGatewayV2httpRequestContextModel {
                account_id: None,
                http: ApiGatewayV2httpRequestContextHttpDescriptionModel {
                    method: None,
                    path: None,
                },
            },
        ),
        Some(cm) => if !(cm is Obj) {
            None
        } else {
            match (opt_str_field(cm, "accountId"@), v2_http_of(tree_get(cm, "http"@))) {
                (Some(a), Some(h)) => Some(
                    ApiGatewayV2httpRequestContextModel { account_id: a, http: h },
                ),
                _ => None,
            }
        },
    }
}

/// The HTTP-style value a tree decodes to, or `None` on a shape error.
pub open spec fn v2_request_of(m: JsonModel) -> Option<ApiGatewayV2httpRequestModel> {
    if !(m is Obj) {
        None
    } else {
        match (opt_str_field(m, "routeKey"@), v2_context_of(tree_get(m, "requestContext"@))) {
            (Some(rk), Some(rc)) => Some(
                ApiGatewayV2httpRequestModel { route_key: rk, request_context: rc },
            ),
            _ => None,
        }
    }
}

pub open spec fn v2_http_tree(h: ApiGatewayV2httpRequestContextHttpDescriptionModel) -> JsonModel {
    JsonModel::Obj(
        seq![("method"@, opt_str_json(h.method)), ("path"@, opt_str_json(h.path))],
    )
}

pub open spec fn v2_context_tree(c: ApiGatewayV2httpRequestContextModel) -> JsonModel {
    JsonModel::Obj(
        seq![
            ("accountId"@, opt_str_json(c.account_id)),
            ("http"@, v2_http_tree(c.http)),
        ],
    )
}

/// The tree an HTTP-style value encodes to.
pub open spec fn v2_request_tree(q: ApiGatewayV2httpRequestModel) -> JsonModel {
    JsonModel::Obj(
        seq![
            ("routeKey"@, opt_str_json(q.route_key)),
            ("requestContext"@, v2_context_tree(q.request_context)),
        ],
    )
}

impl ApiGatewayV2httpRequest {
    /// Decode an HTTP-style payload from the tree.
    pub fn decode(t: &JsonValue) -> (r: Option<ApiGatewayV2httpRequest>)
        ensures
            match v2_request_of(t.deep_view()) {
                Some(q) => r matches Some(v) && v.deep_view() == q,
                None => r is None,
            },
    {
        match t {
            JsonValue::Obj(_) => {},
            _ => {
                return None;
            },
        }
        let route_key = match t.opt_string_member("routeKey") {
            Some(rk) => rk,
            None => {
                return None;
            },
        };
        let request_context = match t.get_key("requestContext") {
            None => ApiGatewayV2httpRequestContext {
                account_id: None,
                http: ApiGatewayV2httpRequestContextHttpDescription { method: None, path: None },
            },
            Some(c) => {
                match c {
                    JsonValue::Obj(_) => {},
                    _ => {
                        return None;
                    },
                }
                let account_id = match c.opt_string_member("accountId") {
                    Some(a) => a,
                    None => {
                        return None;
                    },
                };
                let http = match c.get_key("http") {
                    None => ApiGatewayV2httpRequestContextHttpDescription {
                        method: None,
                        path: None,
                    },
                    Some(h) => {
                        match h {
                            JsonValue::Obj(_) => {},
                            _ => {
                                return None;
                            },
                        }
                        let method = match h.opt_string_member("method") {
                            Some(m) => m,
                            None => {
                                return None;
                            },
                        };
                        let path = match h.opt_string_member("path") {
                            Some(p) => p,
                            None => {
                                return None;
                            },
                        };
                        ApiGatewayV2httpRequestContextHttpDescription { method, path }
                    },
                };
                ApiGatewayV2httpRequestContext { account_id, http }
            },
        };
        Some(ApiGatewayV2httpRequest { route_key, request_context })
    }

    /// Encode this value back to a tree.
    pub fn encode(&self) -> (r: JsonValue)
        ensures
            r.deep_view() == v2_request_tree(self.deep_view()),
    {
        let mut http: Vec<(String, JsonValue)> = Vec::new();
        http.push((
            String::from_str("method"),
            opt_str_value(&self.request_context.http.method),
        ));
        http.push((String::from_str("path"), opt_str_value(&self.request_context.http.path)));
        let mut rc: Vec<(String, JsonValue)> = Vec::new();
        rc.push((String::from_str("accountId"), opt_str_value(&self.request_context.account_id)));
        rc.push((String::from_str("http"), JsonValue::Obj(http)));
        let mut top: Vec<(String, JsonValue)> = Vec::new();
        top.push((String::from_str("routeKey"), opt_str_value(&self.route_key)));
        top.push((String::from_str("requestContext"), JsonValue::Obj(rc)));
        let r = JsonValue::Obj(top);
        proof {
            crate::tree::lemma_entries_view(top@);
            crate::tree::lemma_entries_view(top@[1].1->Obj_0@);
            crate::tree::lemma_entries_view(top@[1].1->Obj_0@[1].1->Obj_0@);
            assert(top@[1].1->Obj_0@[1].1.deep_view()->Obj_0 =~= v2_http_tree(
                self.request_context.http.deep_view(),
            )->Obj_0);
            assert(top@[1].1->Obj_0@[1].1.deep_view() == v2_http_tree(
                self.request_context.http.deep_view(),
            ));
            assert(top@[1].1.deep_view()->Obj_0 =~= v2_context_tree(
                self.request_context.deep_view(),
            )->Obj_0);
            assert(top@[1].1.deep_view() == v2_context_tree(self.request_context.deep_view()));
            assert(r.deep_view()->Obj_0 =~= v2_request_tree(self.deep_view())->Obj_0);
        }
        r
    }
}

/// The `elb` description inside a load-balancer request context.
#[derive(Debug, Clone, PartialEq, Eq)]
pub struct ElbContext {
    pub target_group_arn: Option<String>,
}

#[verifier::ext_equal]
pub struct ElbContextModel {
    pub target_group_arn: Option<Seq<char>>,
}

impl DeepView for ElbContext {
    type V = ElbContextModel;

    open spec fn deep_view(&self) -> ElbContextModel {
        ElbContextModel { target_group_arn: self.target_group_arn.deep_view() }
    }
}

/// The request context of a load-balancer payload.
#[derive(Debug, Clone, PartialEq, Eq)]
pub struct AlbTargetGroupRequestContext {
    pub elb: ElbContext,
}

#[verifier::ext_equal]
pub struct AlbTargetGroupRequestContextModel {
    pub elb: ElbContextModel,
}

impl DeepView for AlbTargetGroupRequestContext {
    type V = AlbTargetGroupRequestContextModel;

    open spec fn deep_view(&self) -> AlbTargetGroupRequestContextModel {
        AlbTargetGroupRequestContextModel { elb: self.elb.deep_view() }
    }
}

/// A load-balancer payload.
#[derive(Debug, Clone, PartialEq, Eq)]
pub struct AlbTargetGroupRequest {
    pub path: Option<String>,
    pub request_context: AlbTargetGroupRequestContext,
}

#[verifier::ext_equal]
pub struct AlbTargetGroupRequestModel {
    pub path: Option<Seq<char>>,
    pub request_context: AlbTargetGroupRequestContextModel,
}

impl DeepView for AlbTargetGroupRequest {
    type V = AlbTargetGroupRequestModel;

    open spec fn deep_view(&self) -> AlbTargetGroupRequestModel {
        AlbTargetGroupRequestModel {
            path: self.path.deep_view(),
            request_context: self.request_context.deep_view(),
        }
    }
}

pub open spec fn elb_of(c: Option<JsonModel>) -> Option<ElbContextModel> {
    match c {
        None => Some(ElbContextModel { target_group_arn: None }),
        Some(cm) => if !(cm is Obj) {
            None
        } else {
            match opt_str_field(cm, "targetGroupArn"@) {
                Some(a) => Some(ElbContextModel { target_group_arn: a }),
                None => None,
            }
        },
    }
}

pub open spec fn alb_context_of(c: Option<JsonModel>) -> Option<AlbTargetGroupRequestContextModel> {
    match c {
        None => Some(
            AlbTargetGroupRequestContextModel {
                elb: ElbContextModel { target_group_arn: None },
            },
        ),
        Some(cm) => if !(cm is Obj) {
            None
        } else {
            match elb_of(tree_get(cm, "elb"@)) {
                Some(e) => Some(AlbTargetGroupRequestContextModel { elb: e }),
                None => None,
            }
        },
    }
}

/// The load-balancer value a tree decodes to, or `None` on a shape error.
pub open spec fn alb_request_of(m: JsonModel) -> Option<AlbTargetGroupRequestModel> {
    if !(m is Obj) {
        None
    } else {
        match (opt_str_field(m, "path"@), alb_context_of(tree_get(m, "requestContext"@))) {
            (Some(p), Some(rc)) => Some(
                AlbTargetGroupRequestModel { path: p, request_context: rc },
            ),
            _ => None,
        }
    }
}

pub open spec fn elb_tree(e: ElbContextModel) -> JsonModel {
    JsonModel::Obj(seq![("targetGroupArn"@, opt_str_json(e.target_group_arn))])
}

pub open spec fn alb_context_tree(c: AlbTargetGroupRequestContextModel) -> JsonModel {
    JsonModel::Obj(seq![("elb"@, elb_tree(c.elb))])
}

/// The tree a load-balancer value encodes to.
pub open spec fn alb_request_tree(q: AlbTargetGroupRequestModel) -> JsonModel {
    JsonModel::Obj(
        seq![
            ("path"@, opt_str_json(q.path)),
            ("requestContext"@, alb_context_tree(q.request_context)),
        ],
    )
}

impl AlbTargetGroupRequest {
    /// Decode a load-balancer payload from the tree.
    pub fn decode(t: &JsonValue) -> (r: Option<AlbTargetGroupRequest>)
        ensures
            match alb_request_of(t.deep_view()) {
                Some(q) => r matches Some(v) && v.deep_view() == q,
                None => r is None,
            },
    {
        match t {
            JsonValue::Obj(_) => {},
            _ => {
                return None;
            },
        }
        let path = match t.opt_string_member("path") {
            Some(p) => p,
            None => {
                return None;
            },
        };
        let request_context = match t.get_key("requestContext") {
            None => AlbTargetGroupRequestContext {
                elb: ElbContext { target_group_arn: None },
            },
            Some(c) => {
                match c {
                    JsonValue::Obj(_) => {},
                    _ => {
                        return None;
                    },
                }
                let elb = match c.get_key("elb") {
                    None => ElbContext { target_group_arn: None },
                    Some(e) => {
                        match e {
                            JsonValue::Obj(_) => {},
                            _ => {
                                return None;
                            },
                        }
                        let target_group_arn = match e.opt_string_member("targetGroupArn") {
                            Some(a) => a,
                            None => {
                                return None;
                            },
                        };
                        ElbContext { target_group_arn }
                    },
                };
                AlbTargetGroupRequestContext { elb }
            },
        };
        Some(AlbTargetGroupRequest { path, request_context })
    }

    /// Encode this value back to a tree.
    pub fn encode(&self) -> (r: JsonValue)
        ensures
            r.deep_view() == alb_request_tree(self.deep_view()),
    {
        let mut elb: Vec<(String, JsonValue)> = Vec::new();
        elb.push((
            String::from_str("targetGroupArn"),
            opt_str_value(&self.request_context.elb.target_group_arn),
        ));
        let mut rc: Vec<(String, JsonValue)> = Vec::new();
        rc.push((String::from_str("elb"), JsonValue::Obj(elb)));
        let mut top: Vec<(String, JsonValue)> = Vec::new();
        top.push((String::from_str("path"), opt_str_value(&self.path)));
        top.push((String::from_str("requestContext"), JsonValue::Obj(rc)));
        let r = JsonValue::Obj(top);
        proof {
            crate::tree::lemma_entries_view(top@);
            crate::tree::lemma_entries_view(top@[1].1->Obj_0@);
            crate::tree::lemma_entries_view(top@[1].1->Obj_0@[0].1->Obj_0@);
            assert(top@[1].1->Obj_0@[0].1.deep_view()->Obj_0 =~= elb_tree(
                self.request_context.elb.deep_view(),
            )->Obj_0);
            assert(top@[1].1->Obj_0@[0].1.deep_view() == elb_tree(
                self.request_context.elb.deep_view(),
            ));
            assert(top@[1].1.deep_view()->Obj_0 =~= alb_context_tree(
                self.request_context.deep_view(),
            )->Obj_0);
            assert(top@[1].1.deep_view() == alb_context_tree(self.request_context.deep_view()));
            assert(r.deep_view()->Obj_0 =~= alb_request_tree(self.deep_view())->Obj_0);
        }
        r
    }
}

/// The request context of a WebSocket payload.
#[derive(Debug, Clone, PartialEq, Eq)]
pub struct ApiGatewayWebsocketProxyRequestContext {
    pub event_type: Option<String>,
    pub connection_id: Option<String>,
}

#[verifier::ext_equal]
pub struct ApiGatewayWebsocketProxyRequestContextModel {
    pub event_type: Option<Seq<char>>,
    pub connection_id: Option<Seq<char>>,
}

impl DeepView for ApiGatewayWebsocketProxyRequestContext {
    type V = ApiGatewayWebsocketProxyRequestContextModel;

    open spec fn deep_view(&self) -> ApiGatewayWebsocketProxyRequestContextModel {
        ApiGatewayWebsocketProxyRequestContextModel {
            event_type: self.event_type.deep_view(),
            connection_id: self.connection_id.deep_view(),
        }
    }
}

/// A WebSocket payload. Its marker is the top-level `connectedAt` instant.
#[derive(Debug, Clone, PartialEq, Eq)]
pub struct ApiGatewayWebsocketProxyRequest {
    pub connected_at: i64,
    pub request_context: ApiGatewayWebsocketProxyRequestContext,
}

#[verifier::ext_equal]
pub struct ApiGatewayWebsocketProxyRequestModel {
    pub connected_at: i64,
    pub request_context: ApiGatewayWebsocketProxyRequestContextModel,
}

impl DeepView for ApiGatewayWebsocketProxyRequest {
    type V = ApiGatewayWebsocketProxyRequestModel;

    open spec fn deep_view(&self) -> ApiGatewayWebsocketProxyRequestModel {
        ApiGatewayWebsocketProxyRequestModel {
            connected_at: self.connected_at,
            request_context: self.request_context.deep_view(),
        }
    }
}

pub open spec fn ws_context_of(c: Option<JsonModel>) -> Option<
    ApiGatewayWebsocketProxyRequestContextModel,
> {
    match c {
        None => Some(
            ApiGatewayWebsocketProxyRequestContextModel {
                event_type: None,
                connection_id: None,
            },
        ),
        Some(cm) => if !(cm is Obj) {
            None
        } else {
            match (opt_str_field(cm, "eventType"@), opt_str_field(cm, "connectionId"@)) {
                (Some(e), Some(ci)) => Some(
                    ApiGatewayWebsocketProxyRequestContextModel {
                        event_type: e,
                        connection_id: ci,
                    },
                ),
                _ => None,
            }
        },
    }
}

/// The WebSocket value a tree decodes to, or `None` on a shape error.
pub open spec fn ws_request_of(m: JsonModel) -> Option<ApiGatewayWebsocketProxyRequestModel> {
    if !(m is Obj) {
        None
    } else {
        match (req_int_field(m, "connectedAt"@), ws_context_of(tree_get(m, "requestContext"@))) {
            (Some(ca), Some(rc)) => Some(
                ApiGatewayWebsocketProxyRequestModel { connected_at: ca, request_context: rc },
            ),
            _ => None,
        }
    }
}

pub open spec fn ws_context_tree(c: ApiGatewayWebsocketProxyRequestContextModel) -> JsonModel {
    JsonModel::Obj(
        seq![
            ("eventType"@, opt_str_json(c.event_type)),
            ("connectionId"@, opt_str_json(c.connection_id)),
        ],
    )
}

/// The tree a WebSocket value encodes to.
pub open spec fn ws_request_tree(q: ApiGatewayWebsocketProxyRequestModel) -> JsonModel {
    JsonModel::Obj(
        seq![
            ("connectedAt"@, JsonModel::Int(q.connected_at)),
            ("requestContext"@, ws_context_tree(q.request_context)),
        ],
    )
}

impl ApiGatewayWebsocketProxyRequest {
    /// Decode a WebSocket payload from the tree.
    pub fn decode(t: &JsonValue) -> (r: Option<ApiGatewayWebsocketProxyRequest>)
        ensures
            match ws_request_of(t.deep_view()) {
                Some(q) => r matches Some(v) && v.deep_view() == q,
                None => r is None,
            },
    {
        match t {
            JsonValue::Obj(_) => {},
            _ => {
                return None;
            },
        }
        let connected_at = match t.req_int_member("connectedAt") {
            Some(n) => n,
            None => {
                return None;
            },
        };
        let request_context = match t.get_key("requestContext") {
            None => ApiGatewayWebsocketProxyRequestContext {
                event_type: None,
                connection_id: None,
            },
            Some(c) => {
                match c {
                    JsonValue::Obj(_) => {},
                    _ => {
                        return None;
                    },
                }
                let event_type = match c.opt_string_member("eventType") {
                    Some(e) => e,
                    None => {
                        return None;
                    },
                };
                let connection_id = match c.opt_string_member("connectionId") {
                    Some(ci) => ci,
                    None => {
                        return None;
                    },
                };
                ApiGatewayWebsocketProxyRequestContext { event_type, connection_id }
            },
        };
        Some(ApiGatewayWebsocketProxyRequest { connected_at, request_context })
    }

    /// Encode this value back to a tree.
    pub fn encode(&self) -> (r: JsonValue)
        ensures
            r.deep_view() == ws_request_tree(self.deep_view()),
    {
        let mut rc: Vec<(String, JsonValue)> = Vec::new();
        rc.push((String::from_str("eventType"), opt_str_value(&self.request_context.event_type)));
        rc.push((
            String::from_str("connectionId"),
            opt_str_value(&self.request_context.connection_id),
        ));
        let mut top: Vec<(String, JsonValue)> = Vec::new();
        top.push((String::from_str("connectedAt"), JsonValue::Int(self.connected_at)));
        top.push((String::from_str("requestContext"), JsonValue::Obj(rc)));
        let r = JsonValue::Obj(top);
        proof {
            crate::tree::lemma_entries_view(top@);
            crate::tree::lemma_entries_view(top@[1].1->Obj_0@);
            assert(top@[1].1.deep_view()->Obj_0 =~= ws_context_tree(
                self.request_context.deep_view(),
            )->Obj_0);
            assert(top@[1].1.deep_view() == ws_context_tree(self.request_context.deep_view()));
            assert(r.deep_view()->Obj_0 =~= ws_request_tree(self.deep_view())->Obj_0);
        }
        r
    }
}


/// Law: decoding the tree a REST-style value encodes to gives back an
/// equal value.
pub proof fn lemma_rest_round_trip(q: ApiGatewayProxyRequestModel)
    ensures
        rest_request_of(rest_request_tree(q)) == Some(q),
{
    reveal_strlit("httpMethod");
    reveal_strlit("path");
    reveal_strlit("requestContext");
    reveal_strlit("accountId");
    reveal_strlit("stage");
    reveal_with_fuel(crate::tree::entries_get, 5);
    assert("httpMethod"@.len() == 10);
    assert("path"@.len() == 4);
    assert("requestContext"@.len() == 14);
    assert("accountId"@.len() == 9);
    assert("stage"@.len() == 5);
    let m = rest_request_tree(q);
    let es = m->Obj_0;
    assert(es.drop_first() =~= seq![es[1], es[2]]);
    assert(es.drop_first().drop_first() =~= seq![es[2]]);
    assert(tree_get(m, "httpMethod"@) == Some(JsonModel::Str(q.http_method)));
    assert(tree_get(m, "path"@) == Some(opt_str_json(q.path)));
    assert(tree_get(m, "requestContext"@) == Some(rest_context_tree(q.request_context)));
    let cs = rest_context_tree(q.request_context)->Obj_0;
    assert(cs.drop_first() =~= seq![cs[1]]);
    assert(tree_get(rest_context_tree(q.request_context), "accountId"@) == Some(
        opt_str_json(q.request_context.account_id),
    ));
    assert(tree_get(rest_context_tree(q.request_context), "stage"@) == Some(
        opt_str_json(q.request_context.stage),
    ));
}

/// Law: decoding the tree an HTTP-style value encodes to gives back an
/// equal value.
pub proof fn lemma_v2_round_trip(q: ApiGatewayV2httpRequestModel)
    ensures
        v2_request_of(v2_request_tree(q)) == Some(q),
{
    reveal_strlit("routeKey");
    reveal_strlit("requestContext");
    reveal_strlit("accountId");
    reveal_strlit("http");
    reveal_strlit("method");
    reveal_strlit("path");
    reveal_with_fuel(crate::tree::entries_get, 4);
    assert("routeKey"@.len() == 8);
    assert("requestContext"@.len() == 14);
    assert("accountId"@.len() == 9);
    assert("http"@.len() == 4);
    assert("method"@.len() == 6);
    assert("path"@.len() == 4);
    assert("method"@[0] == 'm' && "path"@[0] == 'p');
    let m = v2_request_tree(q);
    let es = m->Obj_0;
    assert(es.drop_first() =~= seq![es[1]]);
    assert(tree_get(m, "routeKey"@) == Some(opt_str_json(q.route_key)));
    assert(tree_get(m, "requestContext"@) == Some(v2_context_tree(q.request_context)));
    let cs = v2_context_tree(q.request_context)->Obj_0;
    assert(cs.drop_first() =~= seq![cs[1]]);
    assert(tree_get(v2_context_tree(q.request_context), "accountId"@) == Some(
        opt_str_json(q.request_context.account_id),
    ));
    assert(tree_get(v2_context_tree(q.request_context), "http"@) == Some(
        v2_http_tree(q.request_context.http),
    ));
    let hs = v2_http_tree(q.request_context.http)->Obj_0;
    assert(hs.drop_first() =~= seq![hs[1]]);
    assert(tree_get(v2_http_tree(q.request_context.http), "method"@) == Some(
        opt_str_json(q.request_context.http.method),
    ));
    assert(tree_get(v2_http_tree(q.request_context.http), "path"@) == Some(
        opt_str_json(q.request_context.http.path),
    ));
}

/// Law: decoding the tree a load-balancer value encodes to gives back an
/// equal value.
pub proof fn lemma_alb_round_trip(q: AlbTargetGroupRequestModel)
    ensures
        alb_request_of(alb_request_tree(q)) == Some(q),
{
    reveal_strlit("path");
    reveal_strlit("requestContext");
    reveal_strlit("elb");
    reveal_strlit("targetGroupArn");
    reveal_with_fuel(crate::tree::entries_get, 4);
    assert("path"@.len() == 4);
    assert("requestContext"@.len() == 14);
    assert("elb"@.len() == 3);
    assert("targetGroupArn"@.len() == 14);
    let m = alb_request_tree(q);
    let es = m->Obj_0;
    assert(es.drop_first() =~= seq![es[1]]);
    assert(tree_get(m, "path"@) == Some(opt_str_json(q.path)));
    assert(tree_get(m, "requestContext"@) == Some(alb_context_tree(q.request_context)));
    assert(tree_get(alb_context_tree(q.request_context), "elb"@) == Some(
        elb_tree(q.request_context.elb),
    ));
    assert(tree_get(elb_tree(q.request_context.elb), "targetGroupArn"@) == Some(
        opt_str_json(q.request_context.elb.target_group_arn),
    ));
}

/// Law: decoding the tree a WebSocket value encodes to gives back an equal
/// value.
pub proof fn lemma_ws_round_trip(q: ApiGatewayWebsocketProxyRequestModel)
    ensures
        ws_request_of(ws_request_tree(q)) == Some(q),
{
    reveal_strlit("connectedAt");
    reveal_strlit("requestContext");
    reveal_strlit("eventType");
    reveal_strlit("connectionId");
    reveal_with_fuel(crate::tree::entries_get, 4);
    assert("connectedAt"@.len() == 11);
    assert("requestContext"@.len() == 14);
    assert("eventType"@.len() == 9);
    assert("connectionId"@.len() == 12);
    let m = ws_request_tree(q);
    let es = m->Obj_0;
    assert(es.drop_first() =~= seq![es[1]]);
    assert(tree_get(m, "connectedAt"@) == Some(JsonModel::Int(q.connected_at)));
    assert(tree_get(m, "requestContext"@) == Some(ws_context_tree(q.request_context)));
    let cs = ws_context_tree(q.request_context)->Obj_0;
    assert(cs.drop_first() =~= seq![cs[1]]);
    assert(tree_get(ws_context_tree(q.request_context), "eventType"@) == Some(
        opt_str_json(q.request_context.event_type),
    ));
    assert(tree_get(ws_context_tree(q.request_context), "connectionId"@) == Some(
        opt_str_json(q.request_context.connection_id),
    ));
}

} // verus!
