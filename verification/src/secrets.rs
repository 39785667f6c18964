//! The secret-rotation event shape.

use vstd::prelude::*;

use crate::tree::{req_str_field, JsonModel, JsonValue};

verus! {

/// A secret-rotation invocation: the rotation step, the secret and the
/// request token, all required. Its wire keys are Pascal-cased.
#[derive(Debug, Clone, PartialEq, Eq)]
pub struct SecretsManagerSecretRotationEvent {
    pub step: String,
    pub secret_id: String,
    pub client_request_token: String,
}

#[verifier::ext_equal]
pub struct SecretsManagerSecretRotationEventModel {
    pub step: Seq<char>,
    pub secret_id: Seq<char>,
    pub client_request_token: Seq<char>,
}

impl DeepView for SecretsManagerSecretRotationEvent {
    type V = SecretsManagerSecretRotationEventModel;

    open spec fn deep_view(&self) -> SecretsManagerSecretRotationEventModel {
        SecretsManagerSecretRotationEventModel {
            step: self.step@,
            secret_id: self.secret_id@,
            client_request_token: self.client_request_token@,
        }
    }
}

/// The rotation value a tree decodes to, or `None` on a shape error.
pub open spec fn rotation_event_of(m: JsonModel) -> Option<
    SecretsManagerSecretRotationEventModel,
> {
    if !(m is Obj) {
        None
    } else {
        match (req_str_field(m, "Step"@), req_str_field(m, "SecretId"@), req_str_field(
            m,
            "ClientRequestToken"@,
        )) {
            (Some(s), Some(i), Some(t)) => Some(
                SecretsManagerSecretRotationEventModel {
                    step: s,
                    secret_id: i,
                    client_request_token: t,
                },
            ),
            _ => None,
        }
    }
}

/// The tree a rotation value encodes to.
pub open spec fn rotation_event_tree(q: SecretsManagerSecretRotationEventModel) -> JsonModel {
    JsonModel::Obj(
        seq![
            ("Step"@, JsonModel::Str(q.step)),
            ("SecretId"@, JsonModel::Str(q.secret_id)),
            ("ClientRequestToken"@, JsonModel::Str(q.client_request_token)),
        ],
    )
}

impl SecretsManagerSecretRotationEvent {
    /// Decode a rotation payload from the tree.
    pub fn decode(t: &JsonValue) -> (r: Option<SecretsManagerSecretRotationEvent>)
        ensures
            match rotation_event_of(t.deep_view()) {
                Some(q) => r matches Some(v) && v.deep_view() == q,
                None => r is None,
            },
    {
        match t {
            JsonValue::Obj(_) => {},
            _ => {
                return None;
            },
        }
        let step = match t.req_string_member("Step") {
            Some(s) => s,
            None => {
                return None;
            },
        };
        let secret_id = match t.req_string_member("SecretId") {
            Some(s) => s,
            None => {
                return None;
            },
        };
        let client_request_token = match t.req_string_member("ClientRequestToken") {
            Some(s) => s,
            None => {
                return None;
            },
        };
        Some(SecretsManagerSecretRotationEvent { step, secret_id, client_request_token })
    }

    /// Encode this value back to a tree.
    pub fn encode(&self) -> (r: JsonValue)
        ensures
            r.deep_view() == rotation_event_tree(self.deep_view()),
    {
        let mut top: Vec<(String, JsonValue)> = Vec::new();
        top.push((String::from_str("Step"), JsonValue::Str(self.step.clone())));
        top.push((String::from_str("SecretId"), JsonValue::Str(self.secret_id.clone())));
        top.push((
            String::from_str("ClientRequestToken"),
            JsonValue::Str(self.client_request_token.clone()),
        ));
        let r = JsonValue::Obj(top);
        proof {
            crate::tree::lemma_entries_view(top@);
            assert(r.deep_view()->Obj_0 =~= rotation_event_tree(self.deep_view())->Obj_0);
        }
        r
    }
}

/// Law: decoding the tree a rotation value encodes to gives back an equal
/// value.
pub proof fn lemma_rotation_round_trip(q: SecretsManagerSecretRotationEventModel)
    ensures
        rotation_event_of(rotation_event_tree(q)) == Some(q),
{
    reveal_strlit("Step");
    reveal_strlit("SecretId");
    reveal_strlit("ClientRequestToken");
    reveal_with_fuel(crate::tree::entries_get, 4);
    assert("Step"@.len() == 4);
    assert("SecretId"@.len() == 8);
    assert("ClientRequestToken"@.len() == 18);
    let m = rotation_event_tree(q);
    let es = m->Obj_0;
    assert(es.drop_first() =~= seq![es[1], es[2]]);
    assert(es.drop_first().drop_first() =~= seq![es[2]]);
    assert(crate::tree::tree_get(m, "Step"@) == Some(JsonModel::Str(q.step)));
    assert(crate::tree::tree_get(m, "SecretId"@) == Some(JsonModel::Str(q.secret_id)));
    assert(crate::tree::tree_get(m, "ClientRequestToken"@) == Some(
        JsonModel::Str(q.client_request_token),
    ));
}

} // verus!
