//! The generic envelope: fixed metadata fields around an open-ended detail
//! mapping.
//!
//! The envelope carries identifiers, a timestamp, source tags, region and
//! account, plus `detail`: a provider-defined mapping from names to
//! arbitrary values. `detail` defaults to an empty mapping when the input
//! omits the key, and a present mapping is carried over pair by pair.

use vstd::prelude::*;

use crate::gateway::{opt_str_json, opt_str_value};
use crate::tree::{
    lemma_arr_view, lemma_entries_get_at, lemma_entries_view, opt_str_field, req_str_field,
    tree_get, JsonModel, JsonValue,
};
use crate::trusted::{
    format_rfc3339, parse_rfc3339, rfc3339_epoch, rfc3339_text, TIME_MAX, TIME_MIN,
};

verus! {

/// An envelope event. The timestamp is held as whole seconds since the
/// Unix epoch; on the wire it is an RFC 3339 string. The detail values are
/// arbitrary trees, the default for a provider-defined payload.
#[derive(Debug, PartialEq, Eq)]
pub struct Envelope {
    pub version: Option<String>,
    pub id: Option<String>,
    pub detail_type: Option<String>,
    pub source: Option<String>,
    pub account_id: Option<String>,
    pub time: i64,
    pub region: Option<String>,
    pub resources: Vec<String>,
    pub detail: Vec<(String, JsonValue)>,
}

/// The envelope shape under its historical name.
pub type AutoScalingEvent = Envelope;

#[verifier::ext_equal]
pub struct EnvelopeModel {
    pub version: Option<Seq<char>>,
    pub id: Option<Seq<char>>,
    pub detail_type: Option<Seq<char>>,
    pub source: Option<Seq<char>>,
    pub account_id: Option<Seq<char>>,
    pub time: i64,
    pub region: Option<Seq<char>>,
    pub resources: Seq<Seq<char>>,
    pub detail: Seq<(Seq<char>, JsonModel)>,
}

impl DeepView for Envelope {
    type V = EnvelopeModel;

    open spec fn deep_view(&self) -> EnvelopeModel {
        EnvelopeModel {
            version: self.version.deep_view(),
            id: self.id.deep_view(),
            detail_type: self.detail_type.deep_view(),
            source: self.source.deep_view(),
            account_id: self.account_id.deep_view(),
            time: self.time,
            region: self.region.deep_view(),
            resources: self.resources.deep_view(),
            detail: self.detail.deep_view(),
        }
    }
}

/// The strings that a sequence of trees decodes to: defined only when
/// every element is a string.
pub open spec fn str_items_of(items: Seq<JsonModel>) -> Option<Seq<Seq<char>>> {
    if forall|i: int| 0 <= i < items.len() ==> (#[trigger] items[i]) is Str {
        Some(Seq::new(items.len(), |i: int| items[i]->Str_0))
    } else {
        None
    }
}

/// The trees a sequence of strings encodes to.
pub open spec fn str_items_trees(rs: Seq<Seq<char>>) -> Seq<JsonModel> {
    Seq::new(rs.len(), |i: int| JsonModel::Str(rs[i]))
}

/// The resources list a member decodes to: required, and every element
/// must be a string.
pub open spec fn resources_of(c: Option<JsonModel>) -> Option<Seq<Seq<char>>> {
    match c {
        Some(JsonModel::Arr(items)) => str_items_of(items),
        _ => None,
    }
}

/// The detail mapping a member decodes to: empty when the member is absent
/// or null, its pairs when it is an object, a shape error otherwise.
pub open spec fn detail_of(c: Option<JsonModel>) -> Option<Seq<(Seq<char>, JsonModel)>> {
    match c {
        None => Some(Seq::empty()),
        Some(JsonModel::Null) => Some(Seq::empty()),
        Some(JsonModel::Obj(es)) => Some(es),
        Some(_) => None,
    }
}

/// The instant the required `time` member decodes to: an RFC 3339 string
/// naming an instant in the supported range.
pub open spec fn envelope_time_of(m: JsonModel) -> Option<i64> {
    match req_str_field(m, "time"@) {
        Some(s) => match rfc3339_epoch(s) {
            Some(n) => if TIME_MIN <= n <= TIME_MAX {
                Some(n)
            } else {
                None
            },
            None => None,
        },
        None => None,
    }
}

/// The envelope a tree decodes to, or `None` on a shape error.
pub open spec fn envelope_of(m: JsonModel) -> Option<EnvelopeModel> {
    if !(m is Obj) {
        None
    } else {
        match (
            opt_str_field(m, "version"@),
            opt_str_field(m, "id"@),
            opt_str_field(m, "detail-type"@),
            opt_str_field(m, "source"@),
            opt_str_field(m, "account"@),
            envelope_time_of(m),
            opt_str_field(m, "region"@),
            resources_of(tree_get(m, "resources"@)),
            detail_of(tree_get(m, "detail"@)),
        ) {
            (
                Some(v),
                Some(i),
                Some(dt),
                Some(so),
                Some(a),
                Some(t),
                Some(rg),
                Some(rs),
                Some(d),
            ) => Some(
                EnvelopeModel {
                    version: v,
                    id: i,
                    detail_type: dt,
                    source: so,
                    account_id: a,
                    time: t,
                    region: rg,
                    resources: rs,
                    detail: d,
                },
            ),
            _ => None,
        }
    }
}

/// The tree an envelope encodes to.
pub open spec fn envelope_tree(e: EnvelopeModel) -> JsonModel {
    JsonModel::Obj(
        seq![
            ("version"@, opt_str_json(e.version)),
            ("id"@, opt_str_json(e.id)),
            ("detail-type"@, opt_str_json(e.detail_type)),
            ("source"@, opt_str_json(e.source)),
            ("account"@, opt_str_json(e.account_id)),
            ("time"@, JsonModel::Str(rfc3339_text(e.time))),
            ("region"@, opt_str_json(e.region)),
            ("resources"@, JsonModel::Arr(str_items_trees(e.resources))),
            ("detail"@, JsonModel::Obj(e.detail)),
        ],
    )
}

impl Envelope {
    /// Decode an envelope from the tree.
    pub fn decode(t: &JsonValue) -> (r: Option<Envelope>)
        ensures
            match envelope_of(t.deep_view()) {
                Some(q) => r matches Some(v) && v.deep_view() == q,
                None => r is None,
            },
    {
        match t {
            JsonValue::Obj(_) => {},
            _ => {
                return None;
            },
        }
        let version = match t.opt_string_member("version") {
            Some(s) => s,
            None => {
                return None;
            },
        };
        let id = match t.opt_string_member("id") {
            Some(s) => s,
            None => {
                return None;
            },
        };
        let detail_type = match t.opt_string_member("detail-type") {
            Some(s) => s,
            None => {
                return None;
            },
        };
        let source = match t.opt_string_member("source") {
            Some(s) => s,
            None => {
                return None;
            },
        };
        let account_id = match t.opt_string_member("account") {
            Some(s) => s,
            None => {
                return None;
            },
        };
        let time = match t.req_string_member("time") {
            Some(s) => match parse_rfc3339(s.as_str()) {
                Some(n) => {
                    if TIME_MIN <= n && n <= TIME_MAX {
                        n
                    } else {
                        return None;
                    }
                },
                None => {
                    return None;
                },
            },
            None => {
                return None;
            },
        };
        let region = match t.opt_string_member("region") {
            Some(s) => s,
            None => {
                return None;
            },
        };
        let items = match t.get_key("resources") {
            Some(c) => match c {
                JsonValue::Arr(items) => items,
                _ => {
                    return None;
                },
            },
            None => {
                return None;
            },
        };
        let ghost ims = crate::tree::arr_view(items@);
        proof {
            lemma_arr_view(items@);
        }
        let mut resources: Vec<String> = Vec::new();
        let mut i: usize = 0;
        while i < items.len()
            invariant
                0 <= i <= items.len(),
                ims == crate::tree::arr_view(items@),
                ims.len() == items@.len(),
                t.deep_view() is Obj,
                tree_get(t.deep_view(), "resources"@) == Some(JsonModel::Arr(ims)),
                forall|j: int| 0 <= j < items@.len() ==> ims[j] == items@[j].deep_view(),
                resources@.len() == i,
                forall|j: int|
                    0 <= j < i ==> (#[trigger] ims[j]) is Str && resources@[j]@ == ims[j]->Str_0,
            decreases items.len() - i,
        {
            match &items[i] {
                JsonValue::Str(s) => {
                    resources.push(s.clone());
                },
                _ => {
                    proof {
                        assert(!(forall|j: int|
                            0 <= j < ims.len() ==> (#[trigger] ims[j]) is Str)) by {
                            assert(!(ims[i as int] is Str));
                        }
                    }
                    return None;
                },
            }
            i = i + 1;
        }
        proof {
            assert(str_items_of(ims) is Some);
            assert(resources.deep_view() =~= str_items_of(ims)->0);
        }
        let detail = match t.get_key("detail") {
            None => Vec::new(),
            Some(c) => match c {
                JsonValue::Null => Vec::new(),
                JsonValue::Obj(entries) => {
                    let ghost em = crate::tree::entries_view(entries@);
                    proof {
                        lemma_entries_view(entries@);
                    }
                    let mut out: Vec<(String, JsonValue)> = Vec::new();
                    let mut k: usize = 0;
                    while k < entries.len()
                        invariant
                            0 <= k <= entries.len(),
                            em == crate::tree::entries_view(entries@),
                            em.len() == entries@.len(),
                            forall|j: int|
                                0 <= j < entries@.len() ==> em[j] == (
                                    entries@[j].0@,
                                    entries@[j].1.deep_view(),
                                ),
                            out@.len() == k,
                            forall|j: int|
                                0 <= j < k ==> (#[trigger] out@[j].0)@ == em[j].0
                                    && out@[j].1.deep_view() == em[j].1,
                        decreases entries.len() - k,
                    {
                        let pair = (entries[k].0.clone(), entries[k].1.deep_copy());
                        out.push(pair);
                        k = k + 1;
                    }
                    proof {
                        assert(out.deep_view() =~= em);
                    }
                    out
                },
                _ => {
                    return None;
                },
            },
        };
        let result = Envelope {
            version,
            id,
            detail_type,
            source,
            account_id,
            time,
            region,
            resources,
            detail,
        };
        proof {
            assert(result.detail.deep_view() =~= detail_of(
                tree_get(t.deep_view(), "detail"@),
            )->0);
        }
        Some(result)
    }

    /// Encode this envelope back to a tree that decodes to an equal value.
    pub fn encode(&self) -> (r: JsonValue)
        requires
            TIME_MIN <= self.time <= TIME_MAX,
        ensures
            r.deep_view() == envelope_tree(self.deep_view()),
            envelope_of(r.deep_view()) == Some(self.deep_view()),
    {
        let ts = format_rfc3339(self.time);
        let mut items: Vec<JsonValue> = Vec::new();
        let mut i: usize = 0;
        while i < self.resources.len()
            invariant
                0 <= i <= self.resources.len(),
                items@.len() == i,
                forall|j: int|
                    0 <= j < i ==> (#[trigger] items@[j].deep_view()) == JsonModel::Str(
                        self.resources@[j]@,
                    ),
            decreases self.resources.len() - i,
        {
            items.push(JsonValue::Str(self.resources[i].clone()));
            i = i + 1;
        }
        let resources_value = JsonValue::Arr(items);
        proof {
            lemma_arr_view(resources_value->Arr_0@);
            assert(resources_value.deep_view()->Arr_0 =~= str_items_trees(
                self.deep_view().resources,
            ));
        }
        let mut es: Vec<(String, JsonValue)> = Vec::new();
        let mut k: usize = 0;
        while k < self.detail.len()
            invariant
                0 <= k <= self.detail.len(),
                es@.len() == k,
                forall|j: int|
                    0 <= j < k ==> (#[trigger] es@[j].0)@ == self.detail@[j].0@
                        && es@[j].1.deep_view() == self.detail@[j].1.deep_view(),
            decreases self.detail.len() - k,
        {
            let pair = (self.detail[k].0.clone(), self.detail[k].1.deep_copy());
            es.push(pair);
            k = k + 1;
        }
        let detail_value = JsonValue::Obj(es);
        proof {
            lemma_entries_view(detail_value->Obj_0@);
            assert(detail_value.deep_view()->Obj_0 =~= self.deep_view().detail);
        }
        let mut top: Vec<(String, JsonValue)> = Vec::new();
        top.push((String::from_str("version"), opt_str_value(&self.version)));
        top.push((String::from_str("id"), opt_str_value(&self.id)));
        top.push((String::from_str("detail-type"), opt_str_value(&self.detail_type)));
        top.push((String::from_str("source"), opt_str_value(&self.source)));
        top.push((String::from_str("account"), opt_str_value(&self.account_id)));
        top.push((String::from_str("time"), JsonValue::Str(ts)));
        top.push((String::from_str("region"), opt_str_value(&self.region)));
        top.push((String::from_str("resources"), resources_value));
        top.push((String::from_str("detail"), detail_value));
        let r = JsonValue::Obj(top);
        proof {
            lemma_entries_view(top@);
            assert(r.deep_view()->Obj_0 =~= envelope_tree(self.deep_view())->Obj_0);
            lemma_envelope_round_trip(self.deep_view());
        }
        r
    }
}

/// Law: decoding the tree an envelope encodes to gives back an equal
/// value. The hypothesis on the timestamp's text is what the encoder's
/// formatting call establishes: the text it produces names the same
/// instant when parsed back.
pub proof fn lemma_envelope_round_trip(e: EnvelopeModel)
    requires
        TIME_MIN <= e.time <= TIME_MAX,
        rfc3339_epoch(rfc3339_text(e.time)) == Some(e.time),
    ensures
        envelope_of(envelope_tree(e)) == Some(e),
{
    reveal_strlit("version");
    reveal_strlit("id");
    reveal_strlit("detail-type");
    reveal_strlit("source");
    reveal_strlit("account");
    reveal_strlit("time");
    reveal_strlit("region");
    reveal_strlit("resources");
    reveal_strlit("detail");
    assert("version"@.len() == 7);
    assert("id"@.len() == 2);
    assert("detail-type"@.len() == 11);
    assert("source"@.len() == 6);
    assert("account"@.len() == 7);
    assert("time"@.len() == 4);
    assert("region"@.len() == 6);
    assert("resources"@.len() == 9);
    assert("detail"@.len() == 6);
    assert("version"@[0] == 'v' && "account"@[0] == 'a');
    assert("source"@[0] == 's' && "region"@[0] == 'r' && "detail"@[0] == 'd');
    let m = envelope_tree(e);
    let es = m->Obj_0;
    assert(tree_get(m, "version"@) == Some(opt_str_json(e.version))) by {
        lemma_entries_get_at(es, "version"@, 0);
    }
    assert(tree_get(m, "id"@) == Some(opt_str_json(e.id))) by {
        lemma_entries_get_at(es, "id"@, 1);
    }
    assert(tree_get(m, "detail-type"@) == Some(opt_str_json(e.detail_type))) by {
        lemma_entries_get_at(es, "detail-type"@, 2);
    }
    assert(tree_get(m, "source"@) == Some(opt_str_json(e.source))) by {
        lemma_entries_get_at(es, "source"@, 3);
    }
    assert(tree_get(m, "account"@) == Some(opt_str_json(e.account_id))) by {
        lemma_entries_get_at(es, "account"@, 4);
    }
    assert(tree_get(m, "time"@) == Some(JsonModel::Str(rfc3339_text(e.time)))) by {
        lemma_entries_get_at(es, "time"@, 5);
    }
    assert(tree_get(m, "region"@) == Some(opt_str_json(e.region))) by {
        lemma_entries_get_at(es, "region"@, 6);
    }
    assert(tree_get(m, "resources"@) == Some(JsonModel::Arr(str_items_trees(e.resources)))) by {
        lemma_entries_get_at(es, "resources"@, 7);
    }
    assert(tree_get(m, "detail"@) == Some(JsonModel::Obj(e.detail))) by {
        lemma_entries_get_at(es, "detail"@, 8);
    }
    assert(str_items_of(str_items_trees(e.resources)) is Some);
    assert(str_items_of(str_items_trees(e.resources))->0 =~= e.resources);
    assert(envelope_of(m)->0 =~= e);
}

/// Law: within a decodable envelope, the detail mapping defaults to empty
/// exactly when the input has no `detail` member or a null one, and is the
/// input's own pairs when the member is an object.
pub proof fn lemma_detail_defaulting(m: JsonModel)
    requires
        envelope_of(m) is Some,
    ensures
        tree_get(m, "detail"@) is None ==> envelope_of(m)->0.detail == Seq::<
            (Seq<char>, JsonModel),
        >::empty(),
        tree_get(m, "detail"@) matches Some(JsonModel::Obj(es)) ==> envelope_of(m)->0.detail
            == es,
{
}

} // verus!
