//! The stream-record event shapes, including the time-window forms.

use vstd::prelude::*;

use crate::tree::{
    def_str_field, lemma_arr_view, lemma_entries_get_at, lemma_entries_view, opt_bool_field,
    opt_str_field, req_int_field, req_str_field, tree_get, JsonModel, JsonValue,
};
use crate::gateway::{opt_str_json, opt_str_value};

verus! {

/// How a stream record's payload is encrypted on the wire.
///
/// The wire names the unencrypted case `NONE`; that word names an option in
/// this language, so the variant is called `NoEncryption` here.
#[derive(Debug, Clone, Copy, PartialEq, Eq, Structural)]
pub enum KinesisEncryptionType {
    NoEncryption,
    Kms,
}

impl Default for KinesisEncryptionType {
    /// An absent encryption type means an unencrypted record.
    fn default() -> (r: KinesisEncryptionType)
        ensures
            r == KinesisEncryptionType::NoEncryption,
    {
        KinesisEncryptionType::NoEncryption
    }
}

/// The encryption type a member decodes to: unencrypted when absent or
/// null, otherwise one of the two wire names.
pub open spec fn encryption_of(m: JsonModel, key: Seq<char>) -> Option<KinesisEncryptionType> {
    match tree_get(m, key) {
        None => Some(KinesisEncryptionType::NoEncryption),
        Some(JsonModel::Null) => Some(KinesisEncryptionType::NoEncryption),
        Some(JsonModel::Str(s)) => if s == "NONE"@ {
            Some(KinesisEncryptionType::NoEncryption)
        } else if s == "KMS"@ {
            Some(KinesisEncryptionType::Kms)
        } else {
            None
        },
        Some(_) => None,
    }
}

/// The wire name of an encryption type.
pub open spec fn encryption_json(e: KinesisEncryptionType) -> JsonModel {
    match e {
        KinesisEncryptionType::NoEncryption => JsonModel::Str("NONE"@),
        KinesisEncryptionType::Kms => JsonModel::Str("KMS"@),
    }
}

fn decode_encryption(t: &JsonValue, key: &str) -> (r: Option<KinesisEncryptionType>)
    ensures
        r == encryption_of(t.deep_view(), key@),
{
    match t.get_key(key) {
        None => Some(KinesisEncryptionType::NoEncryption),
        Some(c) => match c {
            JsonValue::Null => Some(KinesisEncryptionType::NoEncryption),
            JsonValue::Str(s) => {
                if crate::tree::str_eq(s.as_str(), "NONE") {
                    Some(KinesisEncryptionType::NoEncryption)
                } else if crate::tree::str_eq(s.as_str(), "KMS") {
                    Some(KinesisEncryptionType::Kms)
                } else {
                    None
                }
            },
            _ => None,
        },
    }
}

fn encode_encryption(e: KinesisEncryptionType) -> (r: JsonValue)
    ensures
        r.deep_view() == encryption_json(e),
{
    match e {
        KinesisEncryptionType::NoEncryption => JsonValue::Str(String::from_str("NONE")),
        KinesisEncryptionType::Kms => JsonValue::Str(String::from_str("KMS")),
    }
}

/// The payload-carrying part of one stream record. The `data` field holds
/// the payload exactly as transmitted, in its base64 text form.
#[derive(Debug, Clone, PartialEq, Eq)]
pub struct KinesisRecord {
    pub approximate_arrival_timestamp: i64,
    pub data: String,
    pub encryption_type: KinesisEncryptionType,
    pub partition_key: String,
    pub sequence_number: String,
    pub kinesis_schema_version: Option<String>,
}

#[verifier::ext_equal]
pub struct KinesisRecordModel {
    pub approximate_arrival_timestamp: i64,
    pub data: Seq<char>,
    pub encryption_type: KinesisEncryptionType,
    pub partition_key: Seq<char>,
    pub sequence_number: Seq<char>,
    pub kinesis_schema_version: Option<Seq<char>>,
}

impl DeepView for KinesisRecord {
    type V = KinesisRecordModel;

    open spec fn deep_view(&self) -> KinesisRecordModel {
        KinesisRecordModel {
            approximate_arrival_timestamp: self.approximate_arrival_timestamp,
            data: self.data@,
            encryption_type: self.encryption_type,
            partition_key: self.partition_key@,
            sequence_number: self.sequence_number@,
            kinesis_schema_version: self.kinesis_schema_version.deep_view(),
        }
    }
}

/// The record payload a tree decodes to, or `None` on a shape error.
pub open spec fn kinesis_record_of(m: JsonModel) -> Option<KinesisRecordModel> {
    if !(m is Obj) {
        None
    } else {
        match (
            req_int_field(m, "approximateArrivalTimestamp"@),
            req_str_field(m, "data"@),
            encryption_of(m, "encryptionType"@),
            def_str_field(m, "partitionKey"@),
            def_str_field(m, "sequenceNumber"@),
            opt_str_field(m, "kinesisSchemaVersion"@),
        ) {
            (Some(ts), Some(d), Some(et), Some(pk), Some(sn), Some(sv)) => Some(
                KinesisRecordModel {
                    approximate_arrival_timestamp: ts,
                    data: d,
                    encryption_type: et,
                    partition_key: pk,
                    sequence_number: sn,
                    kinesis_schema_version: sv,
                },
            ),
            _ => None,
        }
    }
}

/// The tree a record payload encodes to.
pub open spec fn kinesis_record_tree(q: KinesisRecordModel) -> JsonModel {
    JsonModel::Obj(
        seq![
            ("approximateArrivalTimestamp"@, JsonModel::Int(q.approximate_arrival_timestamp)),
            ("data"@, JsonModel::Str(q.data)),
            ("encryptionType"@, encryption_json(q.encryption_type)),
            ("partitionKey"@, JsonModel::Str(q.partition_key)),
            ("sequenceNumber"@, JsonModel::Str(q.sequence_number)),
            ("kinesisSchemaVersion"@, opt_str_json(q.kinesis_schema_version)),
        ],
    )
}

impl KinesisRecord {
    /// Decode a record payload from the tree.
    pub fn decode(t: &JsonValue) -> (r: Option<KinesisRecord>)
        ensures
            match kinesis_record_of(t.deep_view()) {
                Some(q) => r matches Some(v) && v.deep_view() == q,
                None => r is None,
            },
    {
        match t {
            JsonValue::Obj(_) => {},
            _ => {
                return None;
            },
        }
        let approximate_arrival_timestamp = match t.req_int_member(
            "approximateArrivalTimestamp",
        ) {
            Some(n) => n,
            None => {
                return None;
            },
        };
        let data = match t.req_string_member("data") {
            Some(s) => s,
            None => {
                return None;
            },
        };
        let encryption_type = match decode_encryption(t, "encryptionType") {
            Some(e) => e,
            None => {
                return None;
            },
        };
        let partition_key = match t.def_string_member("partitionKey") {
            Some(s) => s,
            None => {
                return None;
            },
        };
        let sequence_number = match t.def_string_member("sequenceNumber") {
            Some(s) => s,
            None => {
                return None;
            },
        };
        let kinesis_schema_version = match t.opt_string_member("kinesisSchemaVersion") {
            Some(s) => s,
            None => {
                return None;
            },
        };
        Some(
            KinesisRecord {
                approximate_arrival_timestamp,
                data,
                encryption_type,
                partition_key,
                sequence_number,
                kinesis_schema_version,
            },
        )
    }

    /// Encode this record payload back to a tree.
    pub fn encode(&self) -> (r: JsonValue)
        ensures
            r.deep_view() == kinesis_record_tree(self.deep_view()),
    {
        let mut top: Vec<(String, JsonValue)> = Vec::new();
        top.push((
            String::from_str("approximateArrivalTimestamp"),
            JsonValue::Int(self.approximate_arrival_timestamp),
        ));
        top.push((String::from_str("data"), JsonValue::Str(self.data.clone())));
        top.push((String::from_str("encryptionType"), encode_encryption(self.encryption_type)));
        top.push((String::from_str("partitionKey"), JsonValue::Str(self.partition_key.clone())));
        top.push((
            String::from_str("sequenceNumber"),
            JsonValue::Str(self.sequence_number.clone()),
        ));
        top.push((
            String::from_str("kinesisSchemaVersion"),
            opt_str_value(&self.kinesis_schema_version),
        ));
        let r = JsonValue::Obj(top);
        proof {
            lemma_entries_view(top@);
            assert(r.deep_view()->Obj_0 =~= kinesis_record_tree(self.deep_view())->Obj_0);
        }
        r
    }
}

/// One delivered record: the optional stream metadata around the payload.
#[derive(Debug, Clone, PartialEq, Eq)]
pub struct KinesisEventRecord {
    pub aws_region: Option<String>,
    pub event_id: Option<String>,
    pub event_name: Option<String>,
    pub event_source: Option<String>,
    pub event_source_arn: Option<String>,
    pub event_version: Option<String>,
    pub invoke_identity_arn: Option<String>,
    pub kinesis: KinesisRecord,
}

#[verifier::ext_equal]
pub struct KinesisEventRecordModel {
    pub aws_region: Option<Seq<char>>,
    pub event_id: Option<Seq<char>>,
    pub event_name: Option<Seq<char>>,
    pub event_source: Option<Seq<char>>,
    pub event_source_arn: Option<Seq<char>>,
    pub event_version: Option<Seq<char>>,
    pub invoke_identity_arn: Option<Seq<char>>,
    pub kinesis: KinesisRecordModel,
}

impl DeepView for KinesisEventRecord {
    type V = KinesisEventRecordModel;

    open spec fn deep_view(&self) -> KinesisEventRecordModel {
        KinesisEventRecordModel {
            aws_region: self.aws_region.deep_view(),
            event_id: self.event_id.deep_view(),
            event_name: self.event_name.deep_view(),
            event_source: self.event_source.deep_view(),
            event_source_arn: self.event_source_arn.deep_view(),
            event_version: self.event_version.deep_view(),
            invoke_identity_arn: self.invoke_identity_arn.deep_view(),
            kinesis: self.kinesis.deep_view(),
        }
    }
}

/// The delivered record a tree decodes to, or `None` on a shape error. The
/// `kinesis` member is required.
pub open spec fn kinesis_event_record_of(m: JsonModel) -> Option<KinesisEventRecordModel> {
    if !(m is Obj) {
        None
    } else {
        match (
            opt_str_field(m, "awsRegion"@),
            opt_str_field(m, "eventID"@),
            opt_str_field(m, "eventName"@),
            opt_str_field(m, "eventSource"@),
            opt_str_field(m, "eventSourceARN"@),
            opt_str_field(m, "eventVersion"@),
            opt_str_field(m, "invokeIdentityArn"@),
            tree_get(m, "kinesis"@),
        ) {
            (Some(ar), Some(ei), Some(en), Some(es), Some(ea), Some(ev), Some(ia), Some(km)) => {
                match kinesis_record_of(km) {
                    Some(kr) => Some(
                        KinesisEventRecordModel {
                            aws_region: ar,
                            event_id: ei,
                            event_name: en,
                            event_source: es,
                            event_source_arn: ea,
                            event_version: ev,
                            invoke_identity_arn: ia,
                            kinesis: kr,
                        },
                    ),
                    None => None,
                }
            },
            _ => None,
        }
    }
}

/// The tree a delivered record encodes to.
pub open spec fn kinesis_event_record_tree(q: KinesisEventRecordModel) -> JsonModel {
    JsonModel::Obj(
        seq![
            ("awsRegion"@, opt_str_json(q.aws_region)),
            ("eventID"@, opt_str_json(q.event_id)),
            ("eventName"@, opt_str_json(q.event_name)),
            ("eventSource"@, opt_str_json(q.event_source)),
            ("eventSourceARN"@, opt_str_json(q.event_source_arn)),
            ("eventVersion"@, opt_str_json(q.event_version)),
            ("invokeIdentityArn"@, opt_str_json(q.invoke_identity_arn)),
            ("kinesis"@, kinesis_record_tree(q.kinesis)),
        ],
    )
}

impl KinesisEventRecord {
    /// Decode a delivered record from the tree.
    pub fn decode(t: &JsonValue) -> (r: Option<KinesisEventRecord>)
        ensures
            match kinesis_event_record_of(t.deep_view()) {
                Some(q) => r matches Some(v) && v.deep_view() == q,
                None => r is None,
            },
    {
        match t {
            JsonValue::Obj(_) => {},
            _ => {
                return None;
            },
        }
        let aws_region = match t.opt_string_member("awsRegion") {
            Some(s) => s,
            None => {
                return None;
            },
        };
        let event_id = match t.opt_string_member("eventID") {
            Some(s) => s,
            None => {
                return None;
            },
        };
        let event_name = match t.opt_string_member("eventName") {
            Some(s) => s,
            None => {
                return None;
            },
        };
        let event_source = match t.opt_string_member("eventSource") {
            Some(s) => s,
            None => {
                return None;
            },
        };
        let event_source_arn = match t.opt_string_member("eventSourceARN") {
            Some(s) => s,
            None => {
                return None;
            },
        };
        let event_version = match t.opt_string_member("eventVersion") {
            Some(s) => s,
            None => {
                return None;
            },
        };
        let invoke_identity_arn = match t.opt_string_member("invokeIdentityArn") {
            Some(s) => s,
            None => {
                return None;
            },
        };
        let kinesis = match t.get_key("kinesis") {
            Some(km) => match KinesisRecord::decode(km) {
                Some(kr) => kr,
                None => {
                    return None;
                },
            },
            None => {
                return None;
            },
        };
        Some(
            KinesisEventRecord {
                aws_region,
                event_id,
                event_name,
                event_source,
                event_source_arn,
                event_version,
                invoke_identity_arn,
                kinesis,
            },
        )
    }

    /// Encode this delivered record back to a tree.
    pub fn encode(&self) -> (r: JsonValue)
        ensures
            r.deep_view() == kinesis_event_record_tree(self.deep_view()),
    {
        let mut top: Vec<(String, JsonValue)> = Vec::new();
        top.push((String::from_str("awsRegion"), opt_str_value(&self.aws_region)));
        top.push((String::from_str("eventID"), opt_str_value(&self.event_id)));
        top.push((String::from_str("eventName"), opt_str_value(&self.event_name)));
        top.push((String::from_str("eventSource"), opt_str_value(&self.event_source)));
        top.push((String::from_str("eventSourceARN"), opt_str_value(&self.event_source_arn)));
        top.push((String::from_str("eventVersion"), opt_str_value(&self.event_version)));
        top.push((
            String::from_str("invokeIdentityArn"),
            opt_str_value(&self.invoke_identity_arn),
        ));
        top.push((String::from_str("kinesis"), self.kinesis.encode()));
        let r = JsonValue::Obj(top);
        proof {
            lemma_entries_view(top@);
            assert(r.deep_view()->Obj_0 =~= kinesis_event_record_tree(self.deep_view())->Obj_0);
        }
        r
    }
}

/// The delivered records that a sequence of trees decodes to: defined only
/// when every element decodes.
pub open spec fn kinesis_records_of(items: Seq<JsonModel>) -> Option<Seq<KinesisEventRecordModel>> {
    if forall|i: int|
        0 <= i < items.len() ==> kinesis_event_record_of(#[trigger] items[i]) is Some {
        Some(Seq::new(items.len(), |i: int| kinesis_event_record_of(items[i])->0))
    } else {
        None
    }
}

/// The trees a sequence of delivered records encodes to.
pub open spec fn kinesis_records_trees(rs: Seq<KinesisEventRecordModel>) -> Seq<JsonModel> {
    Seq::new(rs.len(), |i: int| kinesis_event_record_tree(rs[i]))
}

/// A batch of delivered stream records; the wire carries them under
/// `Records`.
#[derive(Debug, Clone, PartialEq, Eq)]
pub struct KinesisEvent {
    pub records: Vec<KinesisEventRecord>,
}

#[verifier::ext_equal]
pub struct KinesisEventModel {
    pub records: Seq<KinesisEventRecordModel>,
}

impl DeepView for KinesisEvent {
    type V = KinesisEventModel;

    open spec fn deep_view(&self) -> KinesisEventModel {
        KinesisEventModel { records: self.records.deep_view() }
    }
}

/// The batch a tree decodes to: `Records` is required and every record of
/// it must decode.
pub open spec fn kinesis_event_of(m: JsonModel) -> Option<KinesisEventModel> {
    if !(m is Obj) {
        None
    } else {
        match tree_get(m, "Records"@) {
            Some(JsonModel::Arr(items)) => match kinesis_records_of(items) {
                Some(rs) => Some(KinesisEventModel { records: rs }),
                None => None,
            },
            _ => None,
        }
    }
}

/// The tree a batch encodes to.
pub open spec fn kinesis_event_tree(q: KinesisEventModel) -> JsonModel {
    JsonModel::Obj(seq![("Records"@, JsonModel::Arr(kinesis_records_trees(q.records)))])
}

impl KinesisEvent {
    /// Decode a batch of delivered records from the tree.
    pub fn decode(t: &JsonValue) -> (r: Option<KinesisEvent>)
        ensures
            match kinesis_event_of(t.deep_view()) {
                Some(q) => r matches Some(v) && v.deep_view() == q,
                None => r is None,
            },
    {
        broadcast use lemma_arr_view;

        match t {
            JsonValue::Obj(_) => {},
            _ => {
                return None;
            },
        }
        let items = match t.get_key("Records") {
            Some(c) => match c {
                JsonValue::Arr(items) => items,
                _ => {
                    return None;
                },
            },
            None => {
                return None;
            },
        };
        let ghost ims = crate::tree::arr_view(items@);
        let mut records: Vec<KinesisEventRecord> = Vec::new();
        let mut i: usize = 0;
        while i < items.len()
            invariant
                0 <= i <= items.len(),
                ims == crate::tree::arr_view(items@),
                ims.len() == items@.len(),
                t.deep_view() is Obj,
                tree_get(t.deep_view(), "Records"@) == Some(JsonModel::Arr(ims)),
                forall|j: int| 0 <= j < items@.len() ==> ims[j] == items@[j].deep_view(),
                records@.len() == i,
                forall|j: int|
                    0 <= j < i ==> kinesis_event_record_of(#[trigger] ims[j]) is Some
                        && records@[j].deep_view() == kinesis_event_record_of(ims[j])->0,
            decreases items.len() - i,
        {
            match KinesisEventRecord::decode(&items[i]) {
                Some(rec) => {
                    records.push(rec);
                },
                None => {
                    proof {
                        assert(!(forall|j: int|
                            0 <= j < ims.len() ==> kinesis_event_record_of(
                                #[trigger] ims[j],
                            ) is Some)) by {
                            assert(kinesis_event_record_of(ims[i as int]) is None);
                        }
                        assert(kinesis_records_of(ims) is None);
                    }
                    return None;
                },
            }
            i = i + 1;
        }
        let result = KinesisEvent { records };
        proof {
            assert(kinesis_records_of(ims) is Some);
            assert(result.deep_view().records =~= kinesis_records_of(ims)->0);
        }
        Some(result)
    }

    /// Encode this batch back to a tree.
    pub fn encode(&self) -> (r: JsonValue)
        ensures
            r.deep_view() == kinesis_event_tree(self.deep_view()),
    {
        broadcast use lemma_arr_view;

        let mut items: Vec<JsonValue> = Vec::new();
        let mut i: usize = 0;
        while i < self.records.len()
            invariant
                0 <= i <= self.records.len(),
                items@.len() == i,
                forall|j: int|
                    0 <= j < i ==> (#[trigger] items@[j].deep_view())
                        == kinesis_event_record_tree(self.records@[j].deep_view()),
            decreases self.records.len() - i,
        {
            items.push(self.records[i].encode());
            i = i + 1;
        }
        let mut top: Vec<(String, JsonValue)> = Vec::new();
        top.push((String::from_str("Records"), JsonValue::Arr(items)));
        let r = JsonValue::Obj(top);
        proof {
            lemma_entries_view(top@);
            assert(crate::tree::arr_view(top@[0].1->Arr_0@) =~= kinesis_records_trees(
                self.deep_view().records,
            ));
            assert(top@[0].1.deep_view() == JsonModel::Arr(
                kinesis_records_trees(self.deep_view().records),
            ));
            assert(r.deep_view()->Obj_0 =~= kinesis_event_tree(self.deep_view())->Obj_0);
        }
        r
    }
}


/// The JSON value of an optional boolean: the boolean, or null when unset.
pub open spec fn opt_bool_json(v: Option<bool>) -> JsonModel {
    match v {
        Some(b) => JsonModel::Bool(b),
        None => JsonModel::Null,
    }
}

fn opt_bool_value(v: &Option<bool>) -> (r: JsonValue)
    ensures
        r.deep_view() == opt_bool_json(v.deep_view()),
{
    match v {
        Some(b) => JsonValue::Bool(*b),
        None => JsonValue::Null,
    }
}

/// One processing window: its start and end instants as wire text.
#[derive(Debug, Clone, PartialEq, Eq)]
pub struct TimeWindow {
    pub start: String,
    pub end: String,
}

#[verifier::ext_equal]
pub struct TimeWindowModel {
    pub start: Seq<char>,
    pub end: Seq<char>,
}

impl DeepView for TimeWindow {
    type V = TimeWindowModel;

    open spec fn deep_view(&self) -> TimeWindowModel {
        TimeWindowModel { start: self.start@, end: self.end@ }
    }
}

/// The window metadata carried beside a batch when time windows are used.
#[derive(Debug, Clone, PartialEq, Eq)]
pub struct TimeWindowProperties {
    pub window: Option<TimeWindow>,
    pub shard_id: Option<String>,
    pub is_final_invoke_for_window: Option<bool>,
    pub is_window_terminated_early: Option<bool>,
}

#[verifier::ext_equal]
pub struct TimeWindowPropertiesModel {
    pub window: Option<TimeWindowModel>,
    pub shard_id: Option<Seq<char>>,
    pub is_final_invoke_for_window: Option<bool>,
    pub is_window_terminated_early: Option<bool>,
}

impl DeepView for TimeWindowProperties {
    type V = TimeWindowPropertiesModel;

    open spec fn deep_view(&self) -> TimeWindowPropertiesModel {
        TimeWindowPropertiesModel {
            window: self.window.deep_view(),
            shard_id: self.shard_id.deep_view(),
            is_final_invoke_for_window: self.is_final_invoke_for_window.deep_view(),
            is_window_terminated_early: self.is_window_terminated_early.deep_view(),
        }
    }
}

/// The window a `window` member decodes to: unset when absent or null, a
/// shape error unless it is an object with `start` and `end` strings.
pub open spec fn window_of(c: Option<JsonModel>) -> Option<Option<TimeWindowModel>> {
    match c {
        None => Some(None),
        Some(JsonModel::Null) => Some(None),
        Some(cm) => if !(cm is Obj) {
            None
        } else {
            match (req_str_field(cm, "start"@), req_str_field(cm, "end"@)) {
                (Some(st), Some(en)) => Some(Some(TimeWindowModel { start: st, end: en })),
                _ => None,
            }
        },
    }
}

/// The window metadata a tree decodes to, or `None` on a shape error.
pub open spec fn time_window_properties_of(m: JsonModel) -> Option<TimeWindowPropertiesModel> {
    if !(m is Obj) {
        None
    } else {
        match (
            window_of(tree_get(m, "window"@)),
            opt_str_field(m, "shardId"@),
            opt_bool_field(m, "isFinalInvokeForWindow"@),
            opt_bool_field(m, "isWindowTerminatedEarly"@),
        ) {
            (Some(w), Some(sh), Some(fi), Some(te)) => Some(
                TimeWindowPropertiesModel {
                    window: w,
                    shard_id: sh,
                    is_final_invoke_for_window: fi,
                    is_window_terminated_early: te,
                },
            ),
            _ => None,
        }
    }
}

pub open spec fn window_tree(w: TimeWindowModel) -> JsonModel {
    JsonModel::Obj(seq![("start"@, JsonModel::Str(w.start)), ("end"@, JsonModel::Str(w.end))])
}

pub open spec fn opt_window_json(w: Option<TimeWindowModel>) -> JsonModel {
    match w {
        Some(wm) => window_tree(wm),
        None => JsonModel::Null,
    }
}

/// A batch together with its window metadata; the wire flattens both into
/// one object.
#[derive(Debug, Clone, PartialEq, Eq)]
pub struct KinesisTimeWindowEvent {
    pub kinesis_event: KinesisEvent,
    pub time_window_properties: TimeWindowProperties,
}

#[verifier::ext_equal]
pub struct KinesisTimeWindowEventModel {
    pub kinesis_event: KinesisEventModel,
    pub time_window_properties: TimeWindowPropertiesModel,
}

impl DeepView for KinesisTimeWindowEvent {
    type V = KinesisTimeWindowEventModel;

    open spec fn deep_view(&self) -> KinesisTimeWindowEventModel {
        KinesisTimeWindowEventModel {
            kinesis_event: self.kinesis_event.deep_view(),
            time_window_properties: self.time_window_properties.deep_view(),
        }
    }
}

/// The windowed batch a tree decodes to: the batch and the window metadata
/// are read from the same object.
pub open spec fn kinesis_time_window_event_of(m: JsonModel) -> Option<
    KinesisTimeWindowEventModel,
> {
    match (kinesis_event_of(m), time_window_properties_of(m)) {
        (Some(e), Some(p)) => Some(
            KinesisTimeWindowEventModel { kinesis_event: e, time_window_properties: p },
        ),
        _ => None,
    }
}

/// The tree a windowed batch encodes to: the batch's records and the
/// window metadata, flattened into one object.
pub open spec fn kinesis_time_window_event_tree(q: KinesisTimeWindowEventModel) -> JsonModel {
    JsonModel::Obj(
        seq![
            ("Records"@, JsonModel::Arr(kinesis_records_trees(q.kinesis_event.records))),
            ("window"@, opt_window_json(q.time_window_properties.window)),
            ("shardId"@, opt_str_json(q.time_window_properties.shard_id)),
            (
                "isFinalInvokeForWindow"@,
                opt_bool_json(q.time_window_properties.is_final_invoke_for_window),
            ),
            (
                "isWindowTerminatedEarly"@,
                opt_bool_json(q.time_window_properties.is_window_terminated_early),
            ),
        ],
    )
}

impl KinesisTimeWindowEvent {
    /// Decode a windowed batch from the tree.
    pub fn decode(t: &JsonValue) -> (r: Option<KinesisTimeWindowEvent>)
        ensures
            match kinesis_time_window_event_of(t.deep_view()) {
                Some(q) => r matches Some(v) && v.deep_view() == q,
                None => r is None,
            },
    {
        let kinesis_event = match KinesisEvent::decode(t) {
            Some(e) => e,
            None => {
                return None;
            },
        };
        match t {
            JsonValue::Obj(_) => {},
            _ => {
                return None;
            },
        }
        let window = match t.get_key("window") {
            None => None,
            Some(c) => match c {
                JsonValue::Null => None,
                JsonValue::Obj(_) => {
                    let start = match c.req_string_member("start") {
                        Some(s) => s,
                        None => {
                            return None;
                        },
                    };
                    let end = match c.req_string_member("end") {
                        Some(s) => s,
                        None => {
                            return None;
                        },
                    };
                    Some(TimeWindow { start, end })
                },
                _ => {
                    return None;
                },
            },
        };
        let shard_id = match t.opt_string_member("shardId") {
            Some(s) => s,
            None => {
                return None;
            },
        };
        let is_final_invoke_for_window = match t.opt_bool_member("isFinalInvokeForWindow") {
            Some(b) => b,
            None => {
                return None;
            },
        };
        let is_window_terminated_early = match t.opt_bool_member("isWindowTerminatedEarly") {
            Some(b) => b,
            None => {
                return None;
            },
        };
        Some(
            KinesisTimeWindowEvent {
                kinesis_event,
                time_window_properties: TimeWindowProperties {
                    window,
                    shard_id,
                    is_final_invoke_for_window,
                    is_window_terminated_early,
                },
            },
        )
    }

    /// Encode this windowed batch back to a tree.
    pub fn encode(&self) -> (r: JsonValue)
        ensures
            r.deep_view() == kinesis_time_window_event_tree(self.deep_view()),
    {
        let enc = self.kinesis_event.encode();
        let records_value = match enc {
            JsonValue::Obj(mut v) => {
                proof {
                    lemma_entries_view(v@);
                    assert(crate::tree::entries_view(v@) == kinesis_event_tree(
                        self.kinesis_event.deep_view(),
                    )->Obj_0);
                    assert(v@.len() == 1);
                    assert(crate::tree::entries_view(v@)[0] == (v@[0].0@, v@[0].1.deep_view()));
                    assert(v@[0].1.deep_view() == JsonModel::Arr(
                        kinesis_records_trees(self.kinesis_event.deep_view().records),
                    ));
                }
                match v.pop() {
                    Some(p) => p.1,
                    None => JsonValue::Null,
                }
            },
            _ => JsonValue::Null,
        };
        proof {
            assert(records_value.deep_view() == JsonModel::Arr(
                kinesis_records_trees(self.deep_view().kinesis_event.records),
            ));
        }
        let window_value = match &self.time_window_properties.window {
            Some(w) => {
                let mut ws: Vec<(String, JsonValue)> = Vec::new();
                ws.push((String::from_str("start"), JsonValue::Str(w.start.clone())));
                ws.push((String::from_str("end"), JsonValue::Str(w.end.clone())));
                let wv = JsonValue::Obj(ws);
                proof {
                    lemma_entries_view(wv->Obj_0@);
                    assert(wv.deep_view()->Obj_0 =~= window_tree(w.deep_view())->Obj_0);
                }
                wv
            },
            None => JsonValue::Null,
        };
        let mut top: Vec<(String, JsonValue)> = Vec::new();
        top.push((String::from_str("Records"), records_value));
        top.push((String::from_str("window"), window_value));
        top.push((
            String::from_str("shardId"),
            opt_str_value(&self.time_window_properties.shard_id),
        ));
        top.push((
            String::from_str("isFinalInvokeForWindow"),
            opt_bool_value(&self.time_window_properties.is_final_invoke_for_window),
        ));
        top.push((
            String::from_str("isWindowTerminatedEarly"),
            opt_bool_value(&self.time_window_properties.is_window_terminated_early),
        ));
        let r = JsonValue::Obj(top);
        proof {
            lemma_entries_view(top@);
            assert(r.deep_view()->Obj_0 =~= kinesis_time_window_event_tree(
                self.deep_view(),
            )->Obj_0);
        }
        r
    }
}

/// The string-valued members that a state object decodes to: defined only
/// when every member is a string.
pub open spec fn str_entries_of(entries: Seq<(Seq<char>, JsonModel)>) -> Option<
    Seq<(Seq<char>, Seq<char>)>,
> {
    if forall|i: int| 0 <= i < entries.len() ==> (#[trigger] entries[i]).1 is Str {
        Some(Seq::new(entries.len(), |i: int| (entries[i].0, entries[i].1->Str_0)))
    } else {
        None
    }
}

/// The state entries as a tree's members.
pub open spec fn str_entries_trees(st: Seq<(Seq<char>, Seq<char>)>) -> Seq<
    (Seq<char>, JsonModel),
> {
    Seq::new(st.len(), |i: int| (st[i].0, JsonModel::Str(st[i].1)))
}

/// The carried-over state a windowed response reports.
#[derive(Debug, Clone, PartialEq, Eq)]
pub struct TimeWindowEventResponseProperties {
    pub state: Vec<(String, String)>,
}

#[verifier::ext_equal]
pub struct TimeWindowEventResponsePropertiesModel {
    pub state: Seq<(Seq<char>, Seq<char>)>,
}

impl DeepView for TimeWindowEventResponseProperties {
    type V = TimeWindowEventResponsePropertiesModel;

    open spec fn deep_view(&self) -> TimeWindowEventResponsePropertiesModel {
        TimeWindowEventResponsePropertiesModel { state: self.state.deep_view() }
    }
}

/// The response properties a tree decodes to: `state` defaults to empty
/// when absent or null, and must otherwise be an object of strings.
pub open spec fn response_properties_of(m: JsonModel) -> Option<
    TimeWindowEventResponsePropertiesModel,
> {
    if !(m is Obj) {
        None
    } else {
        match tree_get(m, "state"@) {
            None => Some(
                TimeWindowEventResponsePropertiesModel { state: Seq::empty() },
            ),
            Some(JsonModel::Null) => Some(
                TimeWindowEventResponsePropertiesModel { state: Seq::empty() },
            ),
            Some(JsonModel::Obj(es)) => match str_entries_of(es) {
                Some(st) => Some(TimeWindowEventResponsePropertiesModel { state: st }),
                None => None,
            },
            Some(_) => None,
        }
    }
}

pub open spec fn response_properties_tree(q: TimeWindowEventResponsePropertiesModel) -> JsonModel {
    JsonModel::Obj(seq![("state"@, JsonModel::Obj(str_entries_trees(q.state)))])
}

/// The outer report of a windowed invocation's outcome.
#[derive(Debug, Clone, PartialEq, Eq)]
pub struct KinesisTimeWindowEventResponse {
    pub time_window_event_response_properties: TimeWindowEventResponseProperties,
}

#[verifier::ext_equal]
pub struct KinesisTimeWindowEventResponseModel {
    pub time_window_event_response_properties: TimeWindowEventResponsePropertiesModel,
}

impl DeepView for KinesisTimeWindowEventResponse {
    type V = KinesisTimeWindowEventResponseModel;

    open spec fn deep_view(&self) -> KinesisTimeWindowEventResponseModel {
        KinesisTimeWindowEventResponseModel {
            time_window_event_response_properties:
                self.time_window_event_response_properties.deep_view(),
        }
    }
}

/// The response a tree decodes to; its properties are flattened into the
/// same object.
pub open spec fn response_of(m: JsonModel) -> Option<KinesisTimeWindowEventResponseModel> {
    match response_properties_of(m) {
        Some(p) => Some(
            KinesisTimeWindowEventResponseModel { time_window_event_response_properties: p },
        ),
        None => None,
    }
}

/// The tree a response encodes to.
pub open spec fn response_tree(q: KinesisTimeWindowEventResponseModel) -> JsonModel {
    response_properties_tree(q.time_window_event_response_properties)
}

impl KinesisTimeWindowEventResponse {
    /// A response carrying no state.
    pub fn new() -> (r: KinesisTimeWindowEventResponse)
        ensures
            r.deep_view().time_window_event_response_properties.state == Seq::<
                (Seq<char>, Seq<char>),
            >::empty(),
    {
        let r = KinesisTimeWindowEventResponse {
            time_window_event_response_properties: TimeWindowEventResponseProperties {
                state: Vec::new(),
            },
        };
        proof {
            assert(r.deep_view().time_window_event_response_properties.state =~= Seq::<
                (Seq<char>, Seq<char>),
            >::empty());
        }
        r
    }

    /// Decode a response from the tree.
    pub fn decode(t: &JsonValue) -> (r: Option<KinesisTimeWindowEventResponse>)
        ensures
            match response_of(t.deep_view()) {
                Some(q) => r matches Some(v) && v.deep_view() == q,
                None => r is None,
            },
    {
        match t {
            JsonValue::Obj(_) => {},
            _ => {
                return None;
            },
        }
        let state_node = match t.get_key("state") {
            None => {
                let r = KinesisTimeWindowEventResponse::new();
                proof {
                    assert(response_of(t.deep_view()) == Some(r.deep_view()));
                }
                return Some(r);
            },
            Some(c) => c,
        };
        match state_node {
            JsonValue::Null => {
                let r = KinesisTimeWindowEventResponse::new();
                proof {
                    assert(response_of(t.deep_view()) == Some(r.deep_view()));
                }
                Some(r)
            },
            JsonValue::Obj(entries) => {
                let ghost em = crate::tree::entries_view(entries@);
                proof {
                    lemma_entries_view(entries@);
                }
                let mut state: Vec<(String, String)> = Vec::new();
                let mut i: usize = 0;
                while i < entries.len()
                    invariant
                        0 <= i <= entries.len(),
                        em == crate::tree::entries_view(entries@),
                        em.len() == entries@.len(),
                        forall|j: int|
                            0 <= j < entries@.len() ==> em[j] == (
                                entries@[j].0@,
                                entries@[j].1.deep_view(),
                            ),
                        t.deep_view() is Obj,
                        tree_get(t.deep_view(), "state"@) == Some(JsonModel::Obj(em)),
                        state@.len() == i,
                        forall|j: int|
                            0 <= j < i ==> (#[trigger] em[j]).1 is Str && state@[j].0@ == em[j].0
                                && state@[j].1@ == em[j].1->Str_0,
                    decreases entries.len() - i,
                {
                    match &entries[i].1 {
                        JsonValue::Str(s) => {
                            state.push((entries[i].0.clone(), s.clone()));
                        },
                        _ => {
                            proof {
                                assert(!(forall|j: int|
                                    0 <= j < em.len() ==> (#[trigger] em[j]).1 is Str)) by {
                                    assert(!(em[i as int].1 is Str));
                                }
                            }
                            return None;
                        },
                    }
                    i = i + 1;
                }
                let r = KinesisTimeWindowEventResponse {
                    time_window_event_response_properties: TimeWindowEventResponseProperties {
                        state,
                    },
                };
                proof {
                    assert(str_entries_of(em) is Some);
                    assert(r.deep_view().time_window_event_response_properties.state =~=
                        str_entries_of(em)->0);
                }
                Some(r)
            },
            _ => None,
        }
    }

    /// Encode this response back to a tree.
    pub fn encode(&self) -> (r: JsonValue)
        ensures
            r.deep_view() == response_tree(self.deep_view()),
    {
        let st = &self.time_window_event_response_properties.state;
        let mut es: Vec<(String, JsonValue)> = Vec::new();
        let mut i: usize = 0;
        while i < st.len()
            invariant
                0 <= i <= st.len(),
                es@.len() == i,
                forall|j: int|
                    0 <= j < i ==> (#[trigger] es@[j].0)@ == st@[j].0@ && es@[j].1.deep_view()
                        == JsonModel::Str(st@[j].1@),
            decreases st.len() - i,
        {
            let key = st[i].0.clone();
            let val = JsonValue::Str(st[i].1.clone());
            proof {
                assert(key@ == st@[i as int].0@);
                assert(val.deep_view() == JsonModel::Str(st@[i as int].1@));
            }
            es.push((key, val));
            proof {
                assert(es@[i as int] == (key, val));
            }
            i = i + 1;
        }
        let state_value = JsonValue::Obj(es);
        proof {
            lemma_entries_view(state_value->Obj_0@);
            assert(state_value.deep_view()->Obj_0 =~= str_entries_trees(
                self.deep_view().time_window_event_response_properties.state,
            ));
        }
        let mut top: Vec<(String, JsonValue)> = Vec::new();
        top.push((String::from_str("state"), state_value));
        let r = JsonValue::Obj(top);
        proof {
            lemma_entries_view(top@);
            assert(r.deep_view()->Obj_0 =~= response_tree(self.deep_view())->Obj_0);
        }
        r
    }
}


/// Law: decoding the tree a record payload encodes to gives back an equal
/// value.
pub proof fn lemma_kinesis_record_round_trip(q: KinesisRecordModel)
    ensures
        kinesis_record_of(kinesis_record_tree(q)) == Some(q),
{
    reveal_strlit("approximateArrivalTimestamp");
    reveal_strlit("data");
    reveal_strlit("encryptionType");
    reveal_strlit("partitionKey");
    reveal_strlit("sequenceNumber");
    reveal_strlit("kinesisSchemaVersion");
    reveal_strlit("NONE");
    reveal_strlit("KMS");
    assert("approximateArrivalTimestamp"@.len() == 27);
    assert("data"@.len() == 4);
    assert("encryptionType"@.len() == 14);
    assert("partitionKey"@.len() == 12);
    assert("sequenceNumber"@.len() == 14);
    assert("kinesisSchemaVersion"@.len() == 20);
    assert("encryptionType"@[0] == 'e' && "sequenceNumber"@[0] == 's');
    assert("NONE"@.len() == 4 && "KMS"@.len() == 3);
    let m = kinesis_record_tree(q);
    let es = m->Obj_0;
    assert(tree_get(m, "approximateArrivalTimestamp"@) == Some(
        JsonModel::Int(q.approximate_arrival_timestamp),
    )) by {
        lemma_entries_get_at(es, "approximateArrivalTimestamp"@, 0);
    }
    assert(tree_get(m, "data"@) == Some(JsonModel::Str(q.data))) by {
        lemma_entries_get_at(es, "data"@, 1);
    }
    assert(tree_get(m, "encryptionType"@) == Some(encryption_json(q.encryption_type))) by {
        lemma_entries_get_at(es, "encryptionType"@, 2);
    }
    assert(tree_get(m, "partitionKey"@) == Some(JsonModel::Str(q.partition_key))) by {
        lemma_entries_get_at(es, "partitionKey"@, 3);
    }
    assert(tree_get(m, "sequenceNumber"@) == Some(JsonModel::Str(q.sequence_number))) by {
        lemma_entries_get_at(es, "sequenceNumber"@, 4);
    }
    assert(tree_get(m, "kinesisSchemaVersion"@) == Some(
        opt_str_json(q.kinesis_schema_version),
    )) by {
        lemma_entries_get_at(es, "kinesisSchemaVersion"@, 5);
    }
    assert(encryption_of(m, "encryptionType"@) == Some(q.encryption_type));
}

/// Law: decoding the tree a delivered record encodes to gives back an
/// equal value.
pub proof fn lemma_kinesis_event_record_round_trip(q: KinesisEventRecordModel)
    ensures
        kinesis_event_record_of(kinesis_event_record_tree(q)) == Some(q),
{
    reveal_strlit("awsRegion");
    reveal_strlit("eventID");
    reveal_strlit("eventName");
    reveal_strlit("eventSource");
    reveal_strlit("eventSourceARN");
    reveal_strlit("eventVersion");
    reveal_strlit("invokeIdentityArn");
    reveal_strlit("kinesis");
    assert("awsRegion"@.len() == 9);
    assert("eventID"@.len() == 7);
    assert("eventName"@.len() == 9);
    assert("eventSource"@.len() == 11);
    assert("eventSourceARN"@.len() == 14);
    assert("eventVersion"@.len() == 12);
    assert("invokeIdentityArn"@.len() == 17);
    assert("kinesis"@.len() == 7);
    assert("awsRegion"@[0] == 'a' && "eventName"@[0] == 'e' && "kinesis"@[0] == 'k');
    let m = kinesis_event_record_tree(q);
    let es = m->Obj_0;
    assert(tree_get(m, "awsRegion"@) == Some(opt_str_json(q.aws_region))) by {
        lemma_entries_get_at(es, "awsRegion"@, 0);
    }
    assert(tree_get(m, "eventID"@) == Some(opt_str_json(q.event_id))) by {
        lemma_entries_get_at(es, "eventID"@, 1);
    }
    assert(tree_get(m, "eventName"@) == Some(opt_str_json(q.event_name))) by {
        lemma_entries_get_at(es, "eventName"@, 2);
    }
    assert(tree_get(m, "eventSource"@) == Some(opt_str_json(q.event_source))) by {
        lemma_entries_get_at(es, "eventSource"@, 3);
    }
    assert(tree_get(m, "eventSourceARN"@) == Some(opt_str_json(q.event_source_arn))) by {
        lemma_entries_get_at(es, "eventSourceARN"@, 4);
    }
    assert(tree_get(m, "eventVersion"@) == Some(opt_str_json(q.event_version))) by {
        lemma_entries_get_at(es, "eventVersion"@, 5);
    }
    assert(tree_get(m, "invokeIdentityArn"@) == Some(opt_str_json(q.invoke_identity_arn))) by {
        lemma_entries_get_at(es, "invokeIdentityArn"@, 6);
    }
    assert(tree_get(m, "kinesis"@) == Some(kinesis_record_tree(q.kinesis))) by {
        lemma_entries_get_at(es, "kinesis"@, 7);
    }
    lemma_kinesis_record_round_trip(q.kinesis);
}

/// Law: decoding the tree a batch encodes to gives back an equal value.
pub proof fn lemma_kinesis_event_round_trip(q: KinesisEventModel)
    ensures
        kinesis_event_of(kinesis_event_tree(q)) == Some(q),
{
    reveal_strlit("Records");
    let m = kinesis_event_tree(q);
    let es = m->Obj_0;
    assert(tree_get(m, "Records"@) == Some(
        JsonModel::Arr(kinesis_records_trees(q.records)),
    )) by {
        lemma_entries_get_at(es, "Records"@, 0);
    }
    let ts = kinesis_records_trees(q.records);
    assert forall|i: int|
        0 <= i < ts.len() implies kinesis_event_record_of(#[trigger] ts[i]) is Some
        && kinesis_event_record_of(ts[i])->0 == q.records[i] by {
        lemma_kinesis_event_record_round_trip(q.records[i]);
    }
    assert(kinesis_records_of(ts) is Some);
    assert(kinesis_records_of(ts)->0 =~= q.records);
}


/// Law: decoding the tree a windowed batch encodes to gives back an equal
/// value.
pub proof fn lemma_kinesis_time_window_event_round_trip(q: KinesisTimeWindowEventModel)
    ensures
        kinesis_time_window_event_of(kinesis_time_window_event_tree(q)) == Some(q),
{
    reveal_strlit("Records");
    reveal_strlit("window");
    reveal_strlit("shardId");
    reveal_strlit("isFinalInvokeForWindow");
    reveal_strlit("isWindowTerminatedEarly");
    reveal_strlit("start");
    reveal_strlit("end");
    assert("Records"@.len() == 7);
    assert("window"@.len() == 6);
    assert("shardId"@.len() == 7);
    assert("isFinalInvokeForWindow"@.len() == 22);
    assert("isWindowTerminatedEarly"@.len() == 23);
    assert("start"@.len() == 5);
    assert("end"@.len() == 3);
    assert("Records"@[0] == 'R' && "shardId"@[0] == 's');
    let m = kinesis_time_window_event_tree(q);
    let es = m->Obj_0;
    assert(tree_get(m, "Records"@) == Some(
        JsonModel::Arr(kinesis_records_trees(q.kinesis_event.records)),
    )) by {
        lemma_entries_get_at(es, "Records"@, 0);
    }
    assert(tree_get(m, "window"@) == Some(opt_window_json(q.time_window_properties.window))) by {
        lemma_entries_get_at(es, "window"@, 1);
    }
    assert(tree_get(m, "shardId"@) == Some(opt_str_json(q.time_window_properties.shard_id))) by {
        lemma_entries_get_at(es, "shardId"@, 2);
    }
    assert(tree_get(m, "isFinalInvokeForWindow"@) == Some(
        opt_bool_json(q.time_window_properties.is_final_invoke_for_window),
    )) by {
        lemma_entries_get_at(es, "isFinalInvokeForWindow"@, 3);
    }
    assert(tree_get(m, "isWindowTerminatedEarly"@) == Some(
        opt_bool_json(q.time_window_properties.is_window_terminated_early),
    )) by {
        lemma_entries_get_at(es, "isWindowTerminatedEarly"@, 4);
    }
    let ts = kinesis_records_trees(q.kinesis_event.records);
    assert forall|i: int|
        0 <= i < ts.len() implies kinesis_event_record_of(#[trigger] ts[i]) is Some
        && kinesis_event_record_of(ts[i])->0 == q.kinesis_event.records[i] by {
        lemma_kinesis_event_record_round_trip(q.kinesis_event.records[i]);
    }
    assert(kinesis_records_of(ts) is Some);
    assert(kinesis_records_of(ts)->0 =~= q.kinesis_event.records);
    match q.time_window_properties.window {
        Some(w) => {
            let wt = window_tree(w);
            assert(tree_get(wt, "start"@) == Some(JsonModel::Str(w.start))) by {
                lemma_entries_get_at(wt->Obj_0, "start"@, 0);
            }
            assert(tree_get(wt, "end"@) == Some(JsonModel::Str(w.end))) by {
                lemma_entries_get_at(wt->Obj_0, "end"@, 1);
            }
        },
        None => {},
    }
}

/// Law: decoding the tree a windowed response encodes to gives back an
/// equal value.
pub proof fn lemma_response_round_trip(q: KinesisTimeWindowEventResponseModel)
    ensures
        response_of(response_tree(q)) == Some(q),
{
    reveal_strlit("state");
    let m = response_tree(q);
    let st = q.time_window_event_response_properties.state;
    assert(tree_get(m, "state"@) == Some(JsonModel::Obj(str_entries_trees(st)))) by {
        lemma_entries_get_at(m->Obj_0, "state"@, 0);
    }
    assert(str_entries_of(str_entries_trees(st)) is Some);
    assert(str_entries_of(str_entries_trees(st))->0 =~= st);
}

} // verus!
