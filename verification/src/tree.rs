//! The generic tree: an untyped, immutable representation of one parsed JSON
//! document, together with the structural probe that answers presence and
//! shape questions about it.
//!
//! The tree is the single representation that both the probe and the typed
//! decoders work on: a payload is parsed once, and every later question is
//! answered from the same tree.

use vstd::prelude::*;

verus! {

/// The mathematical value of a tree node: what a `JsonValue` holds, with
/// strings as character sequences and vectors as sequences.
#[verifier::ext_equal]
pub enum JsonModel {
    Null,
    Bool(bool),
    Int(i64),
    Str(Seq<char>),
    Arr(Seq<JsonModel>),
    Obj(Seq<(Seq<char>, JsonModel)>),
}

/// One node of a parsed JSON document.
///
/// Numbers are modelled as signed 64-bit integers: a document whose numbers
/// do not fit that range is outside this library's model and is rejected at
/// the parse boundary. An object keeps its members as a sequence of pairs in
/// document order; a well-formed object never repeats a key.
#[derive(Debug, PartialEq, Eq)]
pub enum JsonValue {
    Null,
    Bool(bool),
    Int(i64),
    Str(String),
    Arr(Vec<JsonValue>),
    Obj(Vec<(String, JsonValue)>),
}

/// The values of a sequence of array elements.
pub open spec fn arr_view(s: Seq<JsonValue>) -> Seq<JsonModel>
    decreases s,
{
    if s.len() == 0 {
        Seq::empty()
    } else {
        seq![s[0].deep_view()] + arr_view(s.drop_first())
    }
}

/// The values of a sequence of object members.
pub open spec fn entries_view(s: Seq<(String, JsonValue)>) -> Seq<(Seq<char>, JsonModel)>
    decreases s,
{
    if s.len() == 0 {
        Seq::empty()
    } else {
        seq![(s[0].0@, s[0].1.deep_view())] + entries_view(s.drop_first())
    }
}

impl DeepView for JsonValue {
    type V = JsonModel;

    open spec fn deep_view(&self) -> JsonModel
        decreases self,
    {
        match self {
            JsonValue::Null => JsonModel::Null,
            JsonValue::Bool(b) => JsonModel::Bool(*b),
            JsonValue::Int(n) => JsonModel::Int(*n),
            JsonValue::Str(s) => JsonModel::Str(s@),
            JsonValue::Arr(items) => JsonModel::Arr(arr_view(items@)),
            JsonValue::Obj(entries) => JsonModel::Obj(entries_view(entries@)),
        }
    }
}

/// `arr_view` is the element-wise value of the sequence.
pub broadcast proof fn lemma_arr_view(s: Seq<JsonValue>)
    ensures
        (#[trigger] arr_view(s)).len() == s.len(),
        forall|i: int| 0 <= i < s.len() ==> arr_view(s)[i] == s[i].deep_view(),
    decreases s.len(),
{
    if s.len() > 0 {
        lemma_arr_view(s.drop_first());
        assert(arr_view(s) == seq![s[0].deep_view()] + arr_view(s.drop_first()));
        assert forall|i: int| 0 <= i < s.len() implies arr_view(s)[i] == s[i].deep_view() by {
            if i > 0 {
                assert(arr_view(s)[i] == arr_view(s.drop_first())[i - 1]);
                assert(s.drop_first()[i - 1] == s[i]);
            }
        }
    }
}

/// `entries_view` is the member-wise value of the sequence.
pub broadcast proof fn lemma_entries_view(s: Seq<(String, JsonValue)>)
    ensures
        (#[trigger] entries_view(s)).len() == s.len(),
        forall|i: int|
            0 <= i < s.len() ==> entries_view(s)[i] == (s[i].0@, s[i].1.deep_view()),
    decreases s.len(),
{
    if s.len() > 0 {
        lemma_entries_view(s.drop_first());
        assert(entries_view(s) == seq![(s[0].0@, s[0].1.deep_view())] + entries_view(
            s.drop_first(),
        ));
        assert forall|i: int|
            0 <= i < s.len() implies entries_view(s)[i] == (s[i].0@, s[i].1.deep_view()) by {
            if i > 0 {
                assert(entries_view(s)[i] == entries_view(s.drop_first())[i - 1]);
                assert(s.drop_first()[i - 1] == s[i]);
            }
        }
    }
}

/// A tree is well formed when no object in it repeats a key.
pub open spec fn wf(m: JsonModel) -> bool
    decreases m,
{
    match m {
        JsonModel::Arr(items) => forall|i: int| 0 <= i < items.len() ==> wf(#[trigger] items[i]),
        JsonModel::Obj(entries) => {
            &&& forall|i: int, j: int|
                0 <= i < j < entries.len() ==> (#[trigger] entries[i].0) != (#[trigger] entries[j].0)
            &&& forall|i: int| 0 <= i < entries.len() ==> wf((#[trigger] entries[i]).1)
        },
        _ => true,
    }
}

/// The member of an object with the given key: the first pair that carries
/// it, or `None` when no pair does.
pub open spec fn entries_get(entries: Seq<(Seq<char>, JsonModel)>, key: Seq<char>) -> Option<
    JsonModel,
>
    decreases entries.len(),
{
    if entries.len() == 0 {
        None
    } else if entries[0].0 == key {
        Some(entries[0].1)
    } else {
        entries_get(entries.drop_first(), key)
    }
}

/// The child of `m` under `key`: defined only when `m` is an object that has
/// that key; every other case is `None`.
pub open spec fn tree_get(m: JsonModel, key: Seq<char>) -> Option<JsonModel> {
    match m {
        JsonModel::Obj(entries) => entries_get(entries, key),
        _ => None,
    }
}

/// The child of `m` under `key` when that child is itself an object.
pub open spec fn tree_get_object(m: JsonModel, key: Seq<char>) -> Option<JsonModel> {
    match tree_get(m, key) {
        Some(c) => if c is Obj {
            Some(c)
        } else {
            None
        },
        None => None,
    }
}

/// Whether `m` is an object that has the key.
pub open spec fn tree_has_key(m: JsonModel, key: Seq<char>) -> bool {
    tree_get(m, key) is Some
}


/// The node reached from `m` by following the keys of `path` in order.
pub open spec fn tree_get_path(m: JsonModel, path: Seq<Seq<char>>) -> Option<JsonModel>
    decreases path.len(),
{
    if path.len() == 0 {
        Some(m)
    } else {
        match tree_get(m, path[0]) {
            Some(c) => tree_get_path(c, path.drop_first()),
            None => None,
        }
    }
}

/// Whether following `path` from `m` reaches a node.
pub open spec fn tree_has_path(m: JsonModel, path: Seq<Seq<char>>) -> bool {
    tree_get_path(m, path) is Some
}

/// The keys of a path of string slices.
pub open spec fn path_view(path: Seq<&str>) -> Seq<Seq<char>> {
    Seq::new(path.len(), |i: int| path[i]@)
}

/// An optional string member: `None` is a shape error, `Some(None)` an
/// absent or null member, `Some(Some(s))` the string.
pub open spec fn opt_str_field(m: JsonModel, key: Seq<char>) -> Option<Option<Seq<char>>> {
    match tree_get(m, key) {
        None => Some(None),
        Some(JsonModel::Null) => Some(None),
        Some(JsonModel::Str(s)) => Some(Some(s)),
        Some(_) => None,
    }
}

/// A required string member: `None` when it is absent or not a string.
pub open spec fn req_str_field(m: JsonModel, key: Seq<char>) -> Option<Seq<char>> {
    match tree_get(m, key) {
        Some(JsonModel::Str(s)) => Some(s),
        _ => None,
    }
}

/// A required integer member: `None` when it is absent or not a number.
pub open spec fn req_int_field(m: JsonModel, key: Seq<char>) -> Option<i64> {
    match tree_get(m, key) {
        Some(JsonModel::Int(n)) => Some(n),
        _ => None,
    }
}

/// A string member with an empty default: `None` is a shape error,
/// `Some` the string, empty when the member is absent.
pub open spec fn def_str_field(m: JsonModel, key: Seq<char>) -> Option<Seq<char>> {
    match tree_get(m, key) {
        None => Some(""@),
        Some(JsonModel::Str(s)) => Some(s),
        Some(_) => None,
    }
}

/// An optional boolean member: `None` is a shape error, `Some(None)` an
/// absent or null member, `Some(Some(b))` the boolean.
pub open spec fn opt_bool_field(m: JsonModel, key: Seq<char>) -> Option<Option<bool>> {
    match tree_get(m, key) {
        None => Some(None),
        Some(JsonModel::Null) => Some(None),
        Some(JsonModel::Bool(b)) => Some(Some(b)),
        Some(_) => None,
    }
}

/// `entries_get` finds the pair at `i` when no earlier pair carries the key.
pub proof fn lemma_entries_get_at(entries: Seq<(Seq<char>, JsonModel)>, key: Seq<char>, i: int)
    requires
        0 <= i < entries.len(),
        entries[i].0 == key,
        forall|j: int| 0 <= j < i ==> (#[trigger] entries[j].0) != key,
    ensures
        entries_get(entries, key) == Some(entries[i].1),
    decreases i,
{
    if i == 0 {
    } else {
        assert(entries.drop_first()[i - 1] == entries[i]);
        assert(forall|j: int|
            0 <= j < i - 1 ==> (#[trigger] entries.drop_first()[j].0) == entries[j + 1].0);
        lemma_entries_get_at(entries.drop_first(), key, i - 1);
    }
}

/// `entries_get` finds nothing when no pair carries the key.
pub proof fn lemma_entries_get_none(entries: Seq<(Seq<char>, JsonModel)>, key: Seq<char>)
    requires
        forall|j: int| 0 <= j < entries.len() ==> (#[trigger] entries[j].0) != key,
    ensures
        entries_get(entries, key) is None,
    decreases entries.len(),
{
    if entries.len() == 0 {
    } else {
        assert(forall|j: int|
            0 <= j < entries.len() - 1 ==> (#[trigger] entries.drop_first()[j].0) == entries[j
                + 1].0);
        lemma_entries_get_none(entries.drop_first(), key);
    }
}

/// Relies on `str`'s `PartialEq`: two string slices are equal exactly when
/// their character sequences are.
#[verifier::external_body]
pub(crate) fn str_eq(a: &str, b: &str) -> (r: bool)
    ensures
        r == (a@ == b@),
{
    a == b
}

impl JsonValue {
    /// The member of this node under `key`: `Some` exactly when this node is
    /// an object that has the key.
    pub fn get_key<'a>(&'a self, key: &str) -> (r: Option<&'a JsonValue>)
        ensures
            match r {
                Some(c) => tree_get(self.deep_view(), key@) == Some(c.deep_view()),
                None => tree_get(self.deep_view(), key@) is None,
            },
    {
        match self {
            JsonValue::Obj(entries) => {
                let mut i: usize = 0;
                while i < entries.len()
                    invariant
                        0 <= i <= entries.len(),
                        *self == JsonValue::Obj(*entries),
                        forall|j: int| 0 <= j < i ==> (#[trigger] entries@[j]).0@ != key@,
                    decreases entries.len() - i,
                {
                    if str_eq(entries[i].0.as_str(), key) {
                        proof {
                            lemma_entries_view(entries@);
                            assert(forall|j: int|
                                0 <= j < i ==> (#[trigger] entries_view(entries@)[j]).0
                                    != key@);
                            lemma_entries_get_at(entries_view(entries@), key@, i as int);
                        }
                        return Some(&entries[i].1);
                    }
                    i = i + 1;
                }
                proof {
                    lemma_entries_view(entries@);
                    assert(forall|j: int|
                        0 <= j < entries@.len() ==> (#[trigger] entries_view(entries@)[j]).0
                            != key@);
                    lemma_entries_get_none(entries_view(entries@), key@);
                }
                None
            },
            _ => None,
        }
    }

    /// Whether this node is an object that has the key.
    pub fn has_key(&self, key: &str) -> (r: bool)
        ensures
            r == tree_has_key(self.deep_view(), key@),
    {
        self.get_key(key).is_some()
    }

    /// The member under `key` when that member is itself an object.
    pub fn get_object<'a>(&'a self, key: &str) -> (r: Option<&'a JsonValue>)
        ensures
            match r {
                Some(c) => tree_get_object(self.deep_view(), key@) == Some(c.deep_view()),
                None => tree_get_object(self.deep_view(), key@) is None,
            },
    {
        match self.get_key(key) {
            Some(c) => match c {
                JsonValue::Obj(_) => Some(c),
                _ => None,
            },
            None => None,
        }
    }


    /// The node reached by following the keys of `path` in order, walking
    /// only the named members: absence is an answer, never an error.
    pub fn get_path<'a>(&'a self, path: &[&str]) -> (r: Option<&'a JsonValue>)
        ensures
            match r {
                Some(c) => tree_get_path(self.deep_view(), path_view(path@)) == Some(
                    c.deep_view(),
                ),
                None => tree_get_path(self.deep_view(), path_view(path@)) is None,
            },
    {
        let ghost pv = path_view(path@);
        let mut cur: &JsonValue = self;
        let mut i: usize = 0;
        proof {
            assert(pv.skip(0) =~= pv);
        }
        while i < path.len()
            invariant
                0 <= i <= path@.len(),
                pv == path_view(path@),
                pv.len() == path@.len(),
                forall|j: int| 0 <= j < path@.len() ==> pv[j] == path@[j]@,
                tree_get_path(self.deep_view(), pv) == tree_get_path(
                    cur.deep_view(),
                    pv.skip(i as int),
                ),
            decreases path@.len() - i,
        {
            match cur.get_key(path[i]) {
                Some(c) => {
                    proof {
                        assert(pv.skip(i as int)[0] == pv[i as int]);
                        assert(pv.skip(i as int).drop_first() =~= pv.skip(i as int + 1));
                    }
                    cur = c;
                },
                None => {
                    proof {
                        assert(pv.skip(i as int)[0] == pv[i as int]);
                    }
                    return None;
                },
            }
            i = i + 1;
        }
        proof {
            assert(pv.skip(i as int) =~= Seq::<Seq<char>>::empty());
        }
        Some(cur)
    }

    /// Whether following `path` reaches a node.
    pub fn has_path(&self, path: &[&str]) -> (r: bool)
        ensures
            r == tree_has_path(self.deep_view(), path_view(path@)),
    {
        self.get_path(path).is_some()
    }

    /// The node reached by `path` when that node is an object.
    pub fn get_object_path<'a>(&'a self, path: &[&str]) -> (r: Option<&'a JsonValue>)
        ensures
            match r {
                Some(c) => tree_get_path(self.deep_view(), path_view(path@)) == Some(
                    c.deep_view(),
                ) && c.deep_view() is Obj,
                None => !(tree_get_path(self.deep_view(), path_view(path@)) matches Some(n)
                    && n is Obj),
            },
    {
        match self.get_path(path) {
            Some(c) => match c {
                JsonValue::Obj(_) => Some(c),
                _ => None,
            },
            None => None,
        }
    }

    /// Whether the object reached by `path` has the key: the probe's
    /// question "does the object at this path contain this member".
    pub fn path_has_key(&self, path: &[&str], key: &str) -> (r: bool)
        ensures
            r == (tree_get_path(self.deep_view(), path_view(path@)) matches Some(n)
                && tree_has_key(n, key@)),
    {
        match self.get_path(path) {
            Some(c) => c.has_key(key),
            None => false,
        }
    }

    /// The optional string member under `key`, `None` on a shape error.
    pub fn opt_string_member(&self, key: &str) -> (r: Option<Option<String>>)
        ensures
            match opt_str_field(self.deep_view(), key@) {
                Some(v) => r matches Some(u) && u.deep_view() == v,
                None => r is None,
            },
    {
        match self.get_key(key) {
            None => Some(None),
            Some(c) => match c {
                JsonValue::Null => Some(None),
                JsonValue::Str(s) => Some(Some(s.clone())),
                _ => None,
            },
        }
    }

    /// The required string member under `key`, `None` when it is absent or
    /// not a string.
    pub fn req_string_member(&self, key: &str) -> (r: Option<String>)
        ensures
            match req_str_field(self.deep_view(), key@) {
                Some(v) => r matches Some(u) && u@ == v,
                None => r is None,
            },
    {
        match self.get_key(key) {
            Some(c) => match c {
                JsonValue::Str(s) => Some(s.clone()),
                _ => None,
            },
            None => None,
        }
    }

    /// The required integer member under `key`, `None` when it is absent or
    /// not a number.
    pub fn req_int_member(&self, key: &str) -> (r: Option<i64>)
        ensures
            r == req_int_field(self.deep_view(), key@),
    {
        match self.get_key(key) {
            Some(c) => match c {
                JsonValue::Int(n) => Some(*n),
                _ => None,
            },
            None => None,
        }
    }

    /// The string member under `key` with an empty default, `None` on a
    /// shape error.
    pub fn def_string_member(&self, key: &str) -> (r: Option<String>)
        ensures
            match def_str_field(self.deep_view(), key@) {
                Some(v) => r matches Some(u) && u@ == v,
                None => r is None,
            },
    {
        match self.get_key(key) {
            None => {
                let empty = String::new();
                proof {
                    reveal_strlit("");
                    assert(empty@ =~= ""@);
                }
                Some(empty)
            },
            Some(c) => match c {
                JsonValue::Str(s) => Some(s.clone()),
                _ => None,
            },
        }
    }

    /// The optional boolean member under `key`, `None` on a shape error.
    pub fn opt_bool_member(&self, key: &str) -> (r: Option<Option<bool>>)
        ensures
            r == opt_bool_field(self.deep_view(), key@),
    {
        match self.get_key(key) {
            None => Some(None),
            Some(c) => match c {
                JsonValue::Null => Some(None),
                JsonValue::Bool(b) => Some(Some(*b)),
                _ => None,
            },
        }
    }

    /// Parse one JSON document from the bytes into a tree, or report the
    /// bytes as unparsable.
    pub fn parse(data: &[u8]) -> (r: Option<JsonValue>)
        ensures
            r matches Some(t) ==> crate::trusted::parsed_doc(data@) == Some(t.deep_view())
                && wf(t.deep_view()),
            r is None ==> crate::trusted::parsed_doc(data@) is None,
    {
        crate::trusted::parse_bytes(data)
    }

    /// Print this tree as one JSON document; parsing the result of a
    /// well-formed tree gives back an equal tree.
    pub fn to_bytes(&self) -> (r: Vec<u8>)
        ensures
            r@ == crate::trusted::printed_doc(self.deep_view()),
            wf(self.deep_view()) ==> crate::trusted::parsed_doc(r@) == Some(self.deep_view()),
    {
        crate::trusted::write_json(self)
    }

    /// A copy of this tree with the same mathematical value.
    pub fn deep_copy(&self) -> (r: JsonValue)
        ensures
            r.deep_view() == self.deep_view(),
        decreases self,
    {
        broadcast use lemma_arr_view, lemma_entries_view;

        match self {
            JsonValue::Null => JsonValue::Null,
            JsonValue::Bool(b) => JsonValue::Bool(*b),
            JsonValue::Int(n) => JsonValue::Int(*n),
            JsonValue::Str(s) => JsonValue::Str(s.clone()),
            JsonValue::Arr(items) => {
                let mut out: Vec<JsonValue> = Vec::new();
                let mut i: usize = 0;
                while i < items.len()
                    invariant
                        0 <= i <= items.len(),
                        *self == JsonValue::Arr(*items),
                        out@.len() == i,
                        forall|j: int|
                            0 <= j < i ==> (#[trigger] out@[j].deep_view())
                                == items@[j].deep_view(),
                    decreases items.len() - i,
                {
                    proof {
                        assert(decreases_to!(*self => (*self)->Arr_0));
                        assert((*self)->Arr_0 == *items);
                        assert(decreases_to!(*items => items@));
                        assert(decreases_to!(items@ => items@[i as int]));
                        assert(decreases_to!(*self => items@[i as int]));
                    }
                    out.push(items[i].deep_copy());
                    i = i + 1;
                }
                let result = JsonValue::Arr(out);
                proof {
                    assert(arr_view(out@) =~= arr_view(items@));
                }
                result
            },
            JsonValue::Obj(entries) => {
                let mut out: Vec<(String, JsonValue)> = Vec::new();
                let mut i: usize = 0;
                while i < entries.len()
                    invariant
                        0 <= i <= entries.len(),
                        *self == JsonValue::Obj(*entries),
                        out@.len() == i,
                        forall|j: int|
                            0 <= j < i ==> (#[trigger] out@[j].0)@ == entries@[j].0@
                                && out@[j].1.deep_view() == entries@[j].1.deep_view(),
                    decreases entries.len() - i,
                {
                    proof {
                        assert(decreases_to!(*self => (*self)->Obj_0));
                        assert((*self)->Obj_0 == *entries);
                        assert(decreases_to!(*entries => entries@));
                        assert(decreases_to!(entries@ => entries@[i as int]));
                        assert(decreases_to!(entries@[i as int] => entries@[i as int].1));
                        assert(decreases_to!(*self => entries@[i as int].1));
                    }
                    let pair = (entries[i].0.clone(), entries[i].1.deep_copy());
                    out.push(pair);
                    i = i + 1;
                }
                let result = JsonValue::Obj(out);
                proof {
                    assert(entries_view(out@) =~= entries_view(entries@));
                }
                result
            },
        }
    }
}

} // verus!
