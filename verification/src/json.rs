//! An owned JSON document tree and its mathematical model.
//!
//! The gateway never interprets the documents it forwards; it only needs to
//! build small objects and to look fields up by key. `JsonValue` is the
//! executable tree, `JsonModel` is its spec-level shadow, and `JsonValue::model`
//! maps one to the other so that contracts can speak of whole documents.

use vstd::prelude::*;

verus! {

/// An owned JSON value. Objects keep their fields in order; when two fields
/// share a name, lookup takes the first. A non-integral number is carried as
/// the raw bits of its 64-bit binary floating-point form, so that the tree
/// holds plain values only and a round trip through the gateway preserves the
/// number exactly.
#[derive(Debug, PartialEq, Eq)]
pub enum JsonValue {
    Null,
    Bool(bool),
    Int(i64),
    UInt(u64),
    FloatBits(u64),
    Str(String),
    Arr(Vec<JsonValue>),
    Obj(Vec<(String, JsonValue)>),
}

/// The spec-level form of a JSON value: strings as character sequences,
/// arrays and objects as sequences.
#[verifier::ext_equal]
pub enum JsonModel {
    Null,
    Bool(bool),
    Int(i64),
    UInt(u64),
    FloatBits(u64),
    Str(Seq<char>),
    Arr(Seq<JsonModel>),
    Obj(Seq<(Seq<char>, JsonModel)>),
}

impl JsonValue {
    /// The mathematical document this value represents.
    pub open spec fn model(self) -> JsonModel
        decreases self,
    {
        match self {
            JsonValue::Null => JsonModel::Null,
            JsonValue::Bool(b) => JsonModel::Bool(b),
            JsonValue::Int(n) => JsonModel::Int(n),
            JsonValue::UInt(n) => JsonModel::UInt(n),
            JsonValue::FloatBits(bits) => JsonModel::FloatBits(bits),
            JsonValue::Str(s) => JsonModel::Str(s@),
            JsonValue::Arr(items) => JsonModel::Arr(model_items(items)),
            JsonValue::Obj(pairs) => JsonModel::Obj(model_fields(pairs)),
        }
    }
}

/// The models of an array's elements, in order.
pub open spec fn model_items(items: Vec<JsonValue>) -> Seq<JsonModel>
    decreases items,
{
    model_items_seq(items@)
}

/// The models of an object's fields, in order.
pub open spec fn model_fields(pairs: Vec<(String, JsonValue)>) -> Seq<(Seq<char>, JsonModel)>
    decreases pairs,
{
    model_fields_seq(pairs@)
}

/// The models of a sequence of elements, in order.
pub open spec fn model_items_seq(items: Seq<JsonValue>) -> Seq<JsonModel>
    decreases items,
{
    if items.len() == 0 {
        Seq::empty()
    } else {
        model_items_seq(items.drop_last()).push(items.last().model())
    }
}

/// The models of a sequence of fields, in order.
pub open spec fn model_fields_seq(pairs: Seq<(String, JsonValue)>) -> Seq<(Seq<char>, JsonModel)>
    decreases pairs,
{
    if pairs.len() == 0 {
        Seq::empty()
    } else {
        model_fields_seq(pairs.drop_last()).push((pairs.last().0@, pairs.last().1.model()))
    }
}

/// Elementwise reading of `model_items_seq`.
pub proof fn lemma_model_items_seq(items: Seq<JsonValue>)
    ensures
        model_items_seq(items).len() == items.len(),
        forall|i: int| 0 <= i < items.len() ==> #[trigger] model_items_seq(items)[i]
            == items[i].model(),
    decreases items.len(),
{
    if items.len() > 0 {
        lemma_model_items_seq(items.drop_last());
        assert forall|i: int| 0 <= i < items.len() implies #[trigger] model_items_seq(items)[i]
            == items[i].model() by {
            if i < items.len() - 1 {
                assert(items.drop_last()[i] == items[i]);
            } else {
                assert(items.last() == items[i]);
            }
        }
    }
}

/// Elementwise reading of `model_fields_seq`.
pub proof fn lemma_model_fields_seq(pairs: Seq<(String, JsonValue)>)
    ensures
        model_fields_seq(pairs).len() == pairs.len(),
        forall|i: int| 0 <= i < pairs.len() ==> #[trigger] model_fields_seq(pairs)[i]
            == (pairs[i].0@, pairs[i].1.model()),
    decreases pairs.len(),
{
    if pairs.len() > 0 {
        lemma_model_fields_seq(pairs.drop_last());
        assert forall|i: int| 0 <= i < pairs.len() implies #[trigger] model_fields_seq(pairs)[i]
            == (pairs[i].0@, pairs[i].1.model()) by {
            if i < pairs.len() - 1 {
                assert(pairs.drop_last()[i] == pairs[i]);
            } else {
                assert(pairs.last() == pairs[i]);
            }
        }
    }
}

/// The first value bound to `key` in an object's field list, if any.
pub open spec fn model_lookup(pairs: Seq<(Seq<char>, JsonModel)>, key: Seq<char>) -> Option<JsonModel>
    decreases pairs.len(),
{
    if pairs.len() == 0 {
        None
    } else if pairs[0].0 == key {
        Some(pairs[0].1)
    } else {
        model_lookup(pairs.drop_first(), key)
    }
}

/// Field lookup on a document: `None` whenever the document is not an object.
pub open spec fn model_get(doc: JsonModel, key: Seq<char>) -> Option<JsonModel> {
    match doc {
        JsonModel::Obj(pairs) => model_lookup(pairs, key),
        _ => None,
    }
}

/// When `key` first occurs at position `i`, lookup answers that field's value.
proof fn lemma_model_lookup_at(pairs: Seq<(Seq<char>, JsonModel)>, key: Seq<char>, i: int)
    requires
        0 <= i < pairs.len(),
        pairs[i].0 == key,
        forall|j: int| 0 <= j < i ==> (#[trigger] pairs[j]).0 != key,
    ensures
        model_lookup(pairs, key) == Some(pairs[i].1),
    decreases i,
{
    if i > 0 {
        lemma_model_lookup_at(pairs.drop_first(), key, i - 1);
    }
}

/// When `key` occurs in no field, lookup answers nothing.
proof fn lemma_model_lookup_none(pairs: Seq<(Seq<char>, JsonModel)>, key: Seq<char>)
    requires
        forall|j: int| 0 <= j < pairs.len() ==> (#[trigger] pairs[j]).0 != key,
    ensures
        model_lookup(pairs, key) is None,
    decreases pairs.len(),
{
    if pairs.len() > 0 {
        lemma_model_lookup_none(pairs.drop_first(), key);
    }
}

impl JsonValue {
    /// Takes the first field named `key` out of this value: the answer is
    /// exactly what field lookup gives on the value's model, and is `None`
    /// whenever the value is not an object or no field carries the name.
    pub fn take_key(self, key: &String) -> (found: Option<JsonValue>)
        ensures
            match found {
                Some(sub) => model_get(self.model(), key@) == Some(sub.model()),
                None => model_get(self.model(), key@) is None,
            },
    {
        match self {
            JsonValue::Obj(mut pairs) => {
                let ghost orig = pairs;
                proof {
                    lemma_model_fields_seq(pairs@);
                }
                let ghost fields = model_fields_seq(pairs@);
                let mut i: usize = 0;
                while i < pairs.len()
                    invariant
                        i <= pairs@.len(),
                        self == JsonValue::Obj(orig),
                        pairs@ == orig@,
                        fields == model_fields_seq(pairs@),
                        fields.len() == pairs@.len(),
                        forall|j: int| 0 <= j < pairs@.len() ==> #[trigger] model_fields_seq(
                            pairs@,
                        )[j] == (pairs@[j].0@, pairs@[j].1.model()),
                        forall|j: int| 0 <= j < i ==> (#[trigger] model_fields_seq(pairs@)[j]).0
                            != key@,
                    decreases pairs@.len() - i,
                {
                    if pairs[i].0 == *key {
                        proof {
                            assert(fields[i as int].0 == key@);
                            lemma_model_lookup_at(fields, key@, i as int);
                            assert(self.model() == JsonModel::Obj(fields));
                        }
                        let field = pairs.remove(i);
                        proof {
                            assert(field.1.model() == fields[i as int].1);
                        }
                        return Some(field.1);
                    }
                    i += 1;
                }
                proof {
                    lemma_model_lookup_none(fields, key@);
                }
                None
            },
            _ => None,
        }
    }
}

} // verus!
