//! The shape of a raw external record, as the decoders read it.
//!
//! A raw record is a tree of text fields, lists and keyed objects. A
//! caller that receives records in some interchange format converts them
//! into this shape at the boundary; everything the decoders do with a
//! record is verified against the tree's model. `Absent` stands for
//! anything a decoder cannot read into: a missing key, a null, a number,
//! a boolean.

use vstd::prelude::*;

verus! {

/// One node of a raw record.
pub enum RawValue {
    /// A missing, null or otherwise unreadable field.
    Absent,
    /// A text field.
    Text(String),
    /// An ordered list of nodes.
    List(Vec<RawValue>),
    /// Keyed fields, in order; lookup takes the first match.
    Object(Vec<(String, RawValue)>),
}

/// Model of a `RawValue`.
pub ghost enum RawModel {
    Absent,
    Text(Seq<char>),
    List(Seq<RawModel>),
    Object(Seq<(Seq<char>, RawModel)>),
}

pub open spec fn raw_model(v: RawValue) -> RawModel
    decreases v,
{
    match v {
        RawValue::Absent => RawModel::Absent,
        RawValue::Text(s) => RawModel::Text(s@),
        RawValue::List(items) => RawModel::List(raw_seq_model(items@)),
        RawValue::Object(pairs) => RawModel::Object(pair_seq_model(pairs@)),
    }
}

pub open spec fn raw_seq_model(s: Seq<RawValue>) -> Seq<RawModel>
    decreases s,
{
    if s.len() == 0 {
        Seq::empty()
    } else {
        raw_seq_model(s.drop_last()).push(raw_model(s.last()))
    }
}

pub open spec fn pair_seq_model(s: Seq<(String, RawValue)>) -> Seq<(Seq<char>, RawModel)>
    decreases s,
{
    if s.len() == 0 {
        Seq::empty()
    } else {
        pair_seq_model(s.drop_last()).push((s.last().0@, raw_model(s.last().1)))
    }
}

/// The value under `key` among ordered pairs: the first match, or
/// `Absent`.
pub open spec fn pairs_get(pairs: Seq<(Seq<char>, RawModel)>, key: Seq<char>) -> RawModel
    decreases pairs.len(),
{
    if pairs.len() == 0 {
        RawModel::Absent
    } else if pairs[0].0 == key {
        pairs[0].1
    } else {
        pairs_get(pairs.drop_first(), key)
    }
}

impl RawModel {
    /// The field under `key`; `Absent` when the node is no object or has
    /// no such key.
    pub open spec fn get(self, key: Seq<char>) -> RawModel {
        match self {
            RawModel::Object(pairs) => pairs_get(pairs, key),
            _ => RawModel::Absent,
        }
    }

    /// The `i`-th element; `Absent` when the node is no list or `i` is
    /// out of range.
    pub open spec fn index(self, i: int) -> RawModel {
        match self {
            RawModel::List(items) => if 0 <= i < items.len() {
                items[i]
            } else {
                RawModel::Absent
            },
            _ => RawModel::Absent,
        }
    }

    /// The node's text, if it is a text field.
    pub open spec fn text(self) -> Option<Seq<char>> {
        match self {
            RawModel::Text(s) => Option::Some(s),
            _ => Option::None,
        }
    }

    /// The node's elements, if it is a list.
    pub open spec fn list(self) -> Option<Seq<RawModel>> {
        match self {
            RawModel::List(items) => Option::Some(items),
            _ => Option::None,
        }
    }
}

/// The model a navigation step starts from: `Absent` when the step
/// before found nothing.
pub open spec fn opt_raw_model(v: Option<&RawValue>) -> RawModel {
    match v {
        Option::None => RawModel::Absent,
        Option::Some(r) => raw_model(*r),
    }
}

pub proof fn lemma_raw_seq_model_index(s: Seq<RawValue>)
    ensures
        raw_seq_model(s).len() == s.len(),
        forall|i: int| 0 <= i < s.len() ==> raw_seq_model(s)[i] == raw_model(s[i]),
    decreases s,
{
    if s.len() > 0 {
        lemma_raw_seq_model_index(s.drop_last());
    }
}

pub proof fn lemma_pair_seq_model_index(s: Seq<(String, RawValue)>)
    ensures
        pair_seq_model(s).len() == s.len(),
        forall|i: int| 0 <= i < s.len() ==> pair_seq_model(s)[i]
            == (s[i].0@, raw_model(s[i].1)),
    decreases s,
{
    if s.len() > 0 {
        lemma_pair_seq_model_index(s.drop_last());
    }
}

proof fn lemma_pairs_get_at(pm: Seq<(Seq<char>, RawModel)>, key: Seq<char>, j: int)
    requires
        0 <= j < pm.len(),
        pm[j].0 == key,
        forall|i: int| 0 <= i < j ==> pm[i].0 != key,
    ensures
        pairs_get(pm, key) == pm[j].1,
    decreases j,
{
    if j > 0 {
        lemma_pairs_get_at(pm.drop_first(), key, j - 1);
    }
}

proof fn lemma_pairs_get_none(pm: Seq<(Seq<char>, RawModel)>, key: Seq<char>)
    requires
        forall|i: int| 0 <= i < pm.len() ==> pm[i].0 != key,
    ensures
        pairs_get(pm, key) == RawModel::Absent,
    decreases pm.len(),
{
    if pm.len() > 0 {
        lemma_pairs_get_none(pm.drop_first(), key);
    }
}

/// One navigation step into a keyed object.
pub fn get_key<'a>(v: Option<&'a RawValue>, key: &str) -> (r: Option<&'a RawValue>)
    ensures
        opt_raw_model(r) == opt_raw_model(v).get(key@),
{
    match v {
        Option::Some(RawValue::Object(pairs)) => {
            let k: String = String::from_str(key);
            let mut j: usize = 0;
            while j < pairs.len()
                invariant
                    j <= pairs@.len(),
                    k@ == key@,
                    opt_raw_model(v) == RawModel::Object(pair_seq_model(pairs@)),
                    forall|i: int| 0 <= i < j ==> pair_seq_model(pairs@)[i].0 != key@,
                decreases pairs@.len() - j,
            {
                proof {
                    lemma_pair_seq_model_index(pairs@);
                }
                if pairs[j].0 == k {
                    proof {
                        lemma_pairs_get_at(pair_seq_model(pairs@), key@, j as int);
                    }
                    return Option::Some(&pairs[j].1);
                }
                j += 1;
            }
            proof {
                lemma_pair_seq_model_index(pairs@);
                lemma_pairs_get_none(pair_seq_model(pairs@), key@);
            }
            Option::None
        },
        _ => Option::None,
    }
}

/// One navigation step into a list.
pub fn get_idx<'a>(v: Option<&'a RawValue>, i: usize) -> (r: Option<&'a RawValue>)
    ensures
        opt_raw_model(r) == opt_raw_model(v).index(i as int),
{
    match v {
        Option::Some(RawValue::List(items)) => {
            proof {
                lemma_raw_seq_model_index(items@);
            }
            if i < items.len() {
                Option::Some(&items[i])
            } else {
                Option::None
            }
        },
        _ => Option::None,
    }
}

/// The text a navigation chain ended on, if any.
pub fn get_text<'a>(v: Option<&'a RawValue>) -> (r: Option<&'a String>)
    ensures
        match r {
            Option::Some(s) => opt_raw_model(v).text() == Option::Some(s@),
            Option::None => opt_raw_model(v).text() is None,
        },
{
    match v {
        Option::Some(RawValue::Text(s)) => Option::Some(s),
        _ => Option::None,
    }
}

/// The list a navigation chain ended on, if any.
pub fn get_list<'a>(v: Option<&'a RawValue>) -> (r: Option<&'a Vec<RawValue>>)
    ensures
        match r {
            Option::Some(items) => opt_raw_model(v).list() == Option::Some(
                raw_seq_model(items@),
            ),
            Option::None => opt_raw_model(v).list() is None,
        },
{
    match v {
        Option::Some(RawValue::List(items)) => Option::Some(items),
        _ => Option::None,
    }
}

} // verus!
