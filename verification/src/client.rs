//! The decode half of a refresh fetch.
//!
//! A refresh pass visits the kinds in `refresh_order`, obtains each
//! kind's full current record list from the external store, and decodes
//! it here against the cache: one malformed record yields the kind's
//! default-filled value rather than failing the batch. Only a response
//! without a record list fails, and then the whole batch fails, so a
//! partition is only ever replaced with fully decoded data.

use vstd::prelude::*;
use crate::cache::{lemma_models_of_index, models_of, CacheModel, CacheStorage};
use crate::decode::{
    article_decode, club_decode, event_decode, group_decode, member_decode, sponsor_decode,
};
use crate::model::{
    article_default_model, club_default_model, event_default_model, group_default_model,
    member_default_model, record_model, sponsor_default_model, RecordModel,
};
use crate::raw::{
    get_key, get_list, lemma_raw_seq_model_index, raw_model, raw_seq_model, RawModel, RawValue,
};
use crate::types::{
    Article, Club, Event, Group, Member, NotionData, NotionDataType, Sponsor,
};

verus! {

/// Failure to read a fetched response: it carries no record list.
#[derive(Debug)]
pub struct FetchError {}

/// What one raw batch entry decodes to: the decoded record, or the
/// kind's default-filled record when decoding fails.
pub open spec fn decoded_record(k: NotionDataType, entry: RawModel, cm: CacheModel) -> RecordModel {
    match k {
        NotionDataType::Member => match member_decode(
            entry,
            cm.partition(NotionDataType::Group),
            cm.partition(NotionDataType::Club),
        ) {
            Result::Ok(m) => RecordModel::Member(m),
            Result::Err(_) => RecordModel::Member(member_default_model()),
        },
        NotionDataType::Group => match group_decode(entry, cm.partition(NotionDataType::Member)) {
            Result::Ok(g) => RecordModel::Group(g),
            Result::Err(_) => RecordModel::Group(group_default_model()),
        },
        NotionDataType::Club => match club_decode(entry) {
            Result::Ok(c) => RecordModel::Club(c),
            Result::Err(_) => RecordModel::Club(club_default_model()),
        },
        NotionDataType::Event => match event_decode(entry, cm.partition(NotionDataType::Member)) {
            Result::Ok(e) => RecordModel::Event(e),
            Result::Err(_) => RecordModel::Event(event_default_model()),
        },
        NotionDataType::Article => match article_decode(entry) {
            Result::Ok(a) => RecordModel::Article(a),
            Result::Err(_) => RecordModel::Article(article_default_model()),
        },
        NotionDataType::Sponsor => match sponsor_decode(entry) {
            Result::Ok(s) => RecordModel::Sponsor(s),
            Result::Err(_) => RecordModel::Sponsor(sponsor_default_model()),
        },
    }
}

pub open spec fn batch_decoded(k: NotionDataType, entries: Seq<RawModel>, cm: CacheModel) -> Seq<
    RecordModel,
>
    decreases entries,
{
    if entries.len() == 0 {
        Seq::empty()
    } else {
        batch_decoded(k, entries.drop_last(), cm).push(decoded_record(k, entries.last(), cm))
    }
}

proof fn lemma_batch_decoded_index(k: NotionDataType, entries: Seq<RawModel>, cm: CacheModel)
    ensures
        batch_decoded(k, entries, cm).len() == entries.len(),
        forall|i: int| 0 <= i < entries.len() ==> batch_decoded(k, entries, cm)[i]
            == decoded_record(k, entries[i], cm),
    decreases entries,
{
    if entries.len() > 0 {
        lemma_batch_decoded_index(k, entries.drop_last(), cm);
    }
}

/// Decodes one kind's fetched response against the cache: the response's
/// record list, decoded record by record. Fails exactly when the
/// response has no record list.
pub fn decode_response(
    data_type: &NotionDataType,
    response: &RawValue,
    cache: &CacheStorage,
) -> (r: Result<Vec<NotionData>, FetchError>)
    requires
        cache.wf(),
    ensures
        match r {
            Result::Ok(v) => raw_model(*response).get("results"@).list() is Some && models_of(v@)
                == batch_decoded(
                *data_type,
                raw_model(*response).get("results"@).list()->Some_0,
                cache@,
            ),
            Result::Err(_) => raw_model(*response).get("results"@).list() is None,
        },
{
    let items: &Vec<RawValue> = match get_list(get_key(Option::Some(response), "results")) {
        Option::Some(x) => x,
        Option::None => {
            return Result::Err(FetchError {});
        },
    };
    let mut out: Vec<NotionData> = Vec::new();
    let mut j: usize = 0;
    while j < items.len()
        invariant
            j <= items@.len(),
            out@.len() == j,
            cache.wf(),
            forall|i: int| 0 <= i < j ==> record_model(out@[i]) == decoded_record(
                *data_type,
                raw_seq_model(items@)[i],
                cache@,
            ),
        decreases items@.len() - j,
    {
        proof {
            lemma_raw_seq_model_index(items@);
        }
        let rec: NotionData = match data_type {
            NotionDataType::Member => match Member::from_json(&items[j], cache) {
                Result::Ok(m) => NotionData::Member(m),
                Result::Err(_) => NotionData::Member(Member::default()),
            },
            NotionDataType::Group => match Group::from_json(&items[j], cache) {
                Result::Ok(g) => NotionData::Group(g),
                Result::Err(_) => NotionData::Group(Group::default()),
            },
            NotionDataType::Club => match Club::from_json(&items[j]) {
                Result::Ok(c) => NotionData::Club(c),
                Result::Err(_) => NotionData::Club(Club::default()),
            },
            NotionDataType::Event => match Event::from_json(&items[j], cache) {
                Result::Ok(e) => NotionData::Event(e),
                Result::Err(_) => NotionData::Event(Event::default()),
            },
            NotionDataType::Article => match Article::from_json(&items[j]) {
                Result::Ok(a) => NotionData::Article(a),
                Result::Err(_) => NotionData::Article(Article::default()),
            },
            NotionDataType::Sponsor => match Sponsor::from_json(&items[j]) {
                Result::Ok(s) => NotionData::Sponsor(s),
                Result::Err(_) => NotionData::Sponsor(Sponsor::default()),
            },
        };
        out.push(rec);
        j += 1;
    }
    proof {
        lemma_raw_seq_model_index(items@);
        lemma_models_of_index(out@);
        lemma_batch_decoded_index(*data_type, raw_seq_model(items@), cache@);
        assert(models_of(out@) =~= batch_decoded(*data_type, raw_seq_model(items@), cache@));
    }
    Result::Ok(out)
}

} // verus!
