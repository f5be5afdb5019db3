//! The two record shapes served by the API, and the trusted extraction of
//! their raw fields out of a response envelope's `result` array. The wire
//! field names are the camel-cased variants of the record attribute names.
//!
//! What each extractor finds is a function of the body text alone, so the
//! findings carry names (uninterpreted spec functions over the text): the
//! verified envelope decoding downstream is exact over those names.

use vstd::prelude::*;

verus! {

/// A parent region record: a numeric code and a name.
#[derive(Debug)]
pub struct Prefecture {
    pub pref_code: u8,
    pub pref_name: String,
}

/// A sub-region record: the numeric parent code, a string code, a name and
/// a flag string.
#[derive(Debug)]
pub struct City {
    pub pref_code: u8,
    pub city_code: String,
    pub city_name: String,
    pub big_city_flag: String,
}

/// The raw parent records of the envelope in `s`: for each element of its
/// `result` array, in order, the numeric `prefCode` and the string
/// `prefName`. `None` when `s` is not JSON, the `result` array is missing,
/// or some element lacks that shape.
pub uninterp spec fn pref_records_of(s: Seq<char>) -> Option<Seq<(u64, Seq<char>)>>;

/// The raw sub-region records of the envelope in `s`: for each element of
/// its `result` array, in order, the numeric `prefCode` and the strings
/// `cityCode`, `cityName` and `bigCityFlag`. `None` when `s` is not JSON,
/// the `result` array is missing, or some element lacks that shape.
pub uninterp spec fn city_records_of(s: Seq<char>) -> Option<
    Seq<(u64, Seq<char>, Seq<char>, Seq<char>)>,
>;

/// Relies on `serde_json::from_str::<Value>`, `Value::get`,
/// `Value::as_array`, `Value::as_u64` and `Value::as_str`: reads from each
/// element of the envelope's `result` array the numeric `prefCode` and the
/// string `prefName`, in array order; what is found depends on the text
/// alone.
#[verifier::external_body]
pub(crate) fn pref_raw_records(s: &str) -> (r: Option<Vec<(u64, String)>>)
    ensures
        r is Some <==> pref_records_of(s@) is Some,
        r matches Some(v) ==> (pref_records_of(s@) matches Some(m) && v@.len() == m.len() && (
        forall|i: int| 0 <= i < m.len() ==> v@[i].0 == m[i].0 && v@[i].1@ == m[i].1)),
{
    let doc: serde_json::Value = serde_json::from_str(s).ok()?;
    doc.get("result")?.as_array()?.iter().map(
        |v| Some((v.get("prefCode")?.as_u64()?, v.get("prefName")?.as_str()?.to_string())),
    ).collect()
}

/// Relies on `serde_json::from_str::<Value>`, `Value::get`,
/// `Value::as_array`, `Value::as_u64` and `Value::as_str`: reads from each
/// element of the envelope's `result` array the numeric `prefCode` and the
/// strings `cityCode`, `cityName` and `bigCityFlag`, in array order; what
/// is found depends on the text alone.
#[verifier::external_body]
pub(crate) fn city_raw_records(s: &str) -> (r: Option<Vec<(u64, String, String, String)>>)
    ensures
        r is Some <==> city_records_of(s@) is Some,
        r matches Some(v) ==> (city_records_of(s@) matches Some(m) && v@.len() == m.len() && (
        forall|i: int|
            0 <= i < m.len() ==> v@[i].0 == m[i].0 && v@[i].1@ == m[i].1 && v@[i].2@ == m[i].2
                && v@[i].3@ == m[i].3)),
{
    let doc: serde_json::Value = serde_json::from_str(s).ok()?;
    doc.get("result")?.as_array()?.iter().map(
        |v| Some((
            v.get("prefCode")?.as_u64()?,
            v.get("cityCode")?.as_str()?.to_string(),
            v.get("cityName")?.as_str()?.to_string(),
            v.get("bigCityFlag")?.as_str()?.to_string(),
        )),
    ).collect()
}

} // verus!
