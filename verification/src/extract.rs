//! Structured-field extraction from the two fetched JSON documents.
//!
//! The documents are read by serde_json behind two trusted extractors;
//! everything downstream of the extracted fields is verified.

use vstd::prelude::*;

use crate::errors::ParseError;

verus! {

/// The metadata document's fields: login, blog, public repository count.
pub struct GithubInfo {
    pub login: Vec<u8>,
    pub blog: Vec<u8>,
    pub public_repos: u32,
}

/// The price document's fields: asset name and decimal price string.
pub struct DotPriceInfo {
    pub name: Vec<u8>,
    pub usd: Vec<u8>,
}

/// The `login` and `blog` strings and the 32-bit `public_repos` count
/// serde_json reads at the top level of a metadata document; absent when
/// the bytes are not such a document. Deterministic in the bytes.
pub uninterp spec fn metadata_fields(body: Seq<u8>) -> Option<(Seq<u8>, Seq<u8>, u32)>;

/// The strings serde_json reads at `data.name` and `data.priceUsd` of a
/// price document; absent when the bytes are not such a document.
/// Deterministic in the bytes.
pub uninterp spec fn price_fields(body: Seq<u8>) -> Option<(Seq<u8>, Seq<u8>)>;

/// Relies on serde_json: `from_slice` to a `Value`, then `Value::get`
/// and `as_str` down the fixed paths `data.name` and `data.priceUsd`.
#[verifier::external_body]
fn extract_price_fields(body: &Vec<u8>) -> (r: Option<(Vec<u8>, Vec<u8>)>)
    ensures
        match r {
            Some(p) => price_fields(body@) == Some((p.0@, p.1@)),
            None => price_fields(body@) is None,
        },
{
    let v: serde_json::Value = serde_json::from_slice(body).ok()?;
    let name = v.get("data")?.get("name")?.as_str()?;
    let usd = v.get("data")?.get("priceUsd")?.as_str()?;
    Some((name.as_bytes().to_vec(), usd.as_bytes().to_vec()))
}

/// Relies on serde_json: `from_slice` to a `Value`, `Value::get` and
/// `as_str` for `login` and `blog`, and `as_u64` for `public_repos`,
/// converted to the 32 bits the document schema allows.
#[verifier::external_body]
fn extract_metadata_fields(body: &Vec<u8>) -> (r: Option<(Vec<u8>, Vec<u8>, u32)>)
    ensures
        match r {
            Some(t) => metadata_fields(body@) == Some((t.0@, t.1@, t.2)),
            None => metadata_fields(body@) is None,
        },
{
    let v: serde_json::Value = serde_json::from_slice(body).ok()?;
    let login = v.get("login")?.as_str()?.as_bytes().to_vec();
    let blog = v.get("blog")?.as_str()?.as_bytes().to_vec();
    let repos: u32 = v.get("public_repos")?.as_u64()?.try_into().ok()?;
    Some((login, blog, repos))
}

/// Read a price document's fields; bytes of any other shape are
/// malformed.
pub fn parse_price_document(body: &Vec<u8>) -> (r: Result<DotPriceInfo, ParseError>)
    ensures
        match r {
            Ok(info) => price_fields(body@) matches Some(f) && info.name@ == f.0 && info.usd@
                == f.1,
            Err(e) => e == ParseError::Malformed && price_fields(body@) is None,
        },
{
    match extract_price_fields(body) {
        Some(fields) => {
            let (name, usd) = fields;
            Ok(DotPriceInfo { name, usd })
        },
        None => Err(ParseError::Malformed),
    }
}

/// Read a metadata document's fields; bytes of any other shape are
/// malformed.
pub fn parse_metadata_document(body: &Vec<u8>) -> (r: Result<GithubInfo, ParseError>)
    ensures
        match r {
            Ok(info) => metadata_fields(body@) matches Some(f) && info.login@ == f.0 && info.blog@
                == f.1 && info.public_repos == f.2,
            Err(e) => e == ParseError::Malformed && metadata_fields(body@) is None,
        },
{
    match extract_metadata_fields(body) {
        Some(fields) => {
            let (login, blog, public_repos) = fields;
            Ok(GithubInfo { login, blog, public_repos })
        },
        None => Err(ParseError::Malformed),
    }
}

} // verus!
