//! The remote provider's own rules: which credentials it needs, how a request
//! is signed, and how a response becomes a lookup record. The HTTP exchange
//! itself is the caller's.

use vstd::prelude::*;
use sha2::Digest;
use crate::config::YoudaoConfig;
use crate::model::{OnlineSource, QueryResult, QuerySource, RecordView, empty_record};
use crate::text::{decimal_of, hex_digit, usize_text};

verus! {

/// The SHA-256 digest of the given bytes.
pub uninterp spec fn sha256_of(data: Seq<u8>) -> Seq<u8>;

/// Relies on sha2::Sha256::digest: a 32-byte digest that depends on the input
/// alone.
#[verifier::external_body]
fn sha256(data: &[u8]) -> (r: Vec<u8>)
    ensures
        r@ == sha256_of(data@),
        r@.len() == 32,
{
    sha2::Sha256::digest(data).to_vec()
}

/// Two lowercase hexadecimal digits per byte, high digit first.
pub open spec fn hex_of(b: Seq<u8>) -> Seq<char>
    decreases b.len(),
{
    if b.len() == 0 {
        Seq::empty()
    } else {
        hex_of(b.drop_last()) + seq![hex_digit(b.last() as int / 16), hex_digit(b.last() as int % 16)]
    }
}

/// Relies on hex::encode: two lowercase digits per byte, in order.
#[verifier::external_body]
fn to_hex(b: &[u8]) -> (r: String)
    ensures
        r@ == hex_of(b@),
{
    hex::encode(b)
}

/// Why the remote provider gave no record.
#[derive(Debug)]
pub enum ProviderError {
    /// A credential is missing.
    NotConfigured(String),
    /// The provider answered with an error code.
    Api(String),
}

/// A credential that is absent or empty.
pub open spec fn missing(o: Option<String>) -> bool {
    match o {
        Some(s) => s@.len() == 0,
        None => true,
    }
}

/// The credentials (application id, application key), or the error that
/// names the first one missing.
pub fn credentials(cfg: &YoudaoConfig) -> (r: Result<(String, String), ProviderError>)
    ensures
        missing(cfg.api_id) ==> (r matches Err(ProviderError::NotConfigured(m))
            && m@ == "Youdao API ID not configured"@),
        !missing(cfg.api_id) && missing(cfg.api_key) ==> (r matches Err(ProviderError::NotConfigured(m))
            && m@ == "Youdao API Key not configured"@),
        !missing(cfg.api_id) && !missing(cfg.api_key) ==> (r matches Ok((id, key))
            && cfg.api_id == Some(id) && cfg.api_key == Some(key)),
{
    let id = match &cfg.api_id {
        Some(s) if s.as_str().unicode_len() > 0 => s.clone(),
        _ => return Err(ProviderError::NotConfigured("Youdao API ID not configured".to_owned())),
    };
    let key = match &cfg.api_key {
        Some(s) if s.as_str().unicode_len() > 0 => s.clone(),
        _ => return Err(ProviderError::NotConfigured("Youdao API Key not configured".to_owned())),
    };
    Ok((id, key))
}

/// The query as it enters the signature: itself up to 20 characters, else
/// its first 10 characters, its length and its last 10 characters.
pub open spec fn sign_input_of(q: Seq<char>) -> Seq<char> {
    if q.len() <= 20 {
        q
    } else {
        q.subrange(0, 10) + decimal_of(q.len()) + q.subrange(q.len() - 10, q.len() as int)
    }
}

/// The query as it enters the signature.
pub fn sign_input(query: &str) -> (r: String)
    ensures
        r@ == sign_input_of(query@),
{
    let n = query.unicode_len();
    if n <= 20 {
        query.to_owned()
    } else {
        let head = query.substring_char(0, 10).to_owned();
        let middle = usize_text(n);
        let tail = query.substring_char(n - 10, n);
        let r = head.concat(middle.as_str()).concat(tail);
        assert(r@ =~= sign_input_of(query@));
        r
    }
}

/// The text that is hashed to sign a request.
pub open spec fn sign_text(id: Seq<char>, input: Seq<char>, salt: Seq<char>, curtime: Seq<char>, key: Seq<char>) -> Seq<char> {
    id + input + salt + curtime + key
}

/// The signature of a request: the hexadecimal SHA-256 of the application
/// id, the signature input of the query, the salt, the time and the key.
pub fn sign(id: &str, query: &str, salt: &str, curtime: &str, key: &str) -> (r: String)
    ensures
        r@ == hex_of(sha256_of(vstd::utf8::encode_utf8(sign_text(id@, sign_input_of(query@), salt@, curtime@, key@)))),
{
    let text = id.to_owned().concat(sign_input(query).as_str()).concat(salt).concat(curtime).concat(key);
    assert(text@ =~= sign_text(id@, sign_input_of(query@), salt@, curtime@, key@));
    let digest = sha256(text.as_str().as_bytes());
    to_hex(digest.as_slice())
}

/// The basic block of a provider response.
#[derive(Debug)]
pub struct BasicInfo {
    pub pronunciation: Option<String>,
    pub explains: Option<Vec<String>>,
}

/// One web translation of a provider response.
#[derive(Debug)]
pub struct WebTranslation {
    pub key: String,
    pub value: Vec<String>,
}

/// A provider response.
#[derive(Debug)]
pub struct YoudaoResponse {
    pub translations: Option<Vec<String>>,
    pub basic: Option<BasicInfo>,
    pub web_translations: Option<Vec<WebTranslation>>,
    pub error_code: String,
}

/// The meaning of a provider error code.
pub open spec fn error_text(code: Seq<char>) -> Seq<char> {
    if code == "101"@ {
        "Missing required parameter"@
    } else if code == "102"@ {
        "Unsupported language type"@
    } else if code == "103"@ {
        "Text too long"@
    } else if code == "104"@ {
        "Unsupported API type"@
    } else if code == "105"@ {
        "Unsupported signature type"@
    } else if code == "106"@ {
        "Unsupported response type"@
    } else if code == "107"@ {
        "Unsupported transmission encryption type"@
    } else if code == "108"@ {
        "Invalid appKey or signature error (check api_key)"@
    } else if code == "109"@ {
        "Invalid batchLog format"@
    } else if code == "110"@ {
        "No related service"@
    } else if code == "111"@ {
        "Developer account is abnormal"@
    } else if code == "201"@ {
        "Decryption failed, check api_key"@
    } else if code == "202"@ {
        "Missing signature"@
    } else if code == "203"@ {
        "Signature verification failed"@
    } else if code == "301"@ {
        "Dictionary query failed"@
    } else if code == "302"@ {
        "Translation query failed"@
    } else if code == "303"@ {
        "Server-side exception"@
    } else if code == "401"@ {
        "Account balance insufficient"@
    } else if code == "411"@ {
        "Access frequency limited"@
    } else {
        "Unknown error"@
    }
}

/// The meaning of a provider error code.
pub fn error_message(code: &str) -> (r: &'static str)
    ensures
        r@ == error_text(code@),
{
    let c = code.to_owned();
    if c == "101".to_owned() {
        "Missing required parameter"
    } else if c == "102".to_owned() {
        "Unsupported language type"
    } else if c == "103".to_owned() {
        "Text too long"
    } else if c == "104".to_owned() {
        "Unsupported API type"
    } else if c == "105".to_owned() {
        "Unsupported signature type"
    } else if c == "106".to_owned() {
        "Unsupported response type"
    } else if c == "107".to_owned() {
        "Unsupported transmission encryption type"
    } else if c == "108".to_owned() {
        "Invalid appKey or signature error (check api_key)"
    } else if c == "109".to_owned() {
        "Invalid batchLog format"
    } else if c == "110".to_owned() {
        "No related service"
    } else if c == "111".to_owned() {
        "Developer account is abnormal"
    } else if c == "201".to_owned() {
        "Decryption failed, check api_key"
    } else if c == "202".to_owned() {
        "Missing signature"
    } else if c == "203".to_owned() {
        "Signature verification failed"
    } else if c == "301".to_owned() {
        "Dictionary query failed"
    } else if c == "302".to_owned() {
        "Translation query failed"
    } else if c == "303".to_owned() {
        "Server-side exception"
    } else if c == "401".to_owned() {
        "Account balance insufficient"
    } else if c == "411".to_owned() {
        "Access frequency limited"
    } else {
        "Unknown error"
    }
}

/// The parts joined, with `sep` between each two.
pub open spec fn joined(parts: Seq<Seq<char>>, sep: Seq<char>) -> Seq<char>
    decreases parts.len(),
{
    if parts.len() == 0 {
        Seq::empty()
    } else if parts.len() == 1 {
        parts[0]
    } else {
        joined(parts.drop_last(), sep) + sep + parts.last()
    }
}

/// Joins texts with a separator.
pub fn join(parts: &Vec<String>, sep: &str) -> (r: String)
    ensures
        r@ == joined(parts.deep_view(), sep@),
{
    let mut out = String::new();
    let mut i: usize = 0;
    while i < parts.len()
        invariant
            i <= parts.len(),
            out@ == joined(parts.deep_view().subrange(0, i as int), sep@),
        decreases parts.len() - i,
    {
        assert(parts.deep_view().subrange(0, i + 1).drop_last() =~= parts.deep_view().subrange(0, i as int));
        if i == 0 {
            out = parts[i].clone();
        } else {
            out = out.concat(sep).concat(parts[i].as_str());
        }
        i = i + 1;
    }
    assert(parts.deep_view().subrange(0, parts.len() as int) =~= parts.deep_view());
    out
}

/// The separator between the values of one web translation.
pub open spec fn web_separator() -> Seq<char> {
    seq![';', ' ']
}

/// The translations of a response: the plain ones, then the explanations.
pub open spec fn response_translations(resp: &YoudaoResponse) -> Seq<Seq<char>> {
    let plain = match resp.translations {
        Some(t) => t.deep_view(),
        None => Seq::empty(),
    };
    match resp.basic {
        Some(b) => match b.explains {
            Some(e) => plain + e.deep_view(),
            None => plain,
        },
        None => plain,
    }
}

/// The examples of a response: each web translation as (key, joined values).
pub open spec fn response_examples(resp: &YoudaoResponse) -> Seq<(Seq<char>, Seq<char>)> {
    match resp.web_translations {
        Some(w) => Seq::new(w@.len(), |i: int| (w@[i].key@, joined(w@[i].value.deep_view(), web_separator()))),
        None => Seq::empty(),
    }
}

/// The record that a successful response gives for `query`.
pub open spec fn response_record(query: Seq<char>, resp: &YoudaoResponse) -> RecordView {
    let translations = response_translations(resp);
    let pronunciation = match resp.basic {
        Some(b) => b.pronunciation.deep_view(),
        None => None,
    };
    let examples = response_examples(resp);
    RecordView {
        found: translations.len() > 0 || pronunciation is Some || examples.len() > 0,
        pronunciation,
        translations,
        examples,
        source: QuerySource::Online(OnlineSource::Youdao),
        ..empty_record(query, false)
    }
}

/// The error message of a response with a failing code.
pub open spec fn api_error_text(code: Seq<char>) -> Seq<char> {
    "Youdao API Error "@ + code + ": "@ + error_text(code)
}

/// Turns a provider response into a record, or into the error its code names.
pub fn interpret_response(query: &str, resp: YoudaoResponse) -> (r: Result<QueryResult, ProviderError>)
    ensures
        resp.error_code@ != "0"@ ==> (r matches Err(ProviderError::Api(m)) && m@ == api_error_text(resp.error_code@)),
        resp.error_code@ == "0"@ ==> (r matches Ok(v) && v@ == response_record(query@, &resp)),
{
    let ghost original = resp;
    if resp.error_code != "0".to_owned() {
        let msg = "Youdao API Error ".to_owned().concat(resp.error_code.as_str()).concat(": ").concat(
            error_message(resp.error_code.as_str()),
        );
        return Err(ProviderError::Api(msg));
    }
    let mut result = QueryResult::new(query.to_owned(), false);
    result.source = QuerySource::Online(OnlineSource::Youdao);
    let mut translations: Vec<String> = match resp.translations {
        Some(t) => t,
        None => Vec::new(),
    };
    assert(translations.deep_view() =~= match original.translations {
        Some(t) => t.deep_view(),
        None => Seq::<Seq<char>>::empty(),
    });
    if let Some(basic) = resp.basic {
        result.pronunciation = basic.pronunciation;
        if let Some(explains) = basic.explains {
            let ghost before = translations.deep_view();
            let mut i: usize = 0;
            while i < explains.len()
                invariant
                    i <= explains.len(),
                    translations.deep_view() == before + explains.deep_view().subrange(0, i as int),
                decreases explains.len() - i,
            {
                let ghost prev = translations.deep_view();
                translations.push(explains[i].clone());
                assert(translations.deep_view() =~= prev.push(explains.deep_view()[i as int]));
                i = i + 1;
                assert(translations.deep_view() =~= before + explains.deep_view().subrange(0, i as int));
            }
            assert(explains.deep_view().subrange(0, explains.len() as int) =~= explains.deep_view());
        }
    }
    result.translations = translations;
    if let Some(web) = resp.web_translations {
        let mut examples: Vec<(String, String)> = Vec::new();
        let mut i: usize = 0;
        while i < web.len()
            invariant
                i <= web.len(),
                examples@.len() == i,
                forall|k: int| 0 <= k < i ==> #[trigger] examples@[k].deep_view()
                    == (web@[k].key@, joined(web@[k].value.deep_view(), web_separator())),
            decreases web.len() - i,
        {
            proof { reveal_strlit("; "); }
            assert("; "@ =~= web_separator());
            let pair = (web[i].key.clone(), join(&web[i].value, "; "));
            examples.push(pair);
            i = i + 1;
        }
        assert(examples.deep_view() =~= response_examples(&original));
        result.examples = examples;
    }
    if result.translations.len() > 0 || result.pronunciation.is_some() || result.examples.len() > 0 {
        result.found = true;
    }
    proof {
        assert(result@.translations == response_translations(&original));
        assert(result@.examples =~= response_examples(&original));
    }
    Ok(result)
}

} // verus!
