//! Decisions of the dictionary update: which mirror to download from, and
//! which extracted file holds the legacy database.

use vstd::prelude::*;

verus! {

/// The mirror used inside China, and wherever the location is unknown.
pub const DATA_ZIP_URL_CN: &'static str = "https://gitee.com/void_kmz/kd/releases/download/v0.0.1/kd_data.zip";

/// The mirror used outside China.
pub const DATA_ZIP_URL_GLOBAL: &'static str = "https://raw.githubusercontent.com/Karmenzind/static/main/kd/kd_data.zip";

/// The upper-case form of a text.
pub uninterp spec fn upper_of(s: Seq<char>) -> Seq<char>;

/// Relies on str::to_uppercase: the result depends on the characters alone.
#[verifier::external_body]
fn uppercase(s: &str) -> (r: String)
    ensures
        r@ == upper_of(s@),
{
    s.to_uppercase()
}

/// Where the caller's address was located.
#[derive(Debug)]
pub struct IPInfo {
    pub country: String,
}

/// Whether an upper-case country code is China's.
pub fn is_cn_code(upper: &str) -> (r: bool)
    ensures
        r == (upper@ == "CN"@),
{
    upper.to_owned() == "CN".to_owned()
}

impl IPInfo {
    /// Whether the country code, in upper case, is `CN`.
    pub fn is_cn(&self) -> (r: bool)
        ensures
            r == (upper_of(self.country@) == "CN"@),
    {
        is_cn_code(uppercase(self.country.as_str()).as_str())
    }
}

/// The mirror to download from: the global one when the location was found
/// and is not China, else the Chinese one.
pub fn download_url(location: &Option<IPInfo>) -> (r: &'static str)
    ensures
        r@ == (match location {
            Some(info) => if upper_of(info.country@) == "CN"@ { DATA_ZIP_URL_CN@ } else { DATA_ZIP_URL_GLOBAL@ },
            None => DATA_ZIP_URL_CN@,
        }),
{
    match location {
        Some(info) => if info.is_cn() { DATA_ZIP_URL_CN } else { DATA_ZIP_URL_GLOBAL },
        None => DATA_ZIP_URL_CN,
    }
}

/// The name of the store's own database file.
pub open spec fn store_file_name() -> Seq<char> {
    seq!['k', 'd', '.', 'd', 'b']
}

/// A file holds a legacy database when its name has a stem and the
/// extension `db`, and it is not the store's own file.
pub open spec fn legacy_db_name(name: Seq<char>) -> bool {
    &&& name.len() > 3
    &&& name.subrange(name.len() - 3, name.len() as int) == seq!['.', 'd', 'b']
    &&& name != store_file_name()
}

/// Whether an extracted file, by its name, holds a legacy database.
pub fn is_legacy_db_name(name: &str) -> (r: bool)
    ensures
        r == legacy_db_name(name@),
{
    proof { reveal_strlit("kd.db"); }
    let n = name.unicode_len();
    if n <= 3 {
        return false;
    }
    let ext = name.get_char(n - 3) == '.' && name.get_char(n - 2) == 'd' && name.get_char(n - 1) == 'b';
    assert(ext == (name@.subrange(n - 3, n as int) =~= seq!['.', 'd', 'b']));
    assert("kd.db"@ =~= store_file_name());
    ext && !(name.to_owned() == "kd.db".to_owned())
}

} // verus!
