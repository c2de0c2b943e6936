use vstd::prelude::*;
use crate::text::{contains_text, find_text, occurs, occurs_at, same_text, text_from};

verus! {

/// Paths of the four supported IWADs.
#[derive(Clone, Debug, PartialEq, Eq)]
pub struct IWads {
    pub doom: String,
    pub doom2: String,
    pub tnt: String,
    pub plutonia: String,
}

/// Settings for hosting game servers.
#[derive(Clone, Debug, PartialEq, Eq)]
pub struct DoomConfig {
    pub executable: String,
    pub arguments: String,
    pub base_name: String,
    pub iwads: IWads,
    pub wads_path: String,
    pub idgames_mirror: String,
    /// Seconds a hosted server stays up.
    pub timeout: u64,
}

/// Registers the hosting settings with whatever builds the bot.
pub trait DoomConfigInit: Sized {
    fn register_doom(self) -> Self;
}

impl IWads {
    pub open spec fn path_for(self, name: Seq<char>) -> Option<Seq<char>> {
        if name == "doom"@ {
            Some(self.doom@)
        } else if name == "doom2"@ {
            Some(self.doom2@)
        } else if name == "tnt"@ {
            Some(self.tnt@)
        } else if name == "plutonia"@ {
            Some(self.plutonia@)
        } else {
            None
        }
    }

    /// The IWAD path for a game name; `None` for a name that is not one of
    /// `doom`, `doom2`, `tnt` and `plutonia`.
    pub fn for_name(&self, name: &str) -> (r: Option<String>)
        ensures
            match self.path_for(name@) {
                Some(p) => r matches Some(x) && x@ == p,
                None => r is None,
            },
    {
        if same_text(name, "doom") {
            Some(self.doom.clone())
        } else if same_text(name, "doom2") {
            Some(self.doom2.clone())
        } else if same_text(name, "tnt") {
            Some(self.tnt.clone())
        } else if same_text(name, "plutonia") {
            Some(self.plutonia.clone())
        } else {
            None
        }
    }
}

pub open spec fn idgames_marker() -> Seq<char> {
    "doomworld.com/idgames"@
}

/// The archive of an idgames page on a mirror: what follows the marker,
/// appended to the mirror, with `.zip`.
pub open spec fn idgames_url_spec(url: Seq<char>, mirror: Seq<char>, at: int) -> Seq<char> {
    mirror + url.subrange(at + idgames_marker().len(), url.len() as int) + ".zip"@
}

/// The mirror's download link for an idgames page, taken at the first
/// occurrence of `doomworld.com/idgames`; `None` where there is none.
pub fn get_idgames_download_url(url: &str, mirror: &str) -> (r: Option<String>)
    ensures
        !occurs(url@, idgames_marker()) ==> r is None,
        occurs(url@, idgames_marker()) ==> exists|i: int|
            occurs_at(url@, idgames_marker(), i) && (forall|j: int|
                0 <= j < i ==> !occurs_at(url@, idgames_marker(), j)) && (r matches Some(x) && x@
                == idgames_url_spec(url@, mirror@, i)),
{
    let marker = "doomworld.com/idgames";
    proof {
        reveal_strlit("doomworld.com/idgames");
    }
    match find_text(url, marker) {
        Some(i) => {
            let url_len = url.unicode_len();
            assert(i + marker@.len() <= url_len);
            let rest = text_from(url, i + marker.unicode_len());
            let mut out = String::from_str(mirror);
            out.append(rest.as_str());
            out.append(".zip");
            assert(out@ =~= idgames_url_spec(url@, mirror@, i as int));
            Some(out)
        },
        None => None,
    }
}

/// Name of a hosted server: the base name, followed by the first WAD's file
/// name in parentheses where there is one.
pub fn server_name(base: &str, wad_file: Option<&str>) -> (r: String)
    ensures
        r@ == match wad_file {
            Some(w) => base@ + " ("@ + w@ + ")"@,
            None => base@,
        },
{
    let mut s = String::from_str(base);
    if let Some(w) = wad_file {
        s.append(" (");
        s.append(w);
        s.append(")");
    }
    s
}

#[verifier::external_type_specification]
#[verifier::external_body]
pub struct ExUrl(url::Url);

#[verifier::external_type_specification]
#[verifier::external_body]
pub struct ExUrlParseError(url::ParseError);

/// The serialization that a parsed URL holds.
pub uninterp spec fn url_text(u: url::Url) -> Seq<char>;

/// The serialization of what `Url::parse` makes of the text, if it is an
/// absolute URL.
pub uninterp spec fn url_parsed(s: Seq<char>) -> Option<Seq<char>>;

/// The serialization after `Url::set_query` puts `q` as the query.
pub uninterp spec fn url_with_query(u: Seq<char>, q: Seq<char>) -> Seq<char>;

/// The path segments that `Url::path_segments` gives: `None` where the
/// path does not start with `/` (as for a URL that cannot be a base).
pub uninterp spec fn url_segments(u: Seq<char>) -> Option<Seq<Seq<char>>>;

/// Relies on url's `Url::parse`: success exactly for an absolute URL.
#[verifier::external_body]
fn parse_url(s: &str) -> (r: Result<url::Url, url::ParseError>)
    ensures
        r is Ok <==> url_parsed(s@) is Some,
        r matches Ok(u) ==> url_parsed(s@) == Some(url_text(u)),
{
    url::Url::parse(s)
}

/// Relies on url's `Url::set_query` with a query present.
#[verifier::external_body]
fn set_url_query(u: &mut url::Url, q: &str)
    ensures
        url_text(*final(u)) == url_with_query(url_text(*old(u)), q@),
{
    u.set_query(Some(q))
}

/// Relies on url's `Url::as_str`: the URL's serialization.
#[verifier::external_body]
fn url_string(u: &url::Url) -> (r: String)
    ensures
        r@ == url_text(*u),
{
    u.as_str().to_string()
}

/// Relies on url's `Url::path_segments`, each segment copied out.
#[verifier::external_body]
fn url_path_segments(u: &url::Url) -> (r: Option<Vec<String>>)
    ensures
        match url_segments(url_text(*u)) {
            Some(segs) => r matches Some(v) && v@.len() == segs.len() && forall|i: int|
                0 <= i < segs.len() ==> #[trigger] v@[i]@ == segs[i],
            None => r is None,
        },
{
    u.path_segments().map(|p| p.map(|seg| seg.to_string()).collect())
}

/// A Dropbox share link turned into a direct download: the query becomes
/// `raw=1`. `None` for text that is not an absolute URL.
pub fn get_dropbox_download_url(url: &str) -> (r: Option<String>)
    ensures
        match url_parsed(url@) {
            Some(t) => r matches Some(x) && x@ == url_with_query(t, "raw=1"@),
            None => r is None,
        },
{
    match parse_url(url) {
        Ok(mut u) => {
            set_url_query(&mut u, "raw=1");
            Some(url_string(&u))
        },
        Err(_) => None,
    }
}

pub open spec fn drive_prefix() -> Seq<char> {
    "https://drive.google.com/uc?export=download&id="@
}

/// A Google Drive file page, `/file/d/<id>/view`, turned into a direct
/// download of `<id>`. `None` for text that is not an absolute URL or whose
/// path has fewer than three segments.
pub fn get_google_drive_download_url(url: &str) -> (r: Option<String>)
    ensures
        match url_parsed(url@) {
            Some(t) => match url_segments(t) {
                Some(segs) => if segs.len() >= 3 {
                    r matches Some(x) && x@ == drive_prefix() + segs[2]
                } else {
                    r is None
                },
                None => r is None,
            },
            None => r is None,
        },
{
    let u = match parse_url(url) {
        Ok(u) => u,
        Err(_) => {
            return None;
        },
    };
    let segs = match url_path_segments(&u) {
        Some(v) => v,
        None => {
            return None;
        },
    };
    if segs.len() < 3 {
        return None;
    }
    let mut out = String::from_str("https://drive.google.com/uc?export=download&id=");
    out.append(segs[2].as_str());
    Some(out)
}

pub open spec fn dropbox_marker() -> Seq<char> {
    "dropbox.com"@
}

pub open spec fn drive_marker() -> Seq<char> {
    "drive.google.com"@
}

/// Picks how a WAD link is downloaded: idgames pages go to the mirror,
/// Dropbox and Google Drive links are rewritten, anything else is used as is.
pub fn download_url(url: &str, mirror: &str) -> (r: Option<String>)
    ensures
        occurs(url@, idgames_marker()) ==> exists|i: int|
            occurs_at(url@, idgames_marker(), i) && (forall|j: int|
                0 <= j < i ==> !occurs_at(url@, idgames_marker(), j)) && (r matches Some(x) && x@
                == idgames_url_spec(url@, mirror@, i)),
        !occurs(url@, idgames_marker()) && occurs(url@, dropbox_marker()) ==> match url_parsed(url@) {
            Some(t) => r matches Some(x) && x@ == url_with_query(t, "raw=1"@),
            None => r is None,
        },
        !occurs(url@, idgames_marker()) && !occurs(url@, dropbox_marker()) && occurs(url@, drive_marker())
            ==> match url_parsed(url@) {
            Some(t) => match url_segments(t) {
                Some(segs) => if segs.len() >= 3 {
                    r matches Some(x) && x@ == drive_prefix() + segs[2]
                } else {
                    r is None
                },
                None => r is None,
            },
            None => r is None,
        },
        !occurs(url@, idgames_marker()) && !occurs(url@, dropbox_marker()) && !occurs(url@, drive_marker())
            ==> (r matches Some(x) && x@ == url@),
{
    if contains_text(url, "doomworld.com/idgames") {
        get_idgames_download_url(url, mirror)
    } else if contains_text(url, "dropbox.com") {
        get_dropbox_download_url(url)
    } else if contains_text(url, "drive.google.com") {
        get_google_drive_download_url(url)
    } else {
        Some(String::from_str(url))
    }
}

/// The BLAKE3 digest of the bytes, as lowercase hex.
pub uninterp spec fn blake3_hex(b: Seq<u8>) -> Seq<char>;

/// Relies on blake3's `Hasher::update`, `finalize` and `Hash::to_hex`: the
/// digest of the bytes in 64 hex digits.
#[verifier::external_body]
fn digest_hex(content: &[u8]) -> (r: String)
    ensures
        r@ == blake3_hex(content@),
        r@.len() == 64,
{
    blake3::Hasher::new().update(content).finalize().to_hex().to_string()
}

/// Where an archive whose digest is `hex` is extracted.
pub fn extract_dir(hex: &str) -> (r: String)
    ensures
        r@ == "./tmp/"@ + hex@,
{
    let mut s = String::from_str("./tmp/");
    s.append(hex);
    s
}

/// Where an archive is extracted: a directory named by its digest, so the
/// same archive always lands in the same place.
pub fn extract_dir_for(content: &[u8]) -> (r: String)
    ensures
        r@ == "./tmp/"@ + blake3_hex(content@),
{
    let hex = digest_hex(content);
    extract_dir(hex.as_str())
}

} // verus!
