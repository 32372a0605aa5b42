//! Turning a record's raw file metadata into the normalized download
//! manifest: the listing URL, the response dispatch, and the per-entry
//! normalization that strips the algorithm tag from each declared checksum.
//!
//! The application issues the HTTP request and decodes the JSON body into
//! [`ZenodoMetaData`]; everything decided on that data is verified here.

use vstd::prelude::*;
use vstd::string::StringExecFns;

verus! {

/// Start of the listing URL for a record's files.
pub const ZENODO_API_BASE_URL: &'static str = "https://zenodo.org/api/records/";

/// End of the listing URL for a record's files.
pub const ZENODO_API_BASE_URL_SUFFIX: &'static str = "/files";

/// The links of one raw metadata entry that this library reads: the content
/// download URL. All other raw link fields are ignored.
pub struct Links {
    /// URL from which the file's bytes are downloaded.
    pub content: String,
}

/// One raw metadata entry, reduced to the fields this library reads; all
/// other raw fields are ignored.
pub struct DataEntry {
    /// Declared checksum, in the form `algorithm:hexdigest`.
    pub checksum: String,
    /// The file's name.
    pub key: String,
    /// The entry's links.
    pub links: Links,
    /// Declared size of the file in bytes.
    pub size: u64,
}

/// A record's raw file metadata as the listing endpoint reports it.
pub struct ZenodoMetaData {
    /// Whether the record's file listing is enabled.
    pub enabled: bool,
    /// The raw entries, when the response carried any.
    pub entries: Option<Vec<DataEntry>>,
}

/// One normalized manifest entry.
pub struct FileData {
    /// Name of the file, used as the download target's file name.
    pub filename: String,
    /// Declared checksum with the algorithm tag stripped: the hex digest.
    pub checksum: String,
    /// URL from which the file is downloaded.
    pub url: String,
    /// Declared size of the file in bytes.
    pub size: u64,
}

/// The normalized manifest: the ordered files of one record, or a sentinel
/// when no usable data is available.
pub struct FileList {
    /// Whether the record has usable files; when false the download phase is
    /// skipped entirely.
    pub data_available: bool,
    /// The files, in the order the listing endpoint returned them.
    pub file_list: Vec<FileData>,
}

/// Whether raw metadata yields a usable manifest: the listing is enabled and
/// carries at least one entry.
pub open spec fn manifest_available(m: ZenodoMetaData) -> bool {
    &&& m.enabled
    &&& m.entries matches Some(es) && es@.len() > 0
}

/// A declared checksum with everything up to and including the first `:`
/// stripped: the part before it is an algorithm tag. A string without `:` is
/// kept whole (a defensive fallback, not an expected shape).
pub open spec fn strip_algorithm(s: Seq<char>) -> Seq<char> {
    match s.index_of_first(':') {
        Some(i) => s.subrange(i + 1, s.len() as int),
        None => s,
    }
}

/// How one normalized manifest entry relates to the raw entry it came from.
pub open spec fn entry_normalized(e: DataEntry, f: FileData) -> bool {
    &&& f.filename@ == e.key@
    &&& f.checksum@ == strip_algorithm(e.checksum@)
    &&& f.url@ == e.links.content@
    &&& f.size == e.size
}

/// How the normalized manifest relates to the raw entries: same length, same
/// order, each entry normalized.
pub open spec fn normalized_list(es: Seq<DataEntry>, fs: Seq<FileData>) -> bool {
    &&& fs.len() == es.len()
    &&& forall|i: int| 0 <= i < es.len() ==> entry_normalized(es[i], #[trigger] fs[i])
}

/// The sentinel manifest body standing for "no usable data": one entry whose
/// fields all read "empty".
pub open spec fn sentinel_list(fs: Seq<FileData>) -> bool {
    &&& fs.len() == 1
    &&& fs[0].filename@ == "empty"@
    &&& fs[0].checksum@ == "empty"@
    &&& fs[0].url@ == "empty"@
    &&& fs[0].size == 0
}

/// Builds the listing URL for a record: the fixed base, the record id, and
/// the fixed suffix.
pub fn build_record_url(record_id: &str) -> (url: String)
    ensures
        url@ == ZENODO_API_BASE_URL@ + record_id@ + ZENODO_API_BASE_URL_SUFFIX@,
{
    let mut url: String = ZENODO_API_BASE_URL.to_owned();
    url.append(record_id);
    url.append(ZENODO_API_BASE_URL_SUFFIX);
    proof {
        assert(url@ =~= ZENODO_API_BASE_URL@ + record_id@ + ZENODO_API_BASE_URL_SUFFIX@);
    }
    url
}

/// The metadata standing for "nothing usable was received".
pub fn unavailable_meta() -> (m: ZenodoMetaData)
    ensures
        !m.enabled,
        m.entries is None,
        !manifest_available(m),
{
    ZenodoMetaData { enabled: false, entries: None }
}

/// Dispatches on the listing response: only status 200 with a decodable body
/// yields usable metadata, and `error` records whether body handling failed.
/// `body` is the decoded JSON body, `None` when reading or decoding it failed;
/// it is only consulted when the status is 200, and on any other status
/// `error` keeps the value the caller set.
pub fn parse_json_response(status: u16, body: Option<ZenodoMetaData>, error: &mut bool) -> (m:
    ZenodoMetaData)
    ensures
        status == 200 && body is Some ==> m == body.unwrap() && !*final(error),
        status == 200 && body is None ==> !m.enabled && m.entries is None && *final(error),
        status != 200 ==> !m.enabled && m.entries is None && *final(error) == *old(error),
{
    if status == 200 {
        match body {
            Some(parsed) => {
                *error = false;
                parsed
            },
            None => {
                *error = true;
                unavailable_meta()
            },
        }
    } else {
        unavailable_meta()
    }
}

/// Finds the first `:` in a string, by character position.
fn find_colon(s: &str) -> (r: Option<usize>)
    ensures
        r matches Some(i) ==> i < s@.len() && s@[i as int] == ':' && (forall|j: int|
            0 <= j < i ==> s@[j] != ':'),
        r is None ==> forall|j: int| 0 <= j < s@.len() ==> s@[j] != ':',
{
    let n = s.unicode_len();
    let mut i: usize = 0;
    while i < n
        invariant
            i <= n,
            n == s@.len(),
            forall|j: int| 0 <= j < i ==> s@[j] != ':',
        decreases n - i,
    {
        if s.get_char(i) == ':' {
            return Some(i);
        }
        i = i + 1;
    }
    None
}

/// Strips the algorithm tag from a declared checksum: everything up to and
/// including the first `:`. Without a `:` the string is returned whole.
pub fn normalize_checksum(checksum: &str) -> (r: String)
    ensures
        r@ == strip_algorithm(checksum@),
{
    proof {
        checksum@.index_of_first_ensures(':');
    }
    match find_colon(checksum) {
        Some(i) => {
            proof {
                assert(checksum@.contains(':'));
                let idx = checksum@.index_of_first(':').unwrap();
                assert(checksum@[idx] == ':');
                assert(idx == i as int);
            }
            let n = checksum.unicode_len();
            checksum.substring_char(i + 1, n).to_owned()
        },
        None => {
            proof {
                if checksum@.contains(':') {
                    let idx = checksum@.index_of_first(':').unwrap();
                    assert(checksum@[idx] == ':');
                }
            }
            checksum.to_owned()
        },
    }
}

/// Builds the normalized manifest from raw metadata. When the listing is
/// enabled and carries entries, each is normalized in order; otherwise the
/// sentinel manifest with `data_available == false` is returned.
pub fn create_file_list(meta_data: &ZenodoMetaData) -> (r: FileList)
    ensures
        r.data_available == manifest_available(*meta_data),
        manifest_available(*meta_data) ==> normalized_list(
            meta_data.entries.unwrap()@,
            r.file_list@,
        ),
        !manifest_available(*meta_data) ==> sentinel_list(r.file_list@),
{
    let mut file_list_tmp: Vec<FileData> = Vec::new();
    if meta_data.enabled {
        match &meta_data.entries {
            Some(entries) => {
                let n = entries.len();
                let mut i: usize = 0;
                while i < n
                    invariant
                        i <= n,
                        n == entries@.len(),
                        file_list_tmp@.len() == i,
                        forall|j: int|
                            0 <= j < i ==> entry_normalized(entries@[j], #[trigger] file_list_tmp@[j]),
                    decreases n - i,
                {
                    let e = &entries[i];
                    let fd = FileData {
                        filename: e.key.clone(),
                        checksum: normalize_checksum(e.checksum.as_str()),
                        url: e.links.content.clone(),
                        size: e.size,
                    };
                    file_list_tmp.push(fd);
                    i = i + 1;
                }
            },
            None => {},
        }
    }
    if file_list_tmp.len() > 0 {
        FileList { data_available: true, file_list: file_list_tmp }
    } else {
        let mut sentinel: Vec<FileData> = Vec::new();
        sentinel.push(
            FileData {
                filename: "empty".to_owned(),
                checksum: "empty".to_owned(),
                url: "empty".to_owned(),
                size: 0u64,
            },
        );
        FileList { data_available: false, file_list: sentinel }
    }
}

} // verus!
