//! The storage proxy: what is asked of the object store for each operation,
//! and what is made of its answers.
//!
//! Every object lives under one fixed folder of the bucket. A filename
//! becomes an object key by putting the folder in front of it; a key that
//! the store lists becomes a filename again by taking the folder away. The
//! calls to the store themselves are made by the caller: the functions here
//! say what to send and how to read what comes back.

use crate::text::{chars_of, range_starts_with};
use vstd::prelude::*;
use vstd::string::{StrSliceExecFns, StringExecFns};

verus! {

/// The folder of the bucket that holds every object.
pub const BASE_PATH: &'static str = "content/md";

/// What a listing shows where the store gives no modification time.
pub const UNKNOWN_TIME: &'static str = "Unknown";

/// The content type of an object for which none is given.
pub const DEFAULT_CONTENT_TYPE: &'static str = "application/octet-stream";

/// The folder, followed by `/`: what every object key begins with.
pub open spec fn namespace() -> Seq<char> {
    "content/md"@ + "/"@
}

/// The object key of a filename.
pub open spec fn full_path(filename: Seq<char>) -> Seq<char> {
    namespace() + filename
}

/// The filename of an object key: the key without the folder in front, or
/// the key itself where it does not lie in the folder.
pub open spec fn stripped(key: Seq<char>) -> Seq<char> {
    if namespace().is_prefix_of(key) {
        key.skip(namespace().len() as int)
    } else {
        key
    }
}

/// The prefix that a listing asks the store for: the folder, followed by
/// what the caller asked for.
pub open spec fn list_prefix(prefix: Option<Seq<char>>) -> Seq<char> {
    match prefix {
        Some(p) => full_path(p),
        None => namespace(),
    }
}

/// A limit as the store takes it: the low 32 bits of the number, read as a
/// signed integer.
pub open spec fn max_keys_of(limit: int) -> int {
    let low = limit % 0x1_0000_0000;
    if low < 0x8000_0000 {
        low
    } else {
        low - 0x1_0000_0000
    }
}

/// A size as a listing shows it: the 64 bits of the store's number, read as
/// an unsigned integer; zero where the store gives none.
pub open spec fn size_of(size: Option<i64>) -> int {
    match size {
        Some(s) => if s >= 0 {
            s as int
        } else {
            s + 0x1_0000_0000_0000_0000
        },
        None => 0,
    }
}

/// One entry of a listing.
#[derive(Debug, Clone)]
pub struct FileInfo {
    pub name: String,
    pub size: u64,
    pub last_modified: String,
}

/// One object as the store lists it. Each part may be missing.
#[derive(Debug, Clone)]
pub struct RemoteObject {
    pub key: Option<String>,
    pub size: Option<i64>,
    /// The time of the last change, written out.
    pub last_modified: Option<String>,
}

/// What a listing asks of the store.
#[derive(Debug, Clone)]
pub struct ListRequest {
    pub prefix: String,
    /// The most entries that the store may answer with, if there is a cap.
    pub max_keys: Option<i32>,
}

/// What an upload asks of the store: to put `body` at `key`, in place of
/// whatever is there.
#[derive(Debug, Clone)]
pub struct PutRequest {
    pub key: String,
    pub body: Vec<u8>,
    pub content_type: String,
}

/// What the store answers to a download.
#[derive(Debug, Clone)]
pub struct GetReply {
    pub content_type: Option<String>,
    pub body: Vec<u8>,
}

/// What an upload asks of the store, as `(key, body, content type)`: the
/// bytes and the content type as they were given, at the key of the
/// filename.
pub open spec fn put_request(filename: Seq<char>, data: Seq<u8>, content_type: Seq<char>) -> (
    Seq<char>,
    Seq<u8>,
    Seq<char>,
) {
    (full_path(filename), data, content_type)
}

/// What a download hands back, as `(bytes, content type)`, for what the
/// store answered: the bytes as they came, and the content type, or the
/// default where the store names none.
pub open spec fn download_of(content_type: Option<Seq<char>>, body: Seq<u8>) -> (
    Seq<u8>,
    Seq<char>,
) {
    (
        body,
        match content_type {
            Some(given) => given,
            None => "application/octet-stream"@,
        },
    )
}

/// `info` is the listing entry of `object`.
pub open spec fn describes(info: FileInfo, object: RemoteObject) -> bool {
    &&& info.name@ == stripped(
        match object.key {
            Some(key) => key@,
            None => Seq::<char>::empty(),
        },
    )
    &&& info.size == size_of(object.size)
    &&& info.last_modified@ == match object.last_modified {
        Some(time) => time@,
        None => "Unknown"@,
    }
}

/// The folder described by `namespace` is the text `content/md/`.
pub proof fn lemma_namespace_text()
    ensures
        namespace() == "content/md/"@,
        namespace().len() == 11,
{
    reveal_strlit("content/md");
    reveal_strlit("/");
    reveal_strlit("content/md/");
    assert(namespace() =~= "content/md/"@);
}

/// Taking the folder away from the key of a filename gives the filename
/// back, whatever the filename holds.
pub proof fn lemma_strip_full_path(filename: Seq<char>)
    ensures
        stripped(full_path(filename)) == filename,
{
    let key = full_path(filename);
    assert(key.subrange(0, namespace().len() as int) =~= namespace());
    assert(key.skip(namespace().len() as int) =~= filename);
}

/// The key of a filename lies exactly one folder deep: it is the folder
/// followed by the filename, also where the filename itself begins with the
/// folder's text, and only one layer comes off when the folder is taken
/// away.
pub proof fn lemma_single_namespace_layer(filename: Seq<char>)
    ensures
        full_path(filename).len() == namespace().len() + filename.len(),
        namespace().is_prefix_of(full_path(filename)),
        stripped(full_path(full_path(filename))) == full_path(filename),
{
    let key = full_path(filename);
    assert(key.subrange(0, namespace().len() as int) =~= namespace());
    lemma_strip_full_path(key);
}

/// Two filenames share an object key only where they are the same.
pub proof fn lemma_full_path_injective(a: Seq<char>, b: Seq<char>)
    requires
        full_path(a) == full_path(b),
    ensures
        a == b,
{
    lemma_strip_full_path(a);
    lemma_strip_full_path(b);
}

/// The address of the store's endpoint for an account.
pub open spec fn endpoint_of(account_id: Seq<char>) -> Seq<char> {
    "https://"@ + account_id + ".r2.cloudflarestorage.com"@
}

/// The address of the store's endpoint for the account `account_id`.
pub fn endpoint_url(account_id: &str) -> (url: String)
    ensures
        url@ == endpoint_of(account_id@),
{
    let mut url = String::from_str("https://");
    url.append(account_id);
    url.append(".r2.cloudflarestorage.com");
    url
}

/// The object key of `filename`.
pub fn get_full_path(filename: &str) -> (path: String)
    ensures
        path@ == full_path(filename@),
{
    let mut path = String::from_str(BASE_PATH);
    path.append("/");
    path.append(filename);
    assert(path@ =~= full_path(filename@));
    path
}

/// The filename of the object key `key`.
pub fn strip_base_path(key: &str) -> (name: String)
    ensures
        name@ == stripped(key@),
{
    let chars = chars_of(key);
    let prefix = chars_of("content/md/");
    proof {
        lemma_namespace_text();
        assert(chars@.subrange(0, chars.len() as int) =~= key@);
    }
    if range_starts_with(&chars, 0, chars.len(), &prefix) {
        String::from_str(key.substring_char(prefix.len(), chars.len()))
    } else {
        String::from_str(key)
    }
}

/// Turns a limit into the number that the store takes.
pub fn max_keys(limit: usize) -> (keys: i32)
    ensures
        keys == max_keys_of(limit as int),
        limit <= i32::MAX ==> keys == limit,
{
    let low: u64 = (limit as u64) % 0x1_0000_0000;
    if low < 0x8000_0000 {
        low as i32
    } else {
        (low as i64 - 0x1_0000_0000) as i32
    }
}

/// Turns the size that the store gives into the size that a listing shows.
pub fn listed_size(size: Option<i64>) -> (shown: u64)
    ensures
        shown == size_of(size),
{
    match size {
        Some(s) => if s >= 0 {
            s as u64
        } else {
            ((s + 0x7fff_ffff_ffff_ffff + 1) as u64) + 0x8000_0000_0000_0000
        },
        None => 0,
    }
}

/// The content type of an object: the one given, or the default.
pub fn content_type_or_default(content_type: Option<&str>) -> (chosen: String)
    ensures
        chosen@ == match content_type {
            Some(given) => given@,
            None => "application/octet-stream"@,
        },
{
    match content_type {
        Some(given) => String::from_str(given),
        None => String::from_str(DEFAULT_CONTENT_TYPE),
    }
}

/// Plans a listing: the store is asked for the keys under the folder that
/// go on with `prefix`, and for at most `limit` of them where a limit is
/// given. One page is asked for, and no more.
pub fn list_files(prefix: Option<&str>, limit: Option<usize>) -> (request: ListRequest)
    ensures
        request.prefix@ == list_prefix(
            match prefix {
                Some(p) => Some(p@),
                None => None,
            },
        ),
        request.max_keys == match limit {
            Some(n) => Some(max_keys_of(n as int) as i32),
            None => None,
        },
{
    let full_prefix = match prefix {
        Some(user_prefix) => get_full_path(user_prefix),
        None => get_full_path(""),
    };
    proof {
        reveal_strlit("");
        assert(namespace() + ""@ =~= namespace());
    }
    let max_keys = match limit {
        Some(n) => Some(max_keys(n)),
        None => None,
    };
    ListRequest { prefix: full_prefix, max_keys }
}

/// The listing entry of one object of the store.
pub fn file_info(object: RemoteObject) -> (info: FileInfo)
    ensures
        describes(info, object),
{
    let name = match &object.key {
        Some(key) => strip_base_path(key.as_str()),
        None => {
            proof {
                reveal_strlit("");
                assert(""@ =~= Seq::<char>::empty());
            }
            strip_base_path("")
        },
    };
    let size = listed_size(object.size);
    let last_modified = match object.last_modified {
        Some(time) => time,
        None => String::from_str(UNKNOWN_TIME),
    };
    FileInfo { name, size, last_modified }
}

/// Reads the store's answer to a listing: one entry for each object, in the
/// store's order, none added and none left out.
pub fn listed_files(objects: Vec<RemoteObject>) -> (files: Vec<FileInfo>)
    ensures
        files.len() == objects.len(),
        forall|i: int| 0 <= i < files.len() ==> describes(#[trigger] files[i], objects[i]),
{
    let ghost all = objects@;
    let mut files: Vec<FileInfo> = Vec::new();
    for object in it: objects
        invariant
            it.seq() == all,
            files.len() == it.index(),
            forall|i: int| 0 <= i < files.len() ==> describes(#[trigger] files[i], all[i]),
    {
        files.push(file_info(object));
    }
    files
}

/// Plans an upload: one put of `data` at the key of `filename`, with the
/// given content type.
pub fn upload_file(filename: &str, data: Vec<u8>, content_type: &str) -> (request: PutRequest)
    ensures
        (request.key@, request.body@, request.content_type@) == put_request(
            filename@,
            data@,
            content_type@,
        ),
{
    PutRequest {
        key: get_full_path(filename),
        body: data,
        content_type: String::from_str(content_type),
    }
}

/// Plans a download: the key of the object to fetch.
pub fn download_file(filename: &str) -> (key: String)
    ensures
        key@ == full_path(filename@),
{
    get_full_path(filename)
}

/// Reads the store's answer to a download: the bytes as they came, and the
/// content type, or the default where the store names none.
pub fn downloaded_file(reply: GetReply) -> (r: (Vec<u8>, String))
    ensures
        (r.0@, r.1@) == download_of(
            match reply.content_type {
                Some(given) => Some(given@),
                None => None,
            },
            reply.body@,
        ),
{
    let content_type = match reply.content_type {
        Some(given) => given,
        None => String::from_str(DEFAULT_CONTENT_TYPE),
    };
    (reply.body, content_type)
}

/// Plans a deletion: the key of the object to delete. Whether the object
/// exists is not looked into.
pub fn delete_file(filename: &str) -> (key: String)
    ensures
        key@ == full_path(filename@),
{
    get_full_path(filename)
}

/// An upload followed by a download of the same filename: the download
/// asks for the key that the upload wrote, and where the store answers with
/// the bytes and the content type that were put there, the download hands
/// back exactly what was uploaded.
pub proof fn lemma_upload_then_download(
    filename: Seq<char>,
    data: Seq<u8>,
    content_type: Seq<char>,
)
    ensures
        put_request(filename, data, content_type).0 == full_path(filename),
        download_of(
            Some(put_request(filename, data, content_type).2),
            put_request(filename, data, content_type).1,
        ) == (data, content_type),
{
}

/// The cap that is sent to the store is never above the limit that was
/// asked for, however large the limit is.
pub proof fn lemma_max_keys_within_limit(limit: nat)
    ensures
        max_keys_of(limit as int) <= limit,
{
}

/// A listing with a limit shows no more entries than the limit, where the
/// store answers with no more objects than the cap that it was sent: the
/// listing has one entry for each object of the answer.
pub proof fn lemma_listing_within_limit(
    limit: usize,
    objects: Seq<RemoteObject>,
    files: Seq<FileInfo>,
)
    requires
        objects.len() <= max_keys_of(limit as int),
        files.len() == objects.len(),
        forall|i: int| 0 <= i < files.len() ==> describes(#[trigger] files[i], objects[i]),
    ensures
        files.len() <= limit,
{
    lemma_max_keys_within_limit(limit as nat);
}

} // verus!
