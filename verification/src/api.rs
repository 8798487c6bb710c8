//! The file endpoints: what each request asks of the storage proxy, and the
//! body of the answer that goes back to the client.
//!
//! A failure of the object store is not looked into: whatever it is, the
//! client gets its text with the status of a server error.

use crate::r2::{
    describes, full_path, list_prefix, max_keys_of, put_request, FileInfo, ListRequest, PutRequest,
    RemoteObject,
};
use vstd::prelude::*;
use vstd::string::StringExecFns;

verus! {

/// The query of a listing request.
#[derive(Debug, Clone)]
pub struct ListQuery {
    pub prefix: Option<String>,
    pub limit: Option<usize>,
}

/// The body of the answer to a listing.
#[derive(Debug, Clone)]
pub struct ListResponse {
    pub files: Vec<FileInfo>,
    pub total: usize,
}

/// The body of the answer to an upload or an update.
#[derive(Debug, Clone)]
pub struct UploadResponse {
    pub filename: String,
    pub size: u64,
    pub message: String,
}

/// The body of the answer to a deletion.
#[derive(Debug, Clone)]
pub struct DeleteResponse {
    pub filename: String,
    pub message: String,
}

/// A failure of a file endpoint, with the text that the client is told.
#[derive(Debug, Clone)]
pub struct AppError {
    pub message: String,
}

impl AppError {
    /// A failure with the text `message`.
    pub fn new(message: &str) -> (error: AppError)
        ensures
            error.message@ == message@,
    {
        AppError { message: String::from_str(message) }
    }

    /// The HTTP status that every such failure is answered with.
    pub fn status_code(&self) -> (code: u16)
        ensures
            code == 500,
    {
        500
    }
}

/// An upload whose file part has been looked at, before its bytes are read.
#[derive(Debug, Clone)]
pub struct Upload {
    pub filename: String,
    pub content_type: String,
    /// Whether the upload replaces a file named in the request's path.
    pub update: bool,
}

/// The text that tells the client that an upload went well.
pub open spec fn upload_message(update: bool) -> Seq<char> {
    if update {
        "File updated successfully"@
    } else {
        "File uploaded successfully"@
    }
}

/// Plans the listing that `query` asks for.
pub fn list_files(query: &ListQuery) -> (request: ListRequest)
    ensures
        request.prefix@ == list_prefix(
            match query.prefix {
                Some(p) => Some(p@),
                None => None,
            },
        ),
        request.max_keys == match query.limit {
            Some(n) => Some(max_keys_of(n as int) as i32),
            None => None,
        },
{
    let prefix = match &query.prefix {
        Some(p) => Some(p.as_str()),
        None => None,
    };
    crate::r2::list_files(prefix, query.limit)
}

/// Answers a listing with the entries of the objects that the store
/// returned, and their number.
pub fn list_response(objects: Vec<RemoteObject>) -> (response: ListResponse)
    ensures
        response.total == objects.len(),
        response.files.len() == objects.len(),
        forall|i: int|
            0 <= i < objects.len() ==> describes(#[trigger] response.files[i], objects[i]),
{
    let files = crate::r2::listed_files(objects);
    let total = files.len();
    ListResponse { files, total }
}

/// Looks at the first file part of an upload: it has to name its file; its
/// content type is the one it gives, or the default.
pub fn upload_file(file_name: Option<&str>, content_type: Option<&str>) -> (r: Result<
    Upload,
    AppError,
>)
    ensures
        match r {
            Ok(upload) => {
                &&& file_name matches Some(name) && upload.filename@ == name@
                &&& upload.content_type@ == match content_type {
                    Some(given) => given@,
                    None => "application/octet-stream"@,
                }
                &&& !upload.update
            },
            Err(error) => file_name is None && error.message@ == "No filename provided"@,
        },
{
    match file_name {
        Some(name) => Ok(
            Upload {
                filename: String::from_str(name),
                content_type: crate::r2::content_type_or_default(content_type),
                update: false,
            },
        ),
        None => Err(AppError::new("No filename provided")),
    }
}

/// Looks at the first file part of an update of `filename`: the file is
/// the one that the request's path names, whatever the part calls itself.
pub fn update_file(filename: &str, content_type: Option<&str>) -> (upload: Upload)
    ensures
        upload.filename@ == filename@,
        upload.content_type@ == match content_type {
            Some(given) => given@,
            None => "application/octet-stream"@,
        },
        upload.update,
{
    Upload {
        filename: String::from_str(filename),
        content_type: crate::r2::content_type_or_default(content_type),
        update: true,
    }
}

/// The failure of an upload or an update that carries no file part.
pub fn no_file_provided() -> (error: AppError)
    ensures
        error.message@ == "No file provided"@,
{
    AppError::new("No file provided")
}

impl Upload {
    /// Takes the bytes of the file part: hands back what to put into the
    /// store, and the answer to give once the store has taken it.
    pub fn store(self, data: Vec<u8>) -> (r: (PutRequest, UploadResponse))
        ensures
            (r.0.key@, r.0.body@, r.0.content_type@) == put_request(
                self.filename@,
                data@,
                self.content_type@,
            ),
            r.1.filename@ == self.filename@,
            r.1.size == data.len(),
            r.1.message@ == upload_message(self.update),
    {
        let size = data.len() as u64;
        let request = crate::r2::upload_file(
            self.filename.as_str(),
            data,
            self.content_type.as_str(),
        );
        let message = if self.update {
            String::from_str("File updated successfully")
        } else {
            String::from_str("File uploaded successfully")
        };
        (request, UploadResponse { filename: self.filename, size, message })
    }
}

/// Plans the deletion of `filename`: the key to delete, and the answer to
/// give once the store has done so.
pub fn delete_file(filename: String) -> (r: (String, DeleteResponse))
    ensures
        r.0@ == full_path(filename@),
        r.1.filename@ == filename@,
        r.1.message@ == "File deleted successfully"@,
{
    let key = crate::r2::delete_file(filename.as_str());
    (key, DeleteResponse { filename, message: String::from_str("File deleted successfully") })
}

} // verus!
