//! Reading files of a session's work tree for a peer.
use vstd::prelude::*;

use base64::Engine;

verus! {

/// Why a file was not read.
#[derive(Debug, PartialEq, Eq)]
pub enum FileProxyError {
    NoWorkingDirectory,
    IndexNotReady,
    /// The path does not lead to anything.
    PathResolution(String),
    PathOutsideWorkspace(String),
    ReadError(String),
}

/// Where a requested path leads.
#[derive(Debug, PartialEq, Eq)]
pub enum RequestedPath {
    /// The path stands for itself.
    Absolute(String),
    /// The path is to be taken from the working directory.
    Within { cwd: String, path: String },
}

/// What is sent back for a file.
#[derive(Debug, PartialEq, Eq)]
pub enum ReadRemoteFileResponse {
    Text(String),
    Image { mime_type: String, base64_data: String },
    Binary,
}

/// How a file is to be sent back.
#[derive(Debug, PartialEq, Eq)]
pub enum FileContent {
    /// As it is given here.
    Ready(ReadRemoteFileResponse),
    /// As text, which is to be cut to the lines that were asked for.
    RenderText,
}

/// The base64 form of `len` bytes is no longer than a string can be.
pub open spec fn base64_fits(len: nat) -> bool {
    (len + 2) / 3 * 4 <= isize::MAX
}

/// The base64 form of some bytes, with the standard alphabet and padding.
pub uninterp spec fn base64_standard(bytes: Seq<u8>) -> Seq<char>;

/// Calls `Engine::encode` of the engine `STANDARD`: the base64 form of the bytes, with the
/// standard alphabet and padding. It is a function of the bytes, with four characters for
/// every three bytes or fewer. It panics where the form is longer than a string can be.
#[verifier::external_body]
fn encode_base64(bytes: &Vec<u8>) -> (encoded: String)
    requires
        base64_fits(bytes@.len()),
    ensures
        encoded@ == base64_standard(bytes@),
        encoded@.len() == (bytes@.len() + 2) / 3 * 4,
{
    base64::engine::general_purpose::STANDARD.encode(bytes)
}

/// Calls `std::str::from_utf8`, which accepts exactly the bytes that are valid UTF-8.
#[verifier::external_body]
fn is_utf8(bytes: &Vec<u8>) -> (yes: bool)
    ensures
        yes == vstd::utf8::valid_utf8(bytes@),
{
    std::str::from_utf8(bytes).is_ok()
}

/// Where a requested path leads from the working directory of a session.
pub fn requested_path(cwd: &Option<String>, path: &str, is_absolute: bool) -> (found: Result<
    RequestedPath,
    FileProxyError,
>)
    ensures
        match *cwd {
            None => found == Err::<RequestedPath, FileProxyError>(
                FileProxyError::NoWorkingDirectory,
            ),
            Some(dir) => match found {
                Ok(RequestedPath::Absolute(p)) => is_absolute && p@ == path@,
                Ok(RequestedPath::Within { cwd: c, path: p }) => !is_absolute && c == dir && p@
                    == path@,
                Err(_) => false,
            },
        },
{
    match cwd {
        None => Err(FileProxyError::NoWorkingDirectory),
        Some(dir) => if is_absolute {
            Ok(RequestedPath::Absolute(path.to_owned()))
        } else {
            Ok(RequestedPath::Within { cwd: dir.clone(), path: path.to_owned() })
        },
    }
}

/// Lets a resolved path pass when it lies within the workspace.
pub fn within_workspace(resolved: String, is_inside: bool) -> (passed: Result<
    String,
    FileProxyError,
>)
    ensures
        passed == if is_inside {
            Ok::<String, FileProxyError>(resolved)
        } else {
            Err(FileProxyError::PathOutsideWorkspace(resolved))
        },
{
    if is_inside {
        Ok(resolved)
    } else {
        Err(FileProxyError::PathOutsideWorkspace(resolved))
    }
}

/// How a directory or file is sent back: a directory as text, an image as such, other
/// files as text where they are text.
pub fn file_content(is_directory: bool, bytes: &Vec<u8>, image_mime: Option<String>) -> (content:
    FileContent)
    requires
        !is_directory && image_mime is Some ==> base64_fits(bytes@.len()),
    ensures
        if is_directory {
            content is RenderText
        } else {
            match image_mime {
                Some(mime) => content matches FileContent::Ready(
                    ReadRemoteFileResponse::Image { mime_type, base64_data },
                ) && mime_type == mime && base64_data@ == base64_standard(bytes@),
                None => if vstd::utf8::valid_utf8(bytes@) {
                    content is RenderText
                } else {
                    content == FileContent::Ready(ReadRemoteFileResponse::Binary)
                },
            }
        },
{
    if is_directory {
        return FileContent::RenderText;
    }
    match image_mime {
        Some(mime_type) => {
            let base64_data = encode_base64(bytes);
            FileContent::Ready(ReadRemoteFileResponse::Image { mime_type, base64_data })
        },
        None => if is_utf8(bytes) {
            FileContent::RenderText
        } else {
            FileContent::Ready(ReadRemoteFileResponse::Binary)
        },
    }
}

/// Text that was rendered for a peer, or why it could not be.
pub fn rendered_text(output: Result<String, String>) -> (response: Result<
    ReadRemoteFileResponse,
    FileProxyError,
>)
    ensures
        response == match output {
            Ok(text) => Ok::<ReadRemoteFileResponse, FileProxyError>(
                ReadRemoteFileResponse::Text(text),
            ),
            Err(reason) => Err(FileProxyError::ReadError(reason)),
        },
{
    match output {
        Ok(text) => Ok(ReadRemoteFileResponse::Text(text)),
        Err(reason) => Err(FileProxyError::ReadError(reason)),
    }
}

/// Bytes fit in text where four letters for each three of them, rounded up, fit.
pub proof fn law_four_letters_for_three_bytes(groups: nat)
    ensures
        base64_fits(3 * groups) <==> 4 * groups <= isize::MAX,
        groups > 0 ==> (base64_fits((3 * groups - 2) as nat) <==> 4 * groups <= isize::MAX),
{
}

} // verus!
