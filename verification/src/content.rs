//! The one-line text shown for a message: the body of a text message, or a
//! description of an attachment with the address it can be fetched from.

use vstd::prelude::*;
use vstd::utf8::encode_utf8;

verus! {

/// Where the data of an attachment lies.
pub enum MediaSource {
    /// A content URI of the form `mxc://<server name>/<media id>`.
    Plain(String),
    /// An encrypted file.
    Encrypted,
}

/// What a message carries.
pub enum MessageType {
    /// Plain text.
    Text { body: String },
    /// An audio clip with its description.
    Audio { body: String, source: MediaSource },
    /// A file with its description.
    File { body: String, source: MediaSource },
    /// An image with its description.
    Image { body: String, source: MediaSource },
    /// A video with its description.
    Video { body: String, source: MediaSource },
    /// A location given as a `geo:` URI.
    Location { geo_uri: String },
    /// Anything else.
    Other,
}

/// The last byte position at which the slash behind the server name of a
/// content URI may stand for the URI to be taken apart.
pub const MAX_SLASH_POSITION: usize = 255;

/// Addresses and paths longer than this many bytes (sixteen mebibytes) are
/// not put together.
pub const MAX_URL_BYTES: usize = 0x100_0000;

/// Whether the bytes of a content URI are at most 255, or have a slash
/// behind the six bytes of `mxc://` and not later than at position 255:
/// then the slash that ends the server name, if there is one, stands at a
/// position that eight bits hold.
pub open spec fn slash_in_reach(bytes: Seq<u8>) -> bool {
    bytes.len() <= MAX_SLASH_POSITION || exists|k: int|
        6 <= k <= MAX_SLASH_POSITION && k < bytes.len() && #[trigger] bytes[k] == 0x2fu8
}

/// The server name and the media id of a content URI, as
/// `ruma::MxcUri::parts` finds them, or `None` where it reports an error.
pub uninterp spec fn mxc_uri_parts(uri: Seq<char>) -> Option<(Seq<char>, Seq<char>)>;

/// The text of the address that `url::Url::parse` reads from `base`, after
/// `url::Url::set_path` has replaced its path by `path`; `None` where `base`
/// does not parse.
pub uninterp spec fn url_with_path(base: Seq<char>, path: Seq<char>) -> Option<Seq<char>>;

/// Calls `ruma::MxcUri::parts` on `uri`. The contract gives the result a
/// name, [`mxc_uri_parts`], and says nothing else of it. The parser keeps
/// the position of the first slash behind `mxc://` in eight bits, and
/// unwraps it as a number that is not zero: URIs in which that slash stands
/// later than at position 255 are kept away.
#[verifier::external_body]
fn mxc_parts(uri: &str) -> (r: Option<(String, String)>)
    requires
        slash_in_reach(encode_utf8(uri@)),
    ensures
        match r {
            Some(parts) => mxc_uri_parts(uri@) == Some((parts.0@, parts.1@)),
            None => mxc_uri_parts(uri@).is_none(),
        },
{
    let uri: &matrix_sdk::ruma::MxcUri = uri.into();
    match uri.parts() {
        Ok((server_name, media_id)) => Some((server_name.as_str().to_owned(), media_id.to_owned())),
        Err(_) => None,
    }
}

/// Parses `base` with `url::Url::parse`, replaces the path with
/// `url::Url::set_path` and gives the address back as text. The contract
/// gives the result a name, [`url_with_path`], and says nothing else of it.
/// The address is indexed in 32 bits, and `set_path` unwraps where its
/// length does not fit. The bound on `base` and `path` leaves the address a
/// factor of 256 below that limit, for what parsing and escaping add.
#[verifier::external_body]
fn replace_url_path(base: &str, path: &str) -> (r: Option<String>)
    requires
        encode_utf8(base@).len() <= MAX_URL_BYTES,
        encode_utf8(path@).len() <= MAX_URL_BYTES,
    ensures
        match r {
            Some(text) => url_with_path(base@, path@) == Some(text@),
            None => url_with_path(base@, path@).is_none(),
        },
{
    match url::Url::parse(base) {
        Ok(mut address) => {
            address.set_path(path);
            Some(String::from(address))
        },
        Err(_) => None,
    }
}

/// The length of a text in bytes.
fn byte_len(text: &str) -> (n: usize)
    ensures
        n == encode_utf8(text@).len(),
{
    text.as_bytes().len()
}

/// Whether the slash that ends the server name of a content URI, if there
/// is one, stands where the URI can be taken apart.
pub fn has_slash_in_reach(uri: &str) -> (r: bool)
    ensures
        r == slash_in_reach(encode_utf8(uri@)),
{
    let bytes = uri.as_bytes();
    let len: usize = bytes.len();
    if len <= MAX_SLASH_POSITION {
        return true;
    }
    let mut k: usize = 6;
    while k <= MAX_SLASH_POSITION
        invariant
            6 <= k <= MAX_SLASH_POSITION + 1,
            len == bytes@.len(),
            len > MAX_SLASH_POSITION,
            bytes@ == encode_utf8(uri@),
            forall|j: int| 6 <= j < k ==> #[trigger] bytes@[j] != 0x2fu8,
        decreases MAX_SLASH_POSITION + 1 - k,
    {
        if bytes[k] == 0x2f {
            return true;
        }
        k = k + 1;
    }
    false
}

/// The address that was put together, or the homeserver's address as it is
/// where none was.
pub fn address_or_base(address: Option<String>, base_url: &str) -> (r: String)
    ensures
        r@ == match address {
            Some(text) => text@,
            None => base_url@,
        },
{
    match address {
        Some(text) => text,
        None => String::from_str(base_url),
    }
}

/// The path under which a homeserver offers a piece of media for download.
pub open spec fn download_path(server_name: Seq<char>, media_id: Seq<char>) -> Seq<char> {
    "/_matrix/media/r0/download/"@ + server_name + "/"@ + media_id
}

/// The address given for the media that was found, or not, at the
/// homeserver `base`: the address with the download path where the content
/// URI came apart and the address could be put together; otherwise `base`
/// as it is.
pub open spec fn resolved_media_url(
    parts: Option<(Seq<char>, Seq<char>)>,
    base: Seq<char>,
) -> Seq<char> {
    match parts {
        Some((server_name, media_id)) => {
            let path = download_path(server_name, media_id);
            if encode_utf8(base).len() <= MAX_URL_BYTES && encode_utf8(path).len()
                <= MAX_URL_BYTES {
                match url_with_path(base, path) {
                    Some(text) => text,
                    None => base,
                }
            } else {
                base
            }
        },
        None => base,
    }
}

/// The address from which the media behind the content URI `mxc` can be
/// fetched at the homeserver `base`, or `base` as it is where the URI is
/// not a valid content URI, or its server name ends too late to be found.
pub open spec fn media_url(mxc: Seq<char>, base: Seq<char>) -> Seq<char> {
    if slash_in_reach(encode_utf8(mxc)) {
        resolved_media_url(mxc_uri_parts(mxc), base)
    } else {
        base
    }
}

/// What is shown for the source of an attachment.
pub open spec fn media_text(source: MediaSource, homeserver: Seq<char>) -> Seq<char> {
    match source {
        MediaSource::Plain(mxc) => media_url(mxc@, homeserver),
        MediaSource::Encrypted => "File is encrypted. Not Implemented!"@,
    }
}

/// What is shown for a message.
pub open spec fn message_text(msgtype: MessageType, homeserver: Seq<char>) -> Seq<char> {
    match msgtype {
        MessageType::Text { body } => body@,
        MessageType::Audio { body, source } => "Has send audio: "@ + body@ + " "@ + media_text(
            source,
            homeserver,
        ),
        MessageType::File { body, source } => "Has send file: "@ + body@ + " "@ + media_text(
            source,
            homeserver,
        ),
        MessageType::Image { body, source } => "Has send image: "@ + body@ + " "@ + media_text(
            source,
            homeserver,
        ),
        MessageType::Video { body, source } => "Has send video: "@ + body@ + " "@ + media_text(
            source,
            homeserver,
        ),
        MessageType::Location { geo_uri } => "Has send location: "@ + geo_uri@,
        MessageType::Other => "Unknown messagetype"@,
    }
}

/// Puts the download address together from the parts of a content URI, if
/// there are any, and the homeserver's address.
pub fn resolve_media_url(parts: Option<(String, String)>, base_url: &str) -> (r: String)
    ensures
        r@ == resolved_media_url(
            match parts {
                Some(p) => Some((p.0@, p.1@)),
                None => None,
            },
            base_url@,
        ),
{
    match parts {
        Some((server_name, media_id)) => {
            let mut path = String::from_str("/_matrix/media/r0/download/");
            path.append(server_name.as_str());
            path.append("/");
            path.append(media_id.as_str());
            if byte_len(base_url) <= MAX_URL_BYTES && byte_len(path.as_str()) <= MAX_URL_BYTES {
                address_or_base(replace_url_path(base_url, path.as_str()), base_url)
            } else {
                address_or_base(None, base_url)
            }
        },
        None => address_or_base(None, base_url),
    }
}

/// The address from which the media behind a content URI can be fetched.
pub fn convert_mxc_to_url(mxc: &str, base_url: &str) -> (r: String)
    ensures
        r@ == media_url(mxc@, base_url@),
{
    if has_slash_in_reach(mxc) {
        resolve_media_url(mxc_parts(mxc), base_url)
    } else {
        address_or_base(None, base_url)
    }
}

/// What is shown for the source of an attachment.
pub fn handle_media_source(source: MediaSource, homeserver_url: &str) -> (r: String)
    ensures
        r@ == media_text(source, homeserver_url@),
{
    match source {
        MediaSource::Plain(mxc) => convert_mxc_to_url(mxc.as_str(), homeserver_url),
        MediaSource::Encrypted => String::from_str("File is encrypted. Not Implemented!"),
    }
}

/// A description of an attachment: what it is, its own description, and
/// where it lies.
fn describe(prefix: &str, body: String, source: MediaSource, homeserver_url: &str) -> (r: String)
    ensures
        r@ == prefix@ + body@ + " "@ + media_text(source, homeserver_url@),
{
    let mut text = String::from_str(prefix);
    text.append(body.as_str());
    text.append(" ");
    let place = handle_media_source(source, homeserver_url);
    text.append(place.as_str());
    text
}

/// The text shown for a message.
pub fn convert_message_type(msgtype: MessageType, homeserver_url: &str) -> (r: String)
    ensures
        r@ == message_text(msgtype, homeserver_url@),
{
    match msgtype {
        MessageType::Text { body } => body,
        MessageType::Audio { body, source } => describe(
            "Has send audio: ",
            body,
            source,
            homeserver_url,
        ),
        MessageType::File { body, source } => describe(
            "Has send file: ",
            body,
            source,
            homeserver_url,
        ),
        MessageType::Image { body, source } => describe(
            "Has send image: ",
            body,
            source,
            homeserver_url,
        ),
        MessageType::Video { body, source } => describe(
            "Has send video: ",
            body,
            source,
            homeserver_url,
        ),
        MessageType::Location { geo_uri } => {
            let mut text = String::from_str("Has send location: ");
            text.append(geo_uri.as_str());
            text
        },
        MessageType::Other => String::from_str("Unknown messagetype"),
    }
}

} // verus!
