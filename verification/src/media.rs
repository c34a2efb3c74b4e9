//! Media types of files, and the attachments made of them.

use mime::FromStrError;
use mime::Mime;
use vstd::prelude::*;

use crate::account::Account;
use crate::error::{AccountError, AccountErrorView};
use crate::text::same_text;

verus! {

/// A parsed media type, which the library hands on.
#[verifier::external_type_specification]
#[verifier::external_body]
pub struct ExMime(Mime);

/// Why a text is no media type.
#[verifier::external_type_specification]
#[verifier::external_body]
pub struct ExFromStrError(FromStrError);

/// The media type that `text` parses to, if it is one.
pub uninterp spec fn mime_of(text: Seq<char>) -> Option<Mime>;

/// Whether `c` may stand in a token of a media type.
pub open spec fn is_token_char(c: char) -> bool {
    ||| 'a' <= c <= 'z'
    ||| 'A' <= c <= 'Z'
    ||| '0' <= c <= '9'
    ||| c == '+'
    ||| c == '-'
    ||| c == '.'
}

/// Whether `text` is a type and a subtype with a slash at `slash` between them.
pub open spec fn is_type_and_subtype(text: Seq<char>, slash: int) -> bool {
    &&& 0 < slash < text.len()
    &&& text[slash] == '/'
    &&& forall|i: int| 0 <= i < text.len() && i != slash ==> is_token_char(#[trigger] text[i])
}

/// `Mime::from_str`, which `parse` calls, depends on the text alone, and succeeds on each text of a
/// type and a subtype without parameters. What else it takes is left to the mime crate.
#[verifier::external_body]
fn parse_mime(text: &str) -> (r: Result<Mime, FromStrError>)
    ensures
        match r {
            Ok(m) => mime_of(text@) == Some(m),
            Err(_) => mime_of(text@) is None,
        },
        (exists|slash: int| is_type_and_subtype(text@, slash)) ==> r is Ok,
{
    text.parse::<Mime>()
}

/// The lower case of a text, by the Unicode rules of the standard library.
pub uninterp spec fn lowercase(s: Seq<char>) -> Seq<char>;

/// The lower case of an ASCII character.
pub open spec fn ascii_lower(c: char) -> char {
    if 'A' <= c <= 'Z' {
        (c as u8 + 32) as char
    } else {
        c
    }
}

/// `str::to_lowercase` depends on the text alone, and maps a text of ASCII characters character by
/// character.
pub assume_specification[ str::to_lowercase ](s: &str) -> (r: String)
    ensures
        r@ == lowercase(s@),
        vstd::utf8::is_ascii_chars(s@) ==> r@ == s@.map_values(|c: char| ascii_lower(c)),
;

/// The media type for a file extension in lower case.
pub open spec fn content_type(ext: Seq<char>) -> Seq<char> {
    if ext == "png"@ {
        "image/png"@
    } else if ext == "jpg"@ || ext == "jpeg"@ {
        "image/jpeg"@
    } else if ext == "gif"@ {
        "image/gif"@
    } else if ext == "webp"@ {
        "image/webp"@
    } else if ext == "svg"@ {
        "image/svg+xml"@
    } else {
        "application/octet-stream"@
    }
}

/// The media type for a file extension in lower case, as text.
pub fn content_type_for(ext: &str) -> (r: &'static str)
    ensures
        r@ == content_type(ext@),
        exists|slash: int| is_type_and_subtype(r@, slash),
{
    proof {
        reveal_strlit("image/png");
        reveal_strlit("image/jpeg");
        reveal_strlit("image/gif");
        reveal_strlit("image/webp");
        reveal_strlit("image/svg+xml");
        reveal_strlit("application/octet-stream");
        assert(is_type_and_subtype("image/png"@, 5));
        assert(is_type_and_subtype("image/jpeg"@, 5));
        assert(is_type_and_subtype("image/gif"@, 5));
        assert(is_type_and_subtype("image/webp"@, 5));
        assert(is_type_and_subtype("image/svg+xml"@, 5));
        assert(is_type_and_subtype("application/octet-stream"@, 11));
    }
    if same_text(ext, "png") {
        "image/png"
    } else if same_text(ext, "jpg") || same_text(ext, "jpeg") {
        "image/jpeg"
    } else if same_text(ext, "gif") {
        "image/gif"
    } else if same_text(ext, "webp") {
        "image/webp"
    } else if same_text(ext, "svg") {
        "image/svg+xml"
    } else {
        "application/octet-stream"
    }
}

/// The media type for a file extension, in which lower and upper case are the same.
pub fn mime_from_extension(ext: &str) -> (r: Mime)
    ensures
        mime_of(content_type(lowercase(ext@))) == Some(r),
        vstd::utf8::is_ascii_chars(ext@) ==> mime_of(
            content_type(ext@.map_values(|c: char| ascii_lower(c))),
        ) == Some(r),
{
    let lower = ext.to_lowercase();
    parse_mime(content_type_for(lower.as_str())).unwrap()
}

/// A file to send to a room, beside its content.
#[derive(Debug)]
pub struct Attachment {
    pub filename: String,
    pub content_type: Mime,
}

/// What is given of an optional text, or `default`.
pub open spec fn text_or(s: Option<&str>, default: Seq<char>) -> Seq<char> {
    match s {
        Some(t) => t@,
        None => default,
    }
}

impl<H> Account<H> {
    /// The media type to upload an avatar under, by the extension of its file.
    pub fn upload_avatar(extension: Option<&str>) -> (r: Mime)
        ensures
            mime_of(content_type(lowercase(text_or(extension, ""@)))) == Some(r),
    {
        mime_from_extension(extension.unwrap_or(""))
    }

    /// What to send a file to a room as, by the name and the extension of its path, where the path
    /// has them and they are text.
    pub fn send_attachment(
        &self,
        room_found: bool,
        file_name: Option<&str>,
        extension: Option<&str>,
    ) -> (r: Result<Attachment, AccountError>)
        ensures
            match r {
                Ok(a) => {
                    &&& room_found
                    &&& a.filename@ == text_or(file_name, "file"@)
                    &&& mime_of(content_type(lowercase(text_or(extension, ""@)))) == Some(
                        a.content_type,
                    )
                },
                Err(e) => !room_found && e@ == AccountErrorView::RoomNotFound,
            },
    {
        if !room_found {
            return Err(AccountError::RoomNotFound);
        }
        Ok(
            Attachment {
                filename: file_name.unwrap_or("file").to_owned(),
                content_type: mime_from_extension(extension.unwrap_or("")),
            },
        )
    }
}

/// An extension in lower case has the media type of its image format; the extensions with one are
/// these, and every other is for plain bytes.
pub proof fn law_extensions_have_their_media_type(ext: &str, r: &'static str)
    requires
        call_ensures(content_type_for, (ext,), r),
    ensures
        ext@ == "png"@ ==> r@ == "image/png"@,
        ext@ == "jpg"@ || ext@ == "jpeg"@ ==> r@ == "image/jpeg"@,
        ext@ == "gif"@ ==> r@ == "image/gif"@,
        ext@ == "webp"@ ==> r@ == "image/webp"@,
        ext@ == "svg"@ ==> r@ == "image/svg+xml"@,
        r@ == "application/octet-stream"@ || ext@ == "png"@ || ext@ == "jpg"@ || ext@ == "jpeg"@
            || ext@ == "gif"@ || ext@ == "webp"@ || ext@ == "svg"@,
{
    reveal_strlit("png");
    reveal_strlit("jpg");
    reveal_strlit("jpeg");
    reveal_strlit("gif");
    reveal_strlit("webp");
    reveal_strlit("svg");
    assert("png"@[0] == 'p');
    assert("jpg"@[0] == 'j');
    assert("jpeg"@[0] == 'j');
    assert("gif"@[0] == 'g');
    assert("webp"@[0] == 'w');
    assert("svg"@[0] == 's');
}

/// The media type of a file is that of its extension in lower case: extensions that differ in case
/// only have the same.
pub proof fn law_case_makes_no_difference(
    ext: &str,
    other: &str,
    m: Mime,
    n: Mime,
    lower: &str,
    content_type: &'static str,
)
    requires
        call_ensures(mime_from_extension, (ext,), m),
        call_ensures(mime_from_extension, (other,), n),
        lowercase(ext@) == lowercase(other@),
        lower@ == lowercase(ext@),
        call_ensures(content_type_for, (lower,), content_type),
    ensures
        m == n,
        mime_of(content_type@) == Some(m),
{
}

/// An avatar and a file to send have the media type of the extension that their file has; one
/// without has that of the empty extension. A file is sent under its name, and under `file` without
/// one, to a room that the client knows.
pub proof fn law_files_are_sent_by_their_extension<H>(
    account: &Account<H>,
    room_found: bool,
    file_name: Option<&str>,
    extension: Option<&str>,
    avatar: Mime,
    attachment: Result<Attachment, AccountError>,
    ext: &str,
    m: Mime,
)
    requires
        call_ensures(Account::<H>::upload_avatar, (extension,), avatar),
        call_ensures(
            Account::<H>::send_attachment,
            (account, room_found, file_name, extension),
            attachment,
        ),
        extension matches Some(e) ==> ext@ == e@,
        extension is None ==> ext@.len() == 0,
        call_ensures(mime_from_extension, (ext,), m),
    ensures
        avatar == m,
        attachment is Ok <==> room_found,
        attachment matches Ok(a) ==> a.content_type == m,
        attachment matches Ok(a) ==> (file_name matches Some(name) ==> a.filename@ == name@),
        attachment matches Ok(a) ==> (file_name is None ==> a.filename@ == "file"@),
        attachment matches Err(e) ==> e is RoomNotFound,
{
    reveal_strlit("");
    assert(extension is None ==> ext@ == ""@);
}

} // verus!
