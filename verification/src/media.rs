//! Content types and the percent-encoding of destination names.

use vstd::prelude::*;
use vstd::string::StringSliceAdditionalSpecFns;

verus! {

/// The media type that the extension of a path suggests first, if any. The
/// table of extensions is fixed when the crate is built; the path is read as
/// the target platform reads paths, and never looked up on disk.
pub uninterp spec fn guessed_media_type(path: Seq<char>) -> Option<Seq<char>>;

/// `mime_guess::from_path(path).first_raw()`: the first media type listed for
/// the path's extension, or nothing where the path has no extension or the
/// extension is unknown.
#[verifier::external_body]
fn guess_media_type(path: &str) -> (guess: Option<String>)
    ensures
        match guess {
            Some(media_type) => guessed_media_type(path@) == Some(media_type@),
            None => guessed_media_type(path@).is_none(),
        },
{
    mime_guess::from_path(path).first_raw().map(String::from)
}

/// The view of an optional string slice.
pub open spec fn text_of(text: Option<&str>) -> Option<Seq<char>> {
    match text {
        Some(t) => Some(t@),
        None => None,
    }
}

/// The content type sent for a file: the declared one, else the guessed one,
/// else plain text.
pub open spec fn chosen_content_type(
    declared: Option<Seq<char>>,
    guessed: Option<Seq<char>>,
) -> Seq<char> {
    match declared {
        Some(d) => d,
        None => match guessed {
            Some(g) => g,
            None => "text/plain"@,
        },
    }
}

/// Picks the content type from what the caller declared and what the
/// destination's extension suggested.
pub fn choose_content_type(declared: Option<&str>, guessed: Option<String>) -> (chosen: String)
    ensures
        chosen@ == chosen_content_type(
            text_of(declared),
            match guessed {
                Some(g) => Some(g@),
                None => None,
            },
        ),
{
    match declared {
        Some(d) => d.to_owned(),
        None => match guessed {
            Some(g) => g,
            None => "text/plain".to_owned(),
        },
    }
}

/// The content type for an upload to `dest`: the declared one, else the one
/// guessed from the extension of `dest`, else plain text.
pub fn content_type_for(declared: Option<&str>, dest: &str) -> (chosen: String)
    ensures
        chosen@ == chosen_content_type(text_of(declared), guessed_media_type(dest@)),
{
    match declared {
        Some(d) => d.to_owned(),
        None => choose_content_type(None, guess_media_type(dest)),
    }
}

/// Bytes that percent-encoding leaves as they are: ASCII letters, digits,
/// and `-`, `.`, `_`, `~`.
pub open spec fn is_unreserved(b: u8) -> bool {
    ||| 0x30 <= b <= 0x39
    ||| 0x41 <= b <= 0x5a
    ||| 0x61 <= b <= 0x7a
    ||| b == 0x2d
    ||| b == 0x2e
    ||| b == 0x5f
    ||| b == 0x7e
}

/// The uppercase hexadecimal digit for a value below sixteen.
pub open spec fn hex_digit_upper(d: u8) -> char {
    if d < 10 {
        (0x30 + d) as u8 as char
    } else {
        (0x37 + d) as u8 as char
    }
}

/// One byte, percent-encoded.
pub open spec fn percent_encoded_byte(b: u8) -> Seq<char> {
    if is_unreserved(b) {
        seq![b as char]
    } else {
        seq!['%', hex_digit_upper(b / 16), hex_digit_upper(b % 16)]
    }
}

/// A byte string, percent-encoded byte by byte.
pub open spec fn percent_encoded(bytes: Seq<u8>) -> Seq<char>
    decreases bytes.len(),
{
    if bytes.len() == 0 {
        Seq::<char>::empty()
    } else {
        percent_encoded(bytes.drop_last()) + percent_encoded_byte(bytes.last())
    }
}

/// `urlencoding::encode`: every byte of the text's UTF-8 form is kept if it
/// is an ASCII letter, a digit or one of `-`, `.`, `_`, `~`, and otherwise
/// written as `%` and two uppercase hexadecimal digits.
#[verifier::external_body]
pub(crate) fn percent_encode(text: &str) -> (encoded: String)
    ensures
        encoded@ == percent_encoded(text.spec_bytes()),
{
    urlencoding::encode(text).into_owned()
}

} // verus!
