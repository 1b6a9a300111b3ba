//! Loading an image into memory from the values an input channel yields.
//!
//! Reading the filesystem or the standard input happens outside this crate;
//! what arrives here are the bytes or the text that were read. This module
//! decides what those values mean: which byte buffers import as an image and
//! with which error the others are rejected, and how a path received as raw
//! text is normalised before use.

use vstd::prelude::*;
use vstd::string::StrSliceExecFns;

use crate::errors::ImportError;
use crate::errors::MiniViewError;

verus! {

/// An image decoded into memory: its dimensions as plain values, and the
/// decoded pixel data, which only the rendering adapter looks into.
pub struct DecodedImage {
    /// Width of the image in pixels.
    pub width: u32,
    /// Height of the image in pixels.
    pub height: u32,
    /// The decoded pixel data.
    pub image: image::DynamicImage,
}

#[verifier::external_type_specification]
#[verifier::external_body]
pub struct ExDynamicImage(image::DynamicImage);

#[verifier::external_type_specification]
#[verifier::external_body]
pub struct ExImageError(image::ImageError);

/// Whether this byte buffer decodes as an image in a recognised format.
pub uninterp spec fn image_decode_ok(bytes: Seq<u8>) -> bool;

/// The width, in pixels, of the image this byte buffer decodes to.
pub uninterp spec fn image_width_of(bytes: Seq<u8>) -> u32;

/// The height, in pixels, of the image this byte buffer decodes to.
pub uninterp spec fn image_height_of(bytes: Seq<u8>) -> u32;

/// Relies on image::guess_format, a fixed magic-byte table over the start of
/// the buffer, and image::load_from_memory_with_format, which for the
/// built-in format the guess yields decodes the bytes without consulting any
/// process state — so whether a buffer decodes, and the dimensions of what
/// it decodes to, are functions of the bytes alone. (The crate's registries
/// of format-detection and decoding hooks are bypassed on this path: the
/// first is only walked by guessing through a reader, the second only for
/// extension-routed formats.) The dimensions are read off into plain fields.
#[verifier::external_body]
fn decode_from_memory(buffer: &Vec<u8>) -> (decoded: Result<DecodedImage, image::ImageError>)
    ensures
        decoded is Ok <==> image_decode_ok(buffer@),
        decoded matches Ok(d) ==> d.width == image_width_of(buffer@) && d.height
            == image_height_of(buffer@),
{
    let format = image::guess_format(buffer.as_slice())?;
    match image::load_from_memory_with_format(buffer.as_slice(), format) {
        Ok(img) => Ok(DecodedImage { width: img.width(), height: img.height(), image: img }),
        Err(error) => Err(error),
    }
}

/// Imports an image from the bytes a stream yielded. An empty buffer is
/// rejected as an empty stream — distinct from bytes that are present but
/// undecodable, which are rejected as an unrecognised format. A nonempty
/// buffer imports successfully exactly when its bytes decode.
pub fn import_image_from_bytes(buffer: &Vec<u8>) -> (imported: Result<
    DecodedImage,
    MiniViewError,
>)
    ensures
        buffer@.len() == 0 ==> imported == Err::<DecodedImage, MiniViewError>(
            MiniViewError::FailedToImport(ImportError::OnStdinBytesStreamWasEmpty),
        ),
        buffer@.len() > 0 ==> (imported is Ok <==> image_decode_ok(buffer@)),
        buffer@.len() > 0 && !image_decode_ok(buffer@) ==> imported == Err::<
            DecodedImage,
            MiniViewError,
        >(MiniViewError::FailedToImport(ImportError::OnStdinBytesUnableToGuessOrLoadFormat)),
        imported matches Ok(d) ==> d.width == image_width_of(buffer@) && d.height
            == image_height_of(buffer@),
{
    if buffer.len() == 0 {
        return Err(MiniViewError::FailedToImport(ImportError::OnStdinBytesStreamWasEmpty));
    }
    match decode_from_memory(buffer) {
        Ok(decoded) => Ok(decoded),
        Err(_) => Err(
            MiniViewError::FailedToImport(ImportError::OnStdinBytesUnableToGuessOrLoadFormat),
        ),
    }
}

/// Whether this character counts as whitespace when a path is trimmed: the
/// characters with the Unicode `White_Space` property.
pub open spec fn is_blank(c: char) -> bool {
    ||| c == '\u{0009}'
    ||| c == '\u{000A}'
    ||| c == '\u{000B}'
    ||| c == '\u{000C}'
    ||| c == '\u{000D}'
    ||| c == '\u{0020}'
    ||| c == '\u{0085}'
    ||| c == '\u{00A0}'
    ||| c == '\u{1680}'
    ||| c == '\u{2000}'
    ||| c == '\u{2001}'
    ||| c == '\u{2002}'
    ||| c == '\u{2003}'
    ||| c == '\u{2004}'
    ||| c == '\u{2005}'
    ||| c == '\u{2006}'
    ||| c == '\u{2007}'
    ||| c == '\u{2008}'
    ||| c == '\u{2009}'
    ||| c == '\u{200A}'
    ||| c == '\u{2028}'
    ||| c == '\u{2029}'
    ||| c == '\u{202F}'
    ||| c == '\u{205F}'
    ||| c == '\u{3000}'
}

/// Decides [`is_blank`] for a character at run time.
fn is_blank_char(c: char) -> (blank: bool)
    ensures
        blank == is_blank(c),
{
    c == '\u{0009}' || c == '\u{000A}' || c == '\u{000B}' || c == '\u{000C}' || c == '\u{000D}'
        || c == '\u{0020}' || c == '\u{0085}' || c == '\u{00A0}' || c == '\u{1680}' || c
        == '\u{2000}' || c == '\u{2001}' || c == '\u{2002}' || c == '\u{2003}' || c == '\u{2004}'
        || c == '\u{2005}' || c == '\u{2006}' || c == '\u{2007}' || c == '\u{2008}' || c
        == '\u{2009}' || c == '\u{200A}' || c == '\u{2028}' || c == '\u{2029}' || c == '\u{202F}'
        || c == '\u{205F}' || c == '\u{3000}'
}

/// The given text with its leading whitespace removed.
pub open spec fn spec_trim_front(s: Seq<char>) -> Seq<char>
    decreases s.len(),
{
    if s.len() > 0 && is_blank(s[0]) {
        spec_trim_front(s.drop_first())
    } else {
        s
    }
}

/// The given text with its trailing whitespace removed.
pub open spec fn spec_trim_back(s: Seq<char>) -> Seq<char>
    decreases s.len(),
{
    if s.len() > 0 && is_blank(s[s.len() - 1]) {
        spec_trim_back(s.drop_last())
    } else {
        s
    }
}

/// The given text with both leading and trailing whitespace removed.
pub open spec fn spec_trimmed(s: Seq<char>) -> Seq<char> {
    spec_trim_back(spec_trim_front(s))
}

proof fn lemma_trim_front_subrange(s: Seq<char>, first_kept: int)
    requires
        0 <= first_kept <= s.len(),
        forall|i: int| 0 <= i < first_kept ==> is_blank(s[i]),
        first_kept < s.len() ==> !is_blank(s[first_kept]),
    ensures
        spec_trim_front(s) == s.subrange(first_kept, s.len() as int),
    decreases first_kept,
{
    if first_kept == 0 {
        assert(s.subrange(0, s.len() as int) =~= s);
    } else {
        assert(is_blank(s[0]));
        lemma_trim_front_subrange(s.drop_first(), first_kept - 1);
        assert(s.drop_first().subrange(first_kept - 1, s.drop_first().len() as int) =~= s.subrange(
            first_kept,
            s.len() as int,
        ));
    }
}

proof fn lemma_trim_back_subrange(s: Seq<char>, end_kept: int)
    requires
        0 <= end_kept <= s.len(),
        forall|i: int| end_kept <= i < s.len() ==> is_blank(s[i]),
        end_kept > 0 ==> !is_blank(s[end_kept - 1]),
    ensures
        spec_trim_back(s) == s.subrange(0, end_kept),
    decreases s.len(),
{
    if end_kept == s.len() {
        assert(s.subrange(0, s.len() as int) =~= s);
    } else {
        assert(is_blank(s[s.len() - 1]));
        lemma_trim_back_subrange(s.drop_last(), end_kept);
        assert(s.drop_last().subrange(0, end_kept) =~= s.subrange(0, end_kept));
    }
}

/// Removes leading and trailing whitespace from the given text.
pub fn trimmed(text: &str) -> (r: String)
    ensures
        r@ == spec_trimmed(text@),
{
    let len = text.unicode_len();
    let mut start: usize = 0;
    while start < len && is_blank_char(text.get_char(start))
        invariant
            len == text@.len(),
            start <= len,
            forall|i: int| 0 <= i < start ==> is_blank(text@[i]),
        decreases len - start,
    {
        start = start + 1;
    }
    let mut end: usize = len;
    while end > start && is_blank_char(text.get_char(end - 1))
        invariant
            len == text@.len(),
            start <= end <= len,
            forall|i: int| end <= i < len ==> is_blank(text@[i]),
        decreases end,
    {
        end = end - 1;
    }
    let core = text.substring_char(start, end);
    proof {
        lemma_trim_front_subrange(text@, start as int);
        let front: Seq<char> = text@.subrange(start as int, text@.len() as int);
        assert forall|i: int| end - start <= i < front.len() implies is_blank(front[i]) by {
            assert(front[i] == text@[i + start]);
        }
        if end > start {
            assert(front[end - start - 1] == text@[end - 1]);
        }
        lemma_trim_back_subrange(front, end as int - start as int);
        assert(front.subrange(0, end as int - start as int) =~= text@.subrange(
            start as int,
            end as int,
        ));
    }
    core.to_owned()
}

/// Normalises a path received as the whole of the standard input: the raw
/// text, exactly as it was read. The input is trimmed of surrounding
/// whitespace; an input whose trimmed result is empty — nothing was given,
/// or whitespace alone was — is rejected as an empty path, and any other
/// input yields its trimmed text as the path to use.
pub fn path_from_input(raw: &str) -> (path: Result<String, MiniViewError>)
    ensures
        spec_trimmed(raw@).len() == 0 ==> path == Err::<String, MiniViewError>(
            MiniViewError::FailedToImport(ImportError::OnStdinPathWasEmpty),
        ),
        spec_trimmed(raw@).len() > 0 ==> (path matches Ok(p) && p@ == spec_trimmed(raw@)),
{
    let core = trimmed(raw);
    if core.as_str().is_empty() {
        return Err(MiniViewError::FailedToImport(ImportError::OnStdinPathWasEmpty));
    }
    Ok(core)
}

} // verus!
