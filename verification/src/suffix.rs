//! What a file name tells of the message that carries the file.
use vstd::prelude::*;

use crate::constants::Viewtype;
use crate::path;
use crate::text;

verus! {

/// The type of message and the MIME type for the known suffixes, in lower case.
pub open spec fn known_suffix(suffix: Seq<char>) -> Option<(Viewtype, Seq<char>)> {
    if suffix == "mp3"@ {
        Some((Viewtype::Audio, "audio/mpeg"@))
    } else if suffix == "aac"@ {
        Some((Viewtype::Audio, "audio/aac"@))
    } else if suffix == "mp4"@ {
        Some((Viewtype::Video, "video/mp4"@))
    } else if suffix == "jpg"@ || suffix == "jpeg"@ || suffix == "jpe"@ {
        Some((Viewtype::Image, "image/jpeg"@))
    } else if suffix == "png"@ {
        Some((Viewtype::Image, "image/png"@))
    } else if suffix == "webp"@ {
        Some((Viewtype::Image, "image/webp"@))
    } else if suffix == "gif"@ {
        Some((Viewtype::Gif, "image/gif"@))
    } else if suffix == "vcf"@ || suffix == "vcard"@ {
        Some((Viewtype::File, "text/vcard"@))
    } else {
        None
    }
}

/// What the suffix of a path tells, in whatever case it is written.
pub open spec fn guessed_msgtype(path: Seq<char>) -> Option<(Viewtype, Seq<char>)> {
    match path::extension_of(path) {
        Some(suffix) => known_suffix(text::lowercase(suffix)),
        None => None,
    }
}

/// The type of message and the MIME type for a suffix in lower case.
pub fn msgtype_of_suffix(suffix: &str) -> (r: Option<(Viewtype, &'static str)>)
    ensures
        match r {
            Some((viewtype, mime)) => known_suffix(suffix@) == Some((viewtype, mime@)),
            None => known_suffix(suffix@) is None,
        },
{
    if text::same(suffix, "mp3") {
        Some((Viewtype::Audio, "audio/mpeg"))
    } else if text::same(suffix, "aac") {
        Some((Viewtype::Audio, "audio/aac"))
    } else if text::same(suffix, "mp4") {
        Some((Viewtype::Video, "video/mp4"))
    } else if text::same(suffix, "jpg") || text::same(suffix, "jpeg") || text::same(suffix, "jpe") {
        Some((Viewtype::Image, "image/jpeg"))
    } else if text::same(suffix, "png") {
        Some((Viewtype::Image, "image/png"))
    } else if text::same(suffix, "webp") {
        Some((Viewtype::Image, "image/webp"))
    } else if text::same(suffix, "gif") {
        Some((Viewtype::Gif, "image/gif"))
    } else if text::same(suffix, "vcf") || text::same(suffix, "vcard") {
        Some((Viewtype::File, "text/vcard"))
    } else {
        None
    }
}

/// Guesses the type of message and the MIME type from a suffix, in whatever case it is written.
pub fn guess_msgtype_from_extension(suffix: &str) -> (r: Option<(Viewtype, &'static str)>)
    ensures
        match r {
            Some((viewtype, mime)) => known_suffix(text::lowercase(suffix@)) == Some(
                (viewtype, mime@),
            ),
            None => known_suffix(text::lowercase(suffix@)) is None,
        },
        vstd::utf8::is_ascii_chars(suffix@) ==> (match r {
            Some((viewtype, mime)) => known_suffix(text::ascii_lowercase(suffix@)) == Some(
                (viewtype, mime@),
            ),
            None => known_suffix(text::ascii_lowercase(suffix@)) is None,
        }),
{
    let suffix: String = text::to_lowercase(suffix);
    msgtype_of_suffix(suffix.as_str())
}

/// Guesses the type of message and the MIME type from the suffix of a path.
pub fn guess_msgtype_from_suffix(path: &str) -> (r: Option<(Viewtype, &'static str)>)
    ensures
        match r {
            Some((viewtype, mime)) => guessed_msgtype(path@) == Some((viewtype, mime@)),
            None => guessed_msgtype(path@) is None,
        },
        path::extension_of(path@) matches Some(suffix) ==> vstd::utf8::is_ascii_chars(suffix) ==> (
        match r {
            Some((viewtype, mime)) => known_suffix(text::ascii_lowercase(suffix)) == Some(
                (viewtype, mime@),
            ),
            None => known_suffix(text::ascii_lowercase(suffix)) is None,
        }),
{
    match path::extension(path) {
        Some(suffix) => guess_msgtype_from_extension(suffix),
        None => None,
    }
}

/// The suffixes that tell something, and what each of them tells. Any other tells nothing.
pub proof fn known_suffixes(suffix: Seq<char>)
    ensures
        match known_suffix(suffix) {
            Some((viewtype, mime)) => {
                ||| suffix == "mp3"@ && viewtype is Audio && mime == "audio/mpeg"@
                ||| suffix == "aac"@ && viewtype is Audio && mime == "audio/aac"@
                ||| suffix == "mp4"@ && viewtype is Video && mime == "video/mp4"@
                ||| suffix == "jpg"@ && viewtype is Image && mime == "image/jpeg"@
                ||| suffix == "jpeg"@ && viewtype is Image && mime == "image/jpeg"@
                ||| suffix == "jpe"@ && viewtype is Image && mime == "image/jpeg"@
                ||| suffix == "png"@ && viewtype is Image && mime == "image/png"@
                ||| suffix == "webp"@ && viewtype is Image && mime == "image/webp"@
                ||| suffix == "gif"@ && viewtype is Gif && mime == "image/gif"@
                ||| suffix == "vcf"@ && viewtype is File && mime == "text/vcard"@
                ||| suffix == "vcard"@ && viewtype is File && mime == "text/vcard"@
            },
            None => {
                &&& suffix != "mp3"@ && suffix != "aac"@ && suffix != "mp4"@ && suffix != "jpg"@
                &&& suffix != "jpeg"@ && suffix != "jpe"@ && suffix != "png"@ && suffix != "webp"@
                &&& suffix != "gif"@ && suffix != "vcf"@ && suffix != "vcard"@
            },
        },
{
}

/// The guess rests on the suffix in lower case alone: the directory and the name in front of it do
/// not matter, and without a suffix nothing is guessed.
pub proof fn the_suffix_decides(dir: Seq<char>, stem: Seq<char>, ext: Seq<char>)
    requires
        stem.len() > 0,
        forall|i: int| 0 <= i < stem.len() ==> stem[i] != '/',
        forall|i: int| 0 <= i < ext.len() ==> ext[i] != '/' && ext[i] != '.',
        stem + seq!['.'] + ext != seq!['.', '.'],
    ensures
        guessed_msgtype(dir + seq!['/'] + (stem + seq!['.'] + ext)) == known_suffix(
            text::lowercase(ext),
        ),
        ext.len() > 0 ==> guessed_msgtype(ext) is None,
{
    path::extensions_end_file_names(dir, stem, ext);
    if ext.len() > 0 {
        path::names_without_extension(ext);
    }
}

} // verus!
