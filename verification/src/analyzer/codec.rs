//! Whether a file is lossless or lossy, read off its extension, codec and
//! container names.

use vstd::prelude::*;
use crate::analyzer::metrics::{FileMetrics, MetricsView};
use crate::analyzer::text::{
    contains, contains_text, extension_of, file_extension, has_prefix, lower, same_text,
    starts_with, to_chars, to_lower,
};

verus! {

/// The characters of an optional name, or nothing.
pub open spec fn text_or_empty(name: Option<Seq<char>>) -> Seq<char> {
    match name {
        Some(t) => t,
        None => Seq::empty(),
    }
}

/// The lower-cased extension of the record's path.
pub open spec fn extension_key(m: MetricsView) -> Seq<char> {
    lower(extension_of(m.file_path))
}

/// The lower-cased codec name.
pub open spec fn codec_key(m: MetricsView) -> Seq<char> {
    lower(text_or_empty(m.codec_name))
}

/// The lower-cased container name.
pub open spec fn container_key(m: MetricsView) -> Seq<char> {
    lower(text_or_empty(m.container_format))
}

/// The extensions of lossless files.
pub open spec fn lossless_extension(ext: Seq<char>) -> bool {
    ext == "flac"@ || ext == "alac"@ || ext == "wav"@ || ext == "aiff"@ || ext == "aif"@
}

/// The codecs that are lossless: every PCM codec, and four by name.
pub open spec fn lossless_codec(codec: Seq<char>) -> bool {
    has_prefix(codec, "pcm_"@) || codec == "flac"@ || codec == "alac"@ || codec == "wavpack"@
        || codec == "ape"@
}

/// The containers whose name tells of a lossless format.
pub open spec fn lossless_container(container: Seq<char>) -> bool {
    contains_text(container, "flac"@) || contains_text(container, "wav"@) || contains_text(
        container,
        "aiff"@,
    )
}

/// The extensions of lossy files.
pub open spec fn lossy_extension(ext: Seq<char>) -> bool {
    ext == "mp3"@ || ext == "aac"@ || ext == "m4a"@ || ext == "ogg"@ || ext == "opus"@ || ext
        == "wma"@
}

/// The codecs that are lossy.
pub open spec fn lossy_codec(codec: Seq<char>) -> bool {
    codec == "mp3"@ || codec == "aac"@ || codec == "vorbis"@ || codec == "opus"@ || codec
        == "wmav2"@ || codec == "mp2"@ || codec == "ac3"@
}

/// The extension, the codec or the container names a lossless format.
pub open spec fn lossless(m: MetricsView) -> bool {
    lossless_extension(extension_key(m)) || lossless_codec(codec_key(m)) || lossless_container(
        container_key(m),
    )
}

/// Not lossless, and the extension or the codec names a lossy format.
pub open spec fn lossy(m: MetricsView) -> bool {
    !lossless(m) && (lossy_extension(extension_key(m)) || lossy_codec(codec_key(m)))
}

/// No record is both lossless and lossy.
pub proof fn lemma_never_both(m: MetricsView)
    ensures
        !(lossless(m) && lossy(m)),
{
}

/// The extensions, in lower case, of the files that are analysed.
pub open spec fn supported_extension(ext: Seq<char>) -> bool {
    ext == "wav"@ || ext == "mp3"@ || ext == "m4a"@ || ext == "flac"@ || ext == "aac"@ || ext
        == "ogg"@ || ext == "opus"@ || ext == "wma"@ || ext == "aiff"@ || ext == "alac"@
}

/// The supported extensions, as they are listed.
pub open spec fn supported_extension_list() -> Seq<Seq<char>> {
    seq![
        "wav"@,
        "mp3"@,
        "m4a"@,
        "flac"@,
        "aac"@,
        "ogg"@,
        "opus"@,
        "wma"@,
        "aiff"@,
        "alac"@,
    ]
}

/// The extensions of the files that are analysed, in lower case.
pub fn supported_extensions() -> (list: Vec<&'static str>)
    ensures
        list.len() == 10,
        forall|i: int| 0 <= i < 10 ==> (#[trigger] list[i])@ == supported_extension_list()[i],
{
    let mut list: Vec<&'static str> = Vec::new();
    list.push("wav");
    list.push("mp3");
    list.push("m4a");
    list.push("flac");
    list.push("aac");
    list.push("ogg");
    list.push("opus");
    list.push("wma");
    list.push("aiff");
    list.push("alac");
    list
}

/// Whether the file at `path` is analysed: its extension, in any case, is
/// one of the supported ones.
pub fn is_supported_audio_file(path: &str) -> (supported: bool)
    ensures
        supported == supported_extension(lower(extension_of(path@))),
{
    let ext = to_lower(&file_extension(&to_chars(path)));
    same_text(&ext, &to_chars("wav")) || same_text(&ext, &to_chars("mp3")) || same_text(
        &ext,
        &to_chars("m4a"),
    ) || same_text(&ext, &to_chars("flac")) || same_text(&ext, &to_chars("aac")) || same_text(
        &ext,
        &to_chars("ogg"),
    ) || same_text(&ext, &to_chars("opus")) || same_text(&ext, &to_chars("wma")) || same_text(
        &ext,
        &to_chars("aiff"),
    ) || same_text(&ext, &to_chars("alac"))
}

fn name_key(name: &Option<String>) -> (key: Vec<char>)
    ensures
        key@ == lower(text_or_empty(crate::analyzer::metrics::text_of(*name))),
{
    match name {
        Some(t) => to_lower(&to_chars(t.as_str())),
        None => {
            let key: Vec<char> = Vec::new();
            assert(key@ =~= lower(Seq::<char>::empty()));
            key
        },
    }
}

fn path_key(metrics: &FileMetrics) -> (key: Vec<char>)
    ensures
        key@ == extension_key(metrics@),
{
    to_lower(&file_extension(&to_chars(metrics.file_path.as_str())))
}

/// Whether the record is of a lossless file.
pub fn is_lossless(metrics: &FileMetrics) -> (b: bool)
    ensures
        b == lossless(metrics@),
{
    let ext = path_key(metrics);
    let codec = name_key(&metrics.codec_name);
    let container = name_key(&metrics.container_format);
    let by_ext = same_text(&ext, &to_chars("flac")) || same_text(&ext, &to_chars("alac"))
        || same_text(&ext, &to_chars("wav")) || same_text(&ext, &to_chars("aiff")) || same_text(
        &ext,
        &to_chars("aif"),
    );
    let by_codec = starts_with(&codec, &to_chars("pcm_")) || same_text(&codec, &to_chars("flac"))
        || same_text(&codec, &to_chars("alac")) || same_text(&codec, &to_chars("wavpack"))
        || same_text(&codec, &to_chars("ape"));
    let by_container = contains(&container, &to_chars("flac")) || contains(
        &container,
        &to_chars("wav"),
    ) || contains(&container, &to_chars("aiff"));
    by_ext || by_codec || by_container
}

/// Whether the record is of a lossy file.
pub fn is_lossy(metrics: &FileMetrics) -> (b: bool)
    ensures
        b == lossy(metrics@),
{
    if is_lossless(metrics) {
        return false;
    }
    let ext = path_key(metrics);
    let codec = name_key(&metrics.codec_name);
    let by_ext = same_text(&ext, &to_chars("mp3")) || same_text(&ext, &to_chars("aac"))
        || same_text(&ext, &to_chars("m4a")) || same_text(&ext, &to_chars("ogg")) || same_text(
        &ext,
        &to_chars("opus"),
    ) || same_text(&ext, &to_chars("wma"));
    let by_codec = same_text(&codec, &to_chars("mp3")) || same_text(&codec, &to_chars("aac"))
        || same_text(&codec, &to_chars("vorbis")) || same_text(&codec, &to_chars("opus"))
        || same_text(&codec, &to_chars("wmav2")) || same_text(&codec, &to_chars("mp2"))
        || same_text(&codec, &to_chars("ac3"));
    by_ext || by_codec
}

} // verus!
