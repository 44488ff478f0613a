//! Deciding which directory entries are media files to upload.
use vstd::prelude::*;
use crate::text::{starts_with_seq, starts_with_text};

verus! {

/// The MIME type guessed for a path from its extension
/// (`application/octet-stream` where the extension is unknown).
pub uninterp spec fn mime_of(path: Seq<char>) -> Seq<char>;

/// Relies on `mime_guess::from_path(..).first_or_octet_stream()`: the guess
/// comes from a fixed table keyed by the path's extension, so it depends on
/// the path alone.
#[verifier::external_body]
pub(crate) fn guess_mime(path: &str) -> (r: String)
    ensures
        r@ == mime_of(path@),
{
    mime_guess::from_path(path).first_or_octet_stream().to_string()
}

/// The two kinds of media the uploader handles.
#[derive(Clone, Copy, Debug, PartialEq, Eq, Structural)]
pub enum MediaKind {
    Image,
    Video,
}

/// The media kind that a MIME type names, if any.
pub open spec fn kind_of_mime(mime: Seq<char>) -> Option<MediaKind> {
    if starts_with_seq(mime, "image/"@) {
        Some(MediaKind::Image)
    } else if starts_with_seq(mime, "video/"@) {
        Some(MediaKind::Video)
    } else {
        None
    }
}

/// The media kind that a MIME type names: `image/...` or `video/...`.
pub fn media_kind_of_mime(mime: &str) -> (r: Option<MediaKind>)
    ensures
        r == kind_of_mime(mime@),
{
    if starts_with_text(mime, "image/") {
        Some(MediaKind::Image)
    } else if starts_with_text(mime, "video/") {
        Some(MediaKind::Video)
    } else {
        None
    }
}

/// Whether the type guessed from the path is an image or a video.
pub fn is_image_or_video(path: &str) -> (r: bool)
    ensures
        r == (kind_of_mime(mime_of(path@)) is Some),
{
    let mime = guess_mime(path);
    media_kind_of_mime(mime.as_str()).is_some()
}

/// One entry met while walking a directory tree.
#[derive(Clone, Debug)]
pub struct DirEntryInfo {
    /// The entry's path, as text.
    pub path: String,
    /// Whether the entry is a regular file.
    pub is_file: bool,
    /// Distance from the scanned root: its direct children are at depth 1.
    pub depth: usize,
}

/// A file selected for upload.
#[derive(Clone, Debug)]
pub struct MediaFile {
    pub path: String,
    pub kind: MediaKind,
    /// Position of the entry in the walk it was selected from.
    pub entry: usize,
}

/// Whether an entry lies in the scanned scope.
pub open spec fn in_scope(e: DirEntryInfo, recursive: bool) -> bool {
    recursive || e.depth <= 1
}

/// Whether an entry is to be uploaded: a regular file in scope whose guessed
/// type is an image or a video.
pub open spec fn is_selected(e: DirEntryInfo, recursive: bool) -> bool {
    e.is_file && in_scope(e, recursive) && kind_of_mime(mime_of(e.path@)) is Some
}

/// The media file that the selected entry at position `i` becomes.
pub open spec fn media_file_of(e: DirEntryInfo, i: int) -> MediaFile {
    MediaFile { path: e.path, kind: kind_of_mime(mime_of(e.path@))->0, entry: i as usize }
}

/// The media files among `entries`, in the order of the walk.
pub open spec fn selected(entries: Seq<DirEntryInfo>, recursive: bool) -> Seq<MediaFile>
    decreases entries.len(),
{
    if entries.len() == 0 {
        Seq::empty()
    } else {
        let rest = selected(entries.drop_last(), recursive);
        if is_selected(entries.last(), recursive) {
            rest.push(media_file_of(entries.last(), entries.len() - 1))
        } else {
            rest
        }
    }
}

/// Keeps, in walk order, the entries that are regular files in scope
/// (direct children only unless `recursive`) and whose type is an image or a
/// video.
pub fn select_media(entries: &Vec<DirEntryInfo>, recursive: bool) -> (r: Vec<MediaFile>)
    ensures
        r@ == selected(entries@, recursive),
{
    let mut r: Vec<MediaFile> = Vec::new();
    let mut i: usize = 0;
    while i < entries.len()
        invariant
            i <= entries@.len(),
            r@ == selected(entries@.subrange(0, i as int), recursive),
        decreases entries@.len() - i,
    {
        let e = &entries[i];
        proof {
            assert(entries@.subrange(0, i + 1).drop_last() =~= entries@.subrange(0, i as int));
        }
        if e.is_file && (recursive || e.depth <= 1) {
            let mime = guess_mime(e.path.as_str());
            match media_kind_of_mime(mime.as_str()) {
                Some(kind) => {
                    r.push(MediaFile { path: e.path.clone(), kind, entry: i });
                },
                None => {},
            }
        }
        i = i + 1;
    }
    assert(entries@.subrange(0, entries@.len() as int) =~= entries@);
    r
}

/// The selection holds exactly the selected entries: a media file is in the
/// output if and only if some entry of the walk is a regular file in scope
/// whose guessed type is an image or a video, and it is that entry, with its
/// position.
pub proof fn lemma_selection_exact(entries: Seq<DirEntryInfo>, recursive: bool)
    ensures
        forall|m: MediaFile|
            selected(entries, recursive).contains(m) <==> exists|i: int|
                0 <= i < entries.len() && is_selected(#[trigger] entries[i], recursive)
                    && m == media_file_of(entries[i], i),
    decreases entries.len(),
{
    if entries.len() > 0 {
        let init = entries.drop_last();
        lemma_selection_exact(init, recursive);
        let rest = selected(init, recursive);
        assert forall|m: MediaFile|
            selected(entries, recursive).contains(m) <==> exists|i: int|
                0 <= i < entries.len() && is_selected(#[trigger] entries[i], recursive)
                    && m == media_file_of(entries[i], i) by {
            if selected(entries, recursive).contains(m) {
                if rest.contains(m) {
                    let j = choose|j: int|
                        0 <= j < init.len() && is_selected(#[trigger] init[j], recursive)
                            && m == media_file_of(init[j], j);
                    assert(entries[j] == init[j]);
                } else {
                    let k = selected(entries, recursive).index_of(m);
                    assert(entries[entries.len() - 1] == entries.last());
                }
            }
            if exists|i: int|
                0 <= i < entries.len() && is_selected(#[trigger] entries[i], recursive)
                    && m == media_file_of(entries[i], i) {
                let i = choose|i: int|
                    0 <= i < entries.len() && is_selected(#[trigger] entries[i], recursive)
                        && m == media_file_of(entries[i], i);
                if i < entries.len() - 1 {
                    assert(init[i] == entries[i]);
                    assert(rest.contains(m));
                    if is_selected(entries.last(), recursive) {
                        assert(rest.push(media_file_of(entries.last(), entries.len() - 1))[rest.index_of(m)] == m);
                    }
                } else {
                    let s = rest.push(media_file_of(entries.last(), entries.len() - 1));
                    assert(s[rest.len() as int] == m);
                }
            }
        }
    }
}

} // verus!
