//! The typed content of one clipboard change.

use crate::mime_type::{ImageMimeType, MimeView};
use vstd::prelude::*;

verus! {

/// A filesystem path as the platform handed it over, with the extension that
/// the platform's own path rules find in it (no leading dot), if any.
#[derive(Debug, Clone, PartialEq, Eq, Hash)]
pub struct FilePath {
    pub path: String,
    pub extension: Option<String>,
}

/// The mathematical value of a [`FilePath`].
pub struct FilePathView {
    pub path: Seq<char>,
    pub extension: Option<Seq<char>>,
}

/// The view of an optional string.
pub open spec fn opt_text_view(text: Option<String>) -> Option<Seq<char>> {
    match text {
        Some(t) => Some(t@),
        None => None,
    }
}

impl View for FilePath {
    type V = FilePathView;

    open spec fn view(&self) -> FilePathView {
        FilePathView { path: self.path@, extension: opt_text_view(self.extension) }
    }
}

impl FilePath {
    /// An independent copy with the same value.
    pub fn duplicate(&self) -> (copy: Self)
        ensures
            copy@ == self@,
    {
        let extension = match &self.extension {
            Some(ext) => Some(ext.clone()),
            None => None,
        };
        FilePath { path: self.path.clone(), extension }
    }
}

/// The views of a list of paths, in order.
pub open spec fn paths_view(paths: Seq<FilePath>) -> Seq<FilePathView> {
    paths.map_values(|p: FilePath| p@)
}

/// Copies a list of paths.
pub fn duplicate_paths(paths: &Vec<FilePath>) -> (copy: Vec<FilePath>)
    ensures
        paths_view(copy@) == paths_view(paths@),
{
    let mut copy: Vec<FilePath> = Vec::new();
    let mut index: usize = 0;
    while index < paths.len()
        invariant
            index <= paths.len(),
            copy.len() == index,
            forall|k: int| 0 <= k < index ==> copy[k]@ == paths[k]@,
        decreases paths.len() - index,
    {
        copy.push(paths[index].duplicate());
        index += 1;
    }
    assert(paths_view(copy@) =~= paths_view(paths@));
    copy
}

/// The view of an optional path.
pub open spec fn opt_path_view(path: Option<FilePath>) -> Option<FilePathView> {
    match path {
        Some(p) => Some(p@),
        None => None,
    }
}

/// An image from the clipboard.
#[derive(Debug, Clone, PartialEq, Eq, Hash)]
pub struct ClipboardImage {
    /// The encoded bytes of the image.
    pub bytes: Vec<u8>,
    /// The path to the image's file, if one can be detected.
    pub path: Option<FilePath>,
    /// The MIME type of `bytes`.
    pub mime: ImageMimeType,
}

/// The mathematical value of a [`ClipboardImage`].
pub struct ImageView {
    pub bytes: Seq<u8>,
    pub path: Option<FilePathView>,
    pub mime: MimeView,
}

impl View for ClipboardImage {
    type V = ImageView;

    open spec fn view(&self) -> ImageView {
        ImageView { bytes: self.bytes@, path: opt_path_view(self.path), mime: self.mime@ }
    }
}

impl ClipboardImage {
    /// Checks whether the image has a file path attached to it.
    pub fn has_path(&self) -> (attached: bool)
        ensures
            attached == (self@.path is Some),
    {
        self.path.is_some()
    }
}

/// The content extracted from the clipboard: exactly one interpretation of one
/// change, chosen by the classifier's priority order.
#[derive(Debug, Clone, PartialEq, Eq, Hash)]
pub enum Body {
    Html(String),
    PlainText(String),
    RichText(String),
    Image(ClipboardImage),
    FileList(Vec<FilePath>),
    Custom { name: String, data: Vec<u8> },
}

/// The mathematical value of a [`Body`].
pub enum BodyView {
    Html(Seq<char>),
    PlainText(Seq<char>),
    RichText(Seq<char>),
    Image(ImageView),
    FileList(Seq<FilePathView>),
    Custom { name: Seq<char>, data: Seq<u8> },
}

impl View for Body {
    type V = BodyView;

    open spec fn view(&self) -> BodyView {
        match self {
            Body::Html(text) => BodyView::Html(text@),
            Body::PlainText(text) => BodyView::PlainText(text@),
            Body::RichText(text) => BodyView::RichText(text@),
            Body::Image(image) => BodyView::Image(image@),
            Body::FileList(paths) => BodyView::FileList(paths_view(paths@)),
            Body::Custom { name, data } => BodyView::Custom { name: name@, data: data@ },
        }
    }
}

} // verus!
