//! MIME types of the image formats the clipboard classifier knows about.

use crate::text::same_text;
use std::str::FromStr;
use vstd::prelude::*;

verus! {

/// A known image MIME type, or the text of one that is not recognised.
#[derive(Debug, Clone, PartialEq, Eq, Hash)]
pub enum ImageMimeType {
    Png,
    Jpeg,
    Gif,
    Webp,
    Bmp,
    Svg,
    Ico,
    /// Any MIME type that is not one of the above, with its text as it came.
    Unknown(String),
}

/// The mathematical value of an [`ImageMimeType`].
pub enum MimeView {
    Png,
    Jpeg,
    Gif,
    Webp,
    Bmp,
    Svg,
    Ico,
    Unknown(Seq<char>),
}

impl View for ImageMimeType {
    type V = MimeView;

    open spec fn view(&self) -> MimeView {
        match self {
            ImageMimeType::Png => MimeView::Png,
            ImageMimeType::Jpeg => MimeView::Jpeg,
            ImageMimeType::Gif => MimeView::Gif,
            ImageMimeType::Webp => MimeView::Webp,
            ImageMimeType::Bmp => MimeView::Bmp,
            ImageMimeType::Svg => MimeView::Svg,
            ImageMimeType::Ico => MimeView::Ico,
            ImageMimeType::Unknown(text) => MimeView::Unknown(text@),
        }
    }
}

/// The error of the strict parser: the text names no known image MIME type.
#[derive(Debug, PartialEq, Eq)]
pub struct ParseImageMimeTypeError;

/// The MIME type that a file extension stands for, if it is an image extension.
/// The comparison is exact: no case folding, no leading dot.
pub open spec fn mime_of_extension(ext: Seq<char>) -> Option<MimeView> {
    if ext == "png"@ {
        Some(MimeView::Png)
    } else if ext == "jpg"@ || ext == "jpeg"@ {
        Some(MimeView::Jpeg)
    } else if ext == "gif"@ {
        Some(MimeView::Gif)
    } else if ext == "bmp"@ {
        Some(MimeView::Bmp)
    } else if ext == "webp"@ {
        Some(MimeView::Webp)
    } else if ext == "svg"@ {
        Some(MimeView::Svg)
    } else if ext == "ico"@ {
        Some(MimeView::Ico)
    } else {
        None
    }
}

/// The known MIME type that `name` spells, if any. Two spellings are accepted
/// for JPEG and for icons.
pub open spec fn parse_mime(name: Seq<char>) -> Option<MimeView> {
    if name == "image/png"@ {
        Some(MimeView::Png)
    } else if name == "image/jpeg"@ || name == "image/jpg"@ {
        Some(MimeView::Jpeg)
    } else if name == "image/gif"@ {
        Some(MimeView::Gif)
    } else if name == "image/webp"@ {
        Some(MimeView::Webp)
    } else if name == "image/bmp"@ {
        Some(MimeView::Bmp)
    } else if name == "image/svg+xml"@ {
        Some(MimeView::Svg)
    } else if name == "image/x-icon"@ || name == "image/vnd.microsoft.icon"@ {
        Some(MimeView::Ico)
    } else {
        None
    }
}

/// The MIME type that `name` denotes: the known type it spells, or `Unknown`
/// holding `name` itself.
pub open spec fn mime_of_name(name: Seq<char>) -> MimeView {
    match parse_mime(name) {
        Some(mime) => mime,
        None => MimeView::Unknown(name),
    }
}

/// The canonical text of a MIME type.
pub open spec fn mime_text(mime: MimeView) -> Seq<char> {
    match mime {
        MimeView::Png => "image/png"@,
        MimeView::Jpeg => "image/jpeg"@,
        MimeView::Gif => "image/gif"@,
        MimeView::Webp => "image/webp"@,
        MimeView::Bmp => "image/bmp"@,
        MimeView::Svg => "image/svg+xml"@,
        MimeView::Ico => "image/vnd.microsoft.icon"@,
        MimeView::Unknown(text) => text,
    }
}

/// The view of an optional MIME type.
pub open spec fn opt_mime_view(mime: Option<ImageMimeType>) -> Option<MimeView> {
    match mime {
        Some(m) => Some(m@),
        None => None,
    }
}

/// Printing and parsing agree: the text of a known type parses back to that
/// type, strictly and leniently.
pub proof fn law_known_text_parses_back(mime: MimeView)
    requires
        !(mime is Unknown),
    ensures
        parse_mime(mime_text(mime)) == Some(mime),
        mime_of_name(mime_text(mime)) == mime,
{
    reveal_strlit("image/png");
    reveal_strlit("image/jpeg");
    reveal_strlit("image/jpg");
    reveal_strlit("image/gif");
    reveal_strlit("image/webp");
    reveal_strlit("image/bmp");
    reveal_strlit("image/svg+xml");
    reveal_strlit("image/x-icon");
    reveal_strlit("image/vnd.microsoft.icon");
    let text = mime_text(mime);
    if text.len() == 9 {
        assert("image/png"@[6] == 'p');
        assert("image/jpg"@[6] == 'j');
        assert("image/gif"@[6] == 'g');
        assert("image/bmp"@[6] == 'b');
    } else if text.len() == 10 {
        assert("image/jpeg"@[6] == 'j');
        assert("image/webp"@[6] == 'w');
    }
}

impl ImageMimeType {
    /// The MIME type for a file extension, `None` when the extension is not
    /// one of the eight image extensions.
    pub fn from_ext(ext: &str) -> (mime: Option<Self>)
        ensures
            opt_mime_view(mime) == mime_of_extension(ext@),
    {
        if same_text(ext, "png") {
            Some(ImageMimeType::Png)
        } else if same_text(ext, "jpg") || same_text(ext, "jpeg") {
            Some(ImageMimeType::Jpeg)
        } else if same_text(ext, "gif") {
            Some(ImageMimeType::Gif)
        } else if same_text(ext, "bmp") {
            Some(ImageMimeType::Bmp)
        } else if same_text(ext, "webp") {
            Some(ImageMimeType::Webp)
        } else if same_text(ext, "svg") {
            Some(ImageMimeType::Svg)
        } else if same_text(ext, "ico") {
            Some(ImageMimeType::Ico)
        } else {
            None
        }
    }

    /// Strict parsing: the known type that `s` spells, or the parse error when
    /// it spells none.
    pub fn parse_strict(s: &str) -> (parsed: Result<Self, ParseImageMimeTypeError>)
        ensures
            match parsed {
                Ok(mime) => parse_mime(s@) == Some(mime@),
                Err(_) => parse_mime(s@) is None,
            },
    {
        if same_text(s, "image/png") {
            Ok(ImageMimeType::Png)
        } else if same_text(s, "image/jpeg") || same_text(s, "image/jpg") {
            Ok(ImageMimeType::Jpeg)
        } else if same_text(s, "image/gif") {
            Ok(ImageMimeType::Gif)
        } else if same_text(s, "image/webp") {
            Ok(ImageMimeType::Webp)
        } else if same_text(s, "image/bmp") {
            Ok(ImageMimeType::Bmp)
        } else if same_text(s, "image/svg+xml") {
            Ok(ImageMimeType::Svg)
        } else if same_text(s, "image/x-icon") || same_text(s, "image/vnd.microsoft.icon") {
            Ok(ImageMimeType::Ico)
        } else {
            Err(ParseImageMimeTypeError)
        }
    }

    /// Lenient parsing: never fails, an unrecognised text is kept in `Unknown`.
    pub fn from_name(s: &str) -> (mime: Self)
        ensures
            mime@ == mime_of_name(s@),
    {
        match ImageMimeType::parse_strict(s) {
            Ok(mime) => mime,
            Err(_) => ImageMimeType::Unknown(s.to_owned()),
        }
    }

    /// The MIME string of this type, for printing.
    pub fn to_string(&self) -> (text: String)
        ensures
            text@ == mime_text(self@),
    {
        match self {
            ImageMimeType::Png => "image/png".to_owned(),
            ImageMimeType::Jpeg => "image/jpeg".to_owned(),
            ImageMimeType::Gif => "image/gif".to_owned(),
            ImageMimeType::Webp => "image/webp".to_owned(),
            ImageMimeType::Bmp => "image/bmp".to_owned(),
            ImageMimeType::Svg => "image/svg+xml".to_owned(),
            ImageMimeType::Ico => "image/vnd.microsoft.icon".to_owned(),
            ImageMimeType::Unknown(text) => text.clone(),
        }
    }

    /// An independent copy with the same value.
    pub fn duplicate(&self) -> (copy: Self)
        ensures
            copy@ == self@,
    {
        match self {
            ImageMimeType::Png => ImageMimeType::Png,
            ImageMimeType::Jpeg => ImageMimeType::Jpeg,
            ImageMimeType::Gif => ImageMimeType::Gif,
            ImageMimeType::Webp => ImageMimeType::Webp,
            ImageMimeType::Bmp => ImageMimeType::Bmp,
            ImageMimeType::Svg => ImageMimeType::Svg,
            ImageMimeType::Ico => ImageMimeType::Ico,
            ImageMimeType::Unknown(text) => ImageMimeType::Unknown(text.clone()),
        }
    }
}

impl FromStr for ImageMimeType {
    type Err = ParseImageMimeTypeError;

    fn from_str(s: &str) -> (parsed: Result<Self, Self::Err>)
        ensures
            match parsed {
                Ok(mime) => parse_mime(s@) == Some(mime@),
                Err(_) => parse_mime(s@) is None,
            },
    {
        ImageMimeType::parse_strict(s)
    }
}

} // verus!
