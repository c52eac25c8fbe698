//! The content classifier: a state machine that questions the native
//! clipboard provider one query at a time and settles on exactly one
//! [`Body`], or on a failure, for each clipboard change.
//!
//! The machine only decides. Whoever drives it performs each [`Query`]
//! against the provider and hands the [`Reply`] back to [`Classifier::step`].
//! The priority order is: custom formats in configuration order, a native
//! image, the file list, then HTML, rich text and plain text. A payload is
//! transferred only after its advertised size passed the byte ceiling.

use crate::body::{duplicate_paths, paths_view, Body, BodyView, ClipboardImage, FilePath, FilePathView, ImageView};
use crate::config::{fits, within_ceiling, ClipboardConfig, ConfigView};
use crate::error::{ClipboardError, ErrorView};
use crate::image::{convert_dib_to_png, file_is_image, image_extension, png_of_dib};
use crate::mime_type::{mime_of_extension, ImageMimeType, MimeView};
use vstd::prelude::*;

verus! {

/// A clipboard format that the classifier can ask for.
#[derive(Debug, Clone, Copy, PartialEq, Eq)]
pub enum Format {
    /// The custom format at this position of the configured list.
    Custom(usize),
    /// An image in the canonical encoding, PNG.
    Png,
    /// A device-independent bitmap.
    Dib,
    /// The list of files.
    FileList,
    /// An HTML fragment.
    Html,
    /// Rich text.
    RichText,
    /// Unicode plain text.
    PlainText,
}

/// What the provider transfers for a format.
#[derive(Debug, Clone, PartialEq, Eq)]
pub enum Payload {
    Bytes(Vec<u8>),
    Files(Vec<FilePath>),
    Text(String),
}

/// The mathematical value of a [`Payload`].
pub enum PayloadView {
    Bytes(Seq<u8>),
    Files(Seq<FilePathView>),
    Text(Seq<char>),
}

impl View for Payload {
    type V = PayloadView;

    open spec fn view(&self) -> PayloadView {
        match self {
            Payload::Bytes(bytes) => PayloadView::Bytes(bytes@),
            Payload::Files(files) => PayloadView::Files(paths_view(files@)),
            Payload::Text(text) => PayloadView::Text(text@),
        }
    }
}

impl Payload {
    /// An independent copy with the same value.
    pub fn duplicate(&self) -> (copy: Self)
        ensures
            copy@ == self@,
    {
        match self {
            Payload::Bytes(bytes) => Payload::Bytes(bytes.clone()),
            Payload::Files(files) => Payload::Files(duplicate_paths(files)),
            Payload::Text(text) => Payload::Text(text.clone()),
        }
    }
}

/// One question to the provider.
#[derive(Debug, Clone, PartialEq, Eq)]
pub enum Query {
    /// Open an exclusive session on the clipboard.
    Open,
    /// The advertised size of a format, without transferring its payload.
    Size(Format),
    /// The payload of a format.
    Read(Format),
    /// The size on disk of a file.
    FileSize(FilePath),
    /// The bytes of a file on disk.
    ReadFile(FilePath),
}

/// The mathematical value of a [`Query`].
pub enum QueryView {
    Open,
    Size(Format),
    Read(Format),
    FileSize(FilePathView),
    ReadFile(FilePathView),
}

impl View for Query {
    type V = QueryView;

    open spec fn view(&self) -> QueryView {
        match self {
            Query::Open => QueryView::Open,
            Query::Size(format) => QueryView::Size(*format),
            Query::Read(format) => QueryView::Read(*format),
            Query::FileSize(path) => QueryView::FileSize(path@),
            Query::ReadFile(path) => QueryView::ReadFile(path@),
        }
    }
}

/// The provider's answer to one query.
#[derive(Debug, Clone, PartialEq, Eq)]
pub enum Reply {
    /// The session is open.
    Opened,
    /// The session could not be opened; the text says why.
    Refused(String),
    /// The format or file is not there, or could not be read.
    Absent,
    /// An advertised size in bytes.
    Size(u64),
    /// A transferred payload.
    Content(Payload),
}

/// The mathematical value of a [`Reply`].
pub enum ReplyView {
    Opened,
    Refused(Seq<char>),
    Absent,
    Size(u64),
    Content(PayloadView),
}

impl View for Reply {
    type V = ReplyView;

    open spec fn view(&self) -> ReplyView {
        match self {
            Reply::Opened => ReplyView::Opened,
            Reply::Refused(reason) => ReplyView::Refused(reason@),
            Reply::Absent => ReplyView::Absent,
            Reply::Size(size) => ReplyView::Size(*size),
            Reply::Content(payload) => ReplyView::Content(payload@),
        }
    }
}

/// The state of one classification attempt: the query that is outstanding
/// and what earlier answers left to remember.
#[derive(Debug, Clone, PartialEq, Eq)]
pub enum Classifier {
    /// Waiting for the session to open.
    Opening,
    /// Waiting for the advertised size of `format`. `image` holds the image
    /// bytes found so far; it is only ever set while the file list is probed.
    Sizing { format: Format, image: Option<Vec<u8>> },
    /// Waiting for the payload of `format`, whose size passed the ceiling.
    Reading { format: Format, image: Option<Vec<u8>> },
    /// Waiting for the on-disk size of the single image file in `files`.
    DiskSizing { files: Vec<FilePath> },
    /// Waiting for the bytes of the single image file in `files`.
    DiskReading { files: Vec<FilePath> },
}

/// The mathematical value of a [`Classifier`].
pub enum StageView {
    Opening,
    Sizing { format: Format, image: Option<Seq<u8>> },
    Reading { format: Format, image: Option<Seq<u8>> },
    DiskSizing { files: Seq<FilePathView> },
    DiskReading { files: Seq<FilePathView> },
}

/// The view of optional bytes held by the machine.
pub open spec fn held_view(image: Option<Vec<u8>>) -> Option<Seq<u8>> {
    match image {
        Some(bytes) => Some(bytes@),
        None => None,
    }
}

impl View for Classifier {
    type V = StageView;

    open spec fn view(&self) -> StageView {
        match self {
            Classifier::Opening => StageView::Opening,
            Classifier::Sizing { format, image } => StageView::Sizing {
                format: *format,
                image: held_view(*image),
            },
            Classifier::Reading { format, image } => StageView::Reading {
                format: *format,
                image: held_view(*image),
            },
            Classifier::DiskSizing { files } => StageView::DiskSizing { files: paths_view(files@) },
            Classifier::DiskReading { files } => StageView::DiskReading {
                files: paths_view(files@),
            },
        }
    }
}

/// The mathematical value of a classification result.
pub open spec fn outcome_view(outcome: Result<Body, ClipboardError>) -> Result<
    BodyView,
    ErrorView,
> {
    match outcome {
        Ok(body) => Ok(body@),
        Err(error) => Err(error@),
    }
}

/// What the machine does next: ask another question, or finish.
#[derive(Debug, PartialEq, Eq)]
pub enum Step {
    /// Put the query to the provider and come back with its reply.
    Ask(Classifier, Query),
    /// The attempt is over.
    Done(Result<Body, ClipboardError>),
}

/// The mathematical value of a [`Step`].
pub enum StepView {
    Ask(StageView, QueryView),
    Done(Result<BodyView, ErrorView>),
}

impl View for Step {
    type V = StepView;

    open spec fn view(&self) -> StepView {
        match self {
            Step::Ask(stage, query) => StepView::Ask(stage@, query@),
            Step::Done(outcome) => StepView::Done(outcome_view(*outcome)),
        }
    }
}

/// The ceiling on the advertised size of `format`: native images go by the
/// image ceiling, everything else by the general one.
pub open spec fn ceiling_for(format: Format, config: ConfigView) -> Option<u64> {
    match format {
        Format::Png => config.image_ceiling(),
        Format::Dib => config.image_ceiling(),
        _ => config.max_bytes,
    }
}

/// The step that starts probing `format`: ask for its advertised size.
pub open spec fn probe(format: Format, image: Option<Seq<u8>>) -> StepView {
    StepView::Ask(StageView::Sizing { format, image }, QueryView::Size(format))
}

/// The format probed first once the session is open.
pub open spec fn first_format(config: ConfigView) -> Format {
    if config.custom_format_names.len() > 0 {
        Format::Custom(0)
    } else {
        Format::Png
    }
}

/// The step taken once the image tier is decided: with or without image
/// bytes, the file list is probed next.
pub open spec fn after_image_probe(image: Option<Seq<u8>>) -> StepView {
    probe(Format::FileList, image)
}

/// The step taken once the probe of the file list is decided, `files` being
/// the list that was read, if any.
pub open spec fn settle_files(
    files: Option<Seq<FilePathView>>,
    image: Option<Seq<u8>>,
) -> StepView {
    match image {
        Some(bytes) => StepView::Done(
            Ok(
                BodyView::Image(
                    ImageView {
                        bytes,
                        path: match files {
                            Some(list) => if list.len() == 1 {
                                Some(list[0])
                            } else {
                                None
                            },
                            None => None,
                        },
                        mime: MimeView::Png,
                    },
                ),
            ),
        ),
        None => match files {
            Some(list) => if list.len() == 1 && image_extension(list[0].extension) {
                StepView::Ask(StageView::DiskSizing { files: list }, QueryView::FileSize(list[0]))
            } else {
                StepView::Done(Ok(BodyView::FileList(list)))
            },
            None => probe(Format::Html, None),
        },
    }
}

/// The step taken once the probe of `format` is decided. `payload` is what
/// was read, or `None` where the format is absent, over its ceiling or
/// unreadable. A payload of the wrong kind counts as none.
pub open spec fn settle(
    format: Format,
    payload: Option<PayloadView>,
    image: Option<Seq<u8>>,
    config: ConfigView,
) -> StepView {
    match format {
        Format::Custom(index) => match payload {
            Some(PayloadView::Bytes(data)) if index < config.custom_format_names.len() => {
                StepView::Done(
                    Ok(BodyView::Custom { name: config.custom_format_names[index as int], data }),
                )
            },
            _ => if index + 1 < config.custom_format_names.len() {
                probe(Format::Custom((index + 1) as usize), None)
            } else {
                probe(Format::Png, None)
            },
        },
        Format::Png => match payload {
            Some(PayloadView::Bytes(bytes)) => after_image_probe(Some(bytes)),
            _ => probe(Format::Dib, None),
        },
        Format::Dib => match payload {
            Some(PayloadView::Bytes(dib)) => after_image_probe(png_of_dib(dib)),
            _ => after_image_probe(None),
        },
        Format::FileList => match payload {
            Some(PayloadView::Files(list)) => settle_files(Some(list), image),
            _ => settle_files(None, image),
        },
        Format::Html => match payload {
            Some(PayloadView::Text(text)) => StepView::Done(Ok(BodyView::Html(text))),
            _ => probe(Format::RichText, None),
        },
        Format::RichText => match payload {
            Some(PayloadView::Text(text)) => StepView::Done(Ok(BodyView::RichText(text))),
            _ => probe(Format::PlainText, None),
        },
        Format::PlainText => match payload {
            Some(PayloadView::Text(text)) => StepView::Done(Ok(BodyView::PlainText(text))),
            _ => StepView::Done(Err(ErrorView::UnknownDataType)),
        },
    }
}

/// The image that the single file of `files` becomes once its bytes are
/// read from disk, if the list is such a single image file.
pub open spec fn promoted_image(files: Seq<FilePathView>, bytes: Seq<u8>) -> Option<ImageView> {
    if files.len() == 1 && image_extension(files[0].extension) {
        Some(
            ImageView {
                bytes,
                path: Some(files[0]),
                mime: mime_of_extension(files[0].extension->0)->0,
            },
        )
    } else {
        None
    }
}

/// The transition function of the classifier: the step taken in `stage` on
/// `reply`.
pub open spec fn step_spec(stage: StageView, reply: ReplyView, config: ConfigView) -> StepView {
    match stage {
        StageView::Opening => match reply {
            ReplyView::Refused(reason) => StepView::Done(Err(ErrorView::ReadError(reason))),
            _ => probe(first_format(config), None),
        },
        StageView::Sizing { format, image } => match reply {
            ReplyView::Size(size) if within_ceiling(size, ceiling_for(format, config)) => {
                StepView::Ask(StageView::Reading { format, image }, QueryView::Read(format))
            },
            _ => settle(format, None, image, config),
        },
        StageView::Reading { format, image } => match reply {
            ReplyView::Content(payload) => settle(format, Some(payload), image, config),
            _ => settle(format, None, image, config),
        },
        StageView::DiskSizing { files } => match reply {
            ReplyView::Size(size) if files.len() == 1 && within_ceiling(size, config.max_bytes) => {
                StepView::Ask(StageView::DiskReading { files }, QueryView::ReadFile(files[0]))
            },
            _ => StepView::Done(Ok(BodyView::FileList(files))),
        },
        StageView::DiskReading { files } => match reply {
            ReplyView::Content(PayloadView::Bytes(bytes)) => match promoted_image(files, bytes) {
                Some(image) => StepView::Done(Ok(BodyView::Image(image))),
                None => StepView::Done(Ok(BodyView::FileList(files))),
            },
            _ => StepView::Done(Ok(BodyView::FileList(files))),
        },
    }
}

/// No read without a size check: the machine asks for the payload of a
/// format only in answer to an advertised size that is within the format's
/// ceiling, and for the bytes of a file only in answer to a size on disk that
/// is within the general ceiling.
pub proof fn law_reads_follow_size_checks(stage: StageView, reply: ReplyView, config: ConfigView)
    ensures
        step_spec(stage, reply, config) matches StepView::Ask(_, QueryView::Read(format)) ==> {
            &&& stage matches StageView::Sizing { format: sized, .. }
            &&& sized == format
            &&& reply matches ReplyView::Size(size)
            &&& within_ceiling(size, ceiling_for(format, config))
        },
        step_spec(stage, reply, config) matches StepView::Ask(_, QueryView::ReadFile(file)) ==> {
            &&& stage matches StageView::DiskSizing { files }
            &&& files.len() == 1
            &&& files[0] == file
            &&& reply matches ReplyView::Size(size)
            &&& within_ceiling(size, config.max_bytes)
        },
{
}

/// Starts probing `format`.
fn probe_step(format: Format, image: Option<Vec<u8>>) -> (step: Step)
    ensures
        step@ == probe(format, held_view(image)),
{
    Step::Ask(Classifier::Sizing { format, image }, Query::Size(format))
}

/// The step after the image tier: `image` holds the image bytes in the
/// canonical encoding, if the clipboard gave any. The file list is probed
/// next in either case.
pub fn image_probed(image: Option<Vec<u8>>) -> (step: Step)
    ensures
        step@ == after_image_probe(held_view(image)),
{
    probe_step(Format::FileList, image)
}

/// The step after the probe of the file list.
fn files_probed(files: Option<Vec<FilePath>>, image: Option<Vec<u8>>) -> (step: Step)
    ensures
        step@ == settle_files(
            match files {
                Some(list) => Some(paths_view(list@)),
                None => None,
            },
            held_view(image),
        ),
{
    match image {
        Some(bytes) => {
            let path = match files {
                Some(mut list) => {
                    if list.len() == 1 {
                        list.pop()
                    } else {
                        None
                    }
                },
                None => None,
            };
            Step::Done(Ok(Body::Image(ClipboardImage { bytes, path, mime: ImageMimeType::Png })))
        },
        None => match files {
            Some(list) => {
                if list.len() == 1 && file_is_image(&list[0]) {
                    let path = list[0].duplicate();
                    Step::Ask(Classifier::DiskSizing { files: list }, Query::FileSize(path))
                } else {
                    Step::Done(Ok(Body::FileList(list)))
                }
            },
            None => probe_step(Format::Html, None),
        },
    }
}

/// The step after the probe of `format`.
fn probed(
    format: Format,
    payload: Option<Payload>,
    image: Option<Vec<u8>>,
    config: &ClipboardConfig,
) -> (step: Step)
    ensures
        step@ == settle(
            format,
            match payload {
                Some(p) => Some(p@),
                None => None,
            },
            held_view(image),
            config@,
        ),
{
    match format {
        Format::Custom(index) => {
            let count = config.custom_format_names.len();
            match payload {
                Some(Payload::Bytes(data)) if index < count => {
                    let name = config.custom_format_names[index].clone();
                    Step::Done(Ok(Body::Custom { name, data }))
                },
                _ => {
                    if index < count && index + 1 < count {
                        probe_step(Format::Custom(index + 1), None)
                    } else {
                        probe_step(Format::Png, None)
                    }
                },
            }
        },
        Format::Png => match payload {
            Some(Payload::Bytes(bytes)) => image_probed(Some(bytes)),
            _ => probe_step(Format::Dib, None),
        },
        Format::Dib => match payload {
            Some(Payload::Bytes(dib)) => image_probed(convert_dib_to_png(dib.as_slice())),
            _ => image_probed(None),
        },
        Format::FileList => match payload {
            Some(Payload::Files(list)) => files_probed(Some(list), image),
            _ => files_probed(None, image),
        },
        Format::Html => match payload {
            Some(Payload::Text(text)) => Step::Done(Ok(Body::Html(text))),
            _ => probe_step(Format::RichText, None),
        },
        Format::RichText => match payload {
            Some(Payload::Text(text)) => Step::Done(Ok(Body::RichText(text))),
            _ => probe_step(Format::PlainText, None),
        },
        Format::PlainText => match payload {
            Some(Payload::Text(text)) => Step::Done(Ok(Body::PlainText(text))),
            _ => Step::Done(Err(ClipboardError::UnknownDataType)),
        },
    }
}

/// The ceiling that applies to `format` under `config`.
fn ceiling_of(format: Format, config: &ClipboardConfig) -> (ceiling: Option<u64>)
    ensures
        ceiling == ceiling_for(format, config@),
{
    match format {
        Format::Png => config.image_ceiling(),
        Format::Dib => config.image_ceiling(),
        _ => config.max_bytes,
    }
}

/// The step after the bytes of the single image file came from disk.
fn disk_read(mut files: Vec<FilePath>, bytes: Vec<u8>) -> (step: Step)
    ensures
        step@ == (match promoted_image(paths_view(files@), bytes@) {
            Some(image) => StepView::Done(Ok(BodyView::Image(image))),
            None => StepView::Done(Ok(BodyView::FileList(paths_view(files@)))),
        }),
{
    if files.len() == 1 {
        let mime = match &files[0].extension {
            Some(ext) => ImageMimeType::from_ext(ext.as_str()),
            None => None,
        };
        match mime {
            Some(mime) => {
                let path = files.pop();
                Step::Done(Ok(Body::Image(ClipboardImage { bytes, path, mime })))
            },
            None => Step::Done(Ok(Body::FileList(files))),
        }
    } else {
        Step::Done(Ok(Body::FileList(files)))
    }
}

impl Classifier {
    /// Begins one classification attempt: the first question is for the
    /// session.
    pub fn start() -> (step: Step)
        ensures
            step@ == StepView::Ask(StageView::Opening, QueryView::Open),
    {
        Step::Ask(Classifier::Opening, Query::Open)
    }

    /// Takes the provider's reply to the outstanding query and decides what
    /// comes next.
    pub fn step(self, reply: Reply, config: &ClipboardConfig) -> (next: Step)
        ensures
            next@ == step_spec(self@, reply@, config@),
    {
        match self {
            Classifier::Opening => match reply {
                Reply::Refused(reason) => Step::Done(Err(ClipboardError::ReadError(reason))),
                _ => {
                    if config.custom_format_names.len() > 0 {
                        probe_step(Format::Custom(0), None)
                    } else {
                        probe_step(Format::Png, None)
                    }
                },
            },
            Classifier::Sizing { format, image } => match reply {
                Reply::Size(size) if fits(size, ceiling_of(format, config)) => {
                    Step::Ask(Classifier::Reading { format, image }, Query::Read(format))
                },
                _ => probed(format, None, image, config),
            },
            Classifier::Reading { format, image } => match reply {
                Reply::Content(payload) => probed(format, Some(payload), image, config),
                _ => probed(format, None, image, config),
            },
            Classifier::DiskSizing { files } => match reply {
                Reply::Size(size) if files.len() == 1 && fits(size, config.max_bytes) => {
                    let path = files[0].duplicate();
                    Step::Ask(Classifier::DiskReading { files }, Query::ReadFile(path))
                },
                _ => Step::Done(Ok(Body::FileList(files))),
            },
            Classifier::DiskReading { files } => match reply {
                Reply::Content(Payload::Bytes(bytes)) => disk_read(files, bytes),
                _ => Step::Done(Ok(Body::FileList(files))),
            },
        }
    }
}

} // verus!
