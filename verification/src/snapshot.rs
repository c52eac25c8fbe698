//! A clipboard snapshot: everything the native provider would answer during
//! one session, as plain values. [`classify`] says which body the priority
//! order picks for a snapshot, and [`classify_snapshot`] runs the
//! [`Classifier`] against one and provably arrives there.

use crate::body::{Body, BodyView, FilePathView, ImageView};
use crate::classifier::{
    ceiling_for, outcome_view, probe, promoted_image, settle, step_spec, Classifier, Format,
    Payload, PayloadView, Query, QueryView, Reply, ReplyView, StageView, Step, StepView,
};
use crate::config::{within_ceiling, ClipboardConfig, ConfigView};
use crate::error::{ClipboardError, ErrorView};
use crate::image::{image_extension, png_of_dib};
use crate::mime_type::MimeView;
use crate::text::same_text;
use vstd::prelude::*;

verus! {

/// What the provider holds for one format: the size it advertises and the
/// payload that a read would transfer, `None` where the read would fail.
#[derive(Debug, Clone, PartialEq, Eq)]
pub struct Offer {
    pub size: u64,
    pub content: Option<Payload>,
}

/// The mathematical value of an [`Offer`].
pub struct OfferView {
    pub size: u64,
    pub content: Option<PayloadView>,
}

/// The view of an optional payload.
pub open spec fn opt_payload_view(payload: Option<Payload>) -> Option<PayloadView> {
    match payload {
        Some(p) => Some(p@),
        None => None,
    }
}

impl View for Offer {
    type V = OfferView;

    open spec fn view(&self) -> OfferView {
        OfferView { size: self.size, content: opt_payload_view(self.content) }
    }
}

/// The view of an optional offer.
pub open spec fn opt_offer_view(offer: Option<Offer>) -> Option<OfferView> {
    match offer {
        Some(o) => Some(o@),
        None => None,
    }
}

/// A file on disk: its size and its bytes, `None` where it cannot be read.
#[derive(Debug, Clone, PartialEq, Eq)]
pub struct DiskFile {
    pub path: String,
    pub size: u64,
    pub content: Option<Vec<u8>>,
}

/// The mathematical value of a [`DiskFile`].
pub struct DiskFileView {
    pub path: Seq<char>,
    pub size: u64,
    pub content: Option<Seq<u8>>,
}

impl View for DiskFile {
    type V = DiskFileView;

    open spec fn view(&self) -> DiskFileView {
        DiskFileView {
            path: self.path@,
            size: self.size,
            content: match self.content {
                Some(bytes) => Some(bytes@),
                None => None,
            },
        }
    }
}

/// The state of the provider during one session.
#[derive(Debug, Clone, PartialEq, Eq)]
pub struct Snapshot {
    /// Why the session cannot be opened, if it cannot.
    pub open_error: Option<String>,
    /// One slot per configured custom format, in configuration order. A
    /// missing slot is an absent format.
    pub custom: Vec<Option<Offer>>,
    pub png: Option<Offer>,
    pub dib: Option<Offer>,
    pub files: Option<Offer>,
    pub html: Option<Offer>,
    pub rich_text: Option<Offer>,
    pub plain_text: Option<Offer>,
    /// The files that exist on disk. Of two entries with one path the first
    /// counts.
    pub disk: Vec<DiskFile>,
}

/// The mathematical value of a [`Snapshot`].
pub struct SnapshotView {
    pub open_error: Option<Seq<char>>,
    pub custom: Seq<Option<OfferView>>,
    pub png: Option<OfferView>,
    pub dib: Option<OfferView>,
    pub files: Option<OfferView>,
    pub html: Option<OfferView>,
    pub rich_text: Option<OfferView>,
    pub plain_text: Option<OfferView>,
    pub disk: Seq<DiskFileView>,
}

impl View for Snapshot {
    type V = SnapshotView;

    open spec fn view(&self) -> SnapshotView {
        SnapshotView {
            open_error: match self.open_error {
                Some(reason) => Some(reason@),
                None => None,
            },
            custom: self.custom@.map_values(|o: Option<Offer>| opt_offer_view(o)),
            png: opt_offer_view(self.png),
            dib: opt_offer_view(self.dib),
            files: opt_offer_view(self.files),
            html: opt_offer_view(self.html),
            rich_text: opt_offer_view(self.rich_text),
            plain_text: opt_offer_view(self.plain_text),
            disk: self.disk@.map_values(|d: DiskFile| d@),
        }
    }
}

impl SnapshotView {
    /// What the provider holds for `format`.
    pub open spec fn offer_of(self, format: Format) -> Option<OfferView> {
        match format {
            Format::Custom(index) => if index < self.custom.len() {
                self.custom[index as int]
            } else {
                None
            },
            Format::Png => self.png,
            Format::Dib => self.dib,
            Format::FileList => self.files,
            Format::Html => self.html,
            Format::RichText => self.rich_text,
            Format::PlainText => self.plain_text,
        }
    }

    /// The snapshot with nothing held for `format`.
    pub open spec fn without(self, format: Format) -> SnapshotView {
        match format {
            Format::Custom(index) => if index < self.custom.len() {
                SnapshotView { custom: self.custom.update(index as int, None), ..self }
            } else {
                self
            },
            Format::Png => SnapshotView { png: None, ..self },
            Format::Dib => SnapshotView { dib: None, ..self },
            Format::FileList => SnapshotView { files: None, ..self },
            Format::Html => SnapshotView { html: None, ..self },
            Format::RichText => SnapshotView { rich_text: None, ..self },
            Format::PlainText => SnapshotView { plain_text: None, ..self },
        }
    }

    /// The first file on disk at or after position `from` whose path is `path`.
    pub open spec fn disk_file_from(self, path: Seq<char>, from: int) -> Option<DiskFileView>
        decreases self.disk.len() - from,
    {
        if from < 0 || from >= self.disk.len() {
            None
        } else if self.disk[from].path == path {
            Some(self.disk[from])
        } else {
            self.disk_file_from(path, from + 1)
        }
    }

    /// The file on disk at `path`.
    pub open spec fn disk_file(self, path: Seq<char>) -> Option<DiskFileView> {
        self.disk_file_from(path, 0)
    }

    /// The provider's answer to `query`.
    pub open spec fn answer(self, query: QueryView) -> ReplyView {
        match query {
            QueryView::Open => match self.open_error {
                Some(reason) => ReplyView::Refused(reason),
                None => ReplyView::Opened,
            },
            QueryView::Size(format) => match self.offer_of(format) {
                Some(offer) => ReplyView::Size(offer.size),
                None => ReplyView::Absent,
            },
            QueryView::Read(format) => match self.offer_of(format) {
                Some(OfferView { content: Some(payload), .. }) => ReplyView::Content(payload),
                _ => ReplyView::Absent,
            },
            QueryView::FileSize(file) => match self.disk_file(file.path) {
                Some(found) => ReplyView::Size(found.size),
                None => ReplyView::Absent,
            },
            QueryView::ReadFile(file) => match self.disk_file(file.path) {
                Some(DiskFileView { content: Some(bytes), .. }) => ReplyView::Content(
                    PayloadView::Bytes(bytes),
                ),
                _ => ReplyView::Absent,
            },
        }
    }

    /// The payload of `format` that the classifier may use: the format is
    /// there, its advertised size is within its ceiling and it can be read.
    pub open spec fn usable(self, format: Format, config: ConfigView) -> Option<PayloadView> {
        match self.offer_of(format) {
            Some(offer) => if within_ceiling(offer.size, ceiling_for(format, config)) {
                offer.content
            } else {
                None
            },
            None => None,
        }
    }

    /// The usable payload of `format`, where it is raw bytes.
    pub open spec fn usable_bytes(self, format: Format, config: ConfigView) -> Option<Seq<u8>> {
        match self.usable(format, config) {
            Some(PayloadView::Bytes(bytes)) => Some(bytes),
            _ => None,
        }
    }

    /// The usable payload of `format`, where it is text.
    pub open spec fn usable_text(self, format: Format, config: ConfigView) -> Option<Seq<char>> {
        match self.usable(format, config) {
            Some(PayloadView::Text(text)) => Some(text),
            _ => None,
        }
    }

    /// The usable file list.
    pub open spec fn usable_files(self, config: ConfigView) -> Option<Seq<FilePathView>> {
        match self.usable(Format::FileList, config) {
            Some(PayloadView::Files(list)) => Some(list),
            _ => None,
        }
    }

    /// The usable bytes of the custom format at position `index` of the
    /// configured list.
    pub open spec fn custom_bytes(self, config: ConfigView, index: int) -> Option<Seq<u8>> {
        if 0 <= index <= usize::MAX {
            self.usable_bytes(Format::Custom(index as usize), config)
        } else {
            None
        }
    }

    /// The position of the first configured custom format, at or after
    /// `from`, that has usable bytes.
    pub open spec fn first_custom(self, config: ConfigView, from: int) -> Option<int>
        decreases config.custom_format_names.len() - from,
    {
        if from < 0 || from >= config.custom_format_names.len() {
            None
        } else if self.custom_bytes(config, from) is Some {
            Some(from)
        } else {
            self.first_custom(config, from + 1)
        }
    }

    /// The native image in the canonical encoding: the PNG where it is
    /// usable, else the converted bitmap where that is usable and converts.
    pub open spec fn native_image(self, config: ConfigView) -> Option<Seq<u8>> {
        match self.usable_bytes(Format::Png, config) {
            Some(bytes) => Some(bytes),
            None => match self.usable_bytes(Format::Dib, config) {
                Some(dib) => png_of_dib(dib),
                None => None,
            },
        }
    }

    /// The image that a file list is promoted to: the list is one file with
    /// an image extension, its size on disk is within the general ceiling and
    /// its bytes can be read.
    pub open spec fn promoted(self, files: Seq<FilePathView>, config: ConfigView) -> Option<
        ImageView,
    > {
        if files.len() == 1 && image_extension(files[0].extension) {
            match self.disk_file(files[0].path) {
                Some(found) => if within_ceiling(found.size, config.max_bytes) {
                    match found.content {
                        Some(bytes) => promoted_image(files, bytes),
                        None => None,
                    }
                } else {
                    None
                },
                None => None,
            }
        } else {
            None
        }
    }

    /// The text tier: HTML, then rich text, then plain text.
    pub open spec fn text_fallback(self, config: ConfigView) -> Result<BodyView, ErrorView> {
        match self.usable_text(Format::Html, config) {
            Some(text) => Ok(BodyView::Html(text)),
            None => match self.usable_text(Format::RichText, config) {
                Some(text) => Ok(BodyView::RichText(text)),
                None => match self.usable_text(Format::PlainText, config) {
                    Some(text) => Ok(BodyView::PlainText(text)),
                    None => Err(ErrorView::UnknownDataType),
                },
            },
        }
    }

    /// The result when there is a native image: the image, with the path of
    /// the file list's only entry where the list has exactly one.
    pub open spec fn with_image(self, bytes: Seq<u8>, config: ConfigView) -> Result<
        BodyView,
        ErrorView,
    > {
        Ok(
            BodyView::Image(
                ImageView {
                    bytes,
                    path: match self.usable_files(config) {
                        Some(list) => if list.len() == 1 {
                            Some(list[0])
                        } else {
                            None
                        },
                        None => None,
                    },
                    mime: MimeView::Png,
                },
            ),
        )
    }

    /// The result when there is no native image: the file list, promoted to
    /// an image where it can be, else the text tier.
    pub open spec fn without_image(self, config: ConfigView) -> Result<BodyView, ErrorView> {
        match self.usable_files(config) {
            Some(list) => match self.promoted(list, config) {
                Some(image) => Ok(BodyView::Image(image)),
                None => Ok(BodyView::FileList(list)),
            },
            None => self.text_fallback(config),
        }
    }

    /// The result when no custom format is usable.
    pub open spec fn after_custom(self, config: ConfigView) -> Result<BodyView, ErrorView> {
        match self.native_image(config) {
            Some(bytes) => self.with_image(bytes, config),
            None => self.without_image(config),
        }
    }
}

/// The one result of classifying a snapshot under a configuration: a read
/// error where the session cannot be opened, else the first usable custom
/// format, else the native image, else the file list, else text, else the
/// failure to recognise anything.
pub open spec fn classify(snapshot: SnapshotView, config: ConfigView) -> Result<
    BodyView,
    ErrorView,
> {
    match snapshot.open_error {
        Some(reason) => Err(ErrorView::ReadError(reason)),
        None => match snapshot.first_custom(config, 0) {
            Some(index) => Ok(
                BodyView::Custom {
                    name: config.custom_format_names[index],
                    data: snapshot.custom_bytes(config, index)->0,
                },
            ),
            None => snapshot.after_custom(config),
        },
    }
}

impl Snapshot {
    /// An empty clipboard with an empty disk.
    pub fn new() -> (snapshot: Self)
        ensures
            snapshot@.open_error is None,
            snapshot@.custom.len() == 0,
            snapshot@.png is None,
            snapshot@.dib is None,
            snapshot@.files is None,
            snapshot@.html is None,
            snapshot@.rich_text is None,
            snapshot@.plain_text is None,
            snapshot@.disk.len() == 0,
    {
        Snapshot {
            open_error: None,
            custom: Vec::new(),
            png: None,
            dib: None,
            files: None,
            html: None,
            rich_text: None,
            plain_text: None,
            disk: Vec::new(),
        }
    }

    /// What the snapshot holds for `format`.
    fn offer(&self, format: Format) -> (offer: &Option<Offer>)
        ensures
            opt_offer_view(*offer) == self@.offer_of(format),
    {
        match format {
            Format::Custom(index) => {
                if index < self.custom.len() {
                    &self.custom[index]
                } else {
                    &None
                }
            },
            Format::Png => &self.png,
            Format::Dib => &self.dib,
            Format::FileList => &self.files,
            Format::Html => &self.html,
            Format::RichText => &self.rich_text,
            Format::PlainText => &self.plain_text,
        }
    }

    /// The position in `disk` of the file at `path`.
    fn find_on_disk(&self, path: &str) -> (position: Option<usize>)
        ensures
            match position {
                Some(index) => index < self.disk.len() && self@.disk_file(path@) == Some(
                    self.disk[index as int]@,
                ),
                None => self@.disk_file(path@) is None,
            },
    {
        let mut index: usize = 0;
        while index < self.disk.len()
            invariant
                index <= self.disk.len(),
                self@.disk_file(path@) == self@.disk_file_from(path@, index as int),
            decreases self.disk.len() - index,
        {
            if same_text(self.disk[index].path.as_str(), path) {
                return Some(index);
            }
            index += 1;
        }
        None
    }

    /// Answers one query of the classifier as the provider would.
    pub fn answer(&self, query: &Query) -> (reply: Reply)
        ensures
            reply@ == self@.answer(query@),
    {
        match query {
            Query::Open => match &self.open_error {
                Some(reason) => Reply::Refused(reason.clone()),
                None => Reply::Opened,
            },
            Query::Size(format) => match self.offer(*format) {
                Some(offer) => Reply::Size(offer.size),
                None => Reply::Absent,
            },
            Query::Read(format) => match self.offer(*format) {
                Some(offer) => match &offer.content {
                    Some(payload) => Reply::Content(payload.duplicate()),
                    None => Reply::Absent,
                },
                None => Reply::Absent,
            },
            Query::FileSize(file) => match self.find_on_disk(file.path.as_str()) {
                Some(index) => Reply::Size(self.disk[index].size),
                None => Reply::Absent,
            },
            Query::ReadFile(file) => match self.find_on_disk(file.path.as_str()) {
                Some(index) => match &self.disk[index].content {
                    Some(bytes) => Reply::Content(Payload::Bytes(bytes.clone())),
                    None => Reply::Absent,
                },
                None => Reply::Absent,
            },
        }
    }
}

/// What is known when `format` is about to be decided with `image` in hand:
/// the session is open and nothing of higher priority was usable.
pub open spec fn reached(
    format: Format,
    image: Option<Seq<u8>>,
    snapshot: SnapshotView,
    config: ConfigView,
) -> bool {
    &&& snapshot.open_error is None
    &&& match format {
        Format::Custom(index) => {
            &&& index < config.custom_format_names.len()
            &&& image is None
            &&& snapshot.first_custom(config, 0) == snapshot.first_custom(config, index as int)
        },
        Format::Png => {
            &&& image is None
            &&& snapshot.first_custom(config, 0) is None
        },
        Format::Dib => {
            &&& image is None
            &&& snapshot.first_custom(config, 0) is None
            &&& snapshot.usable_bytes(Format::Png, config) is None
        },
        Format::FileList => {
            &&& snapshot.first_custom(config, 0) is None
            &&& snapshot.native_image(config) == image
        },
        Format::Html => {
            &&& image is None
            &&& no_files(snapshot, config)
        },
        Format::RichText => {
            &&& image is None
            &&& no_files(snapshot, config)
            &&& snapshot.usable_text(Format::Html, config) is None
        },
        Format::PlainText => {
            &&& image is None
            &&& no_files(snapshot, config)
            &&& snapshot.usable_text(Format::Html, config) is None
            &&& snapshot.usable_text(Format::RichText, config) is None
        },
    }
}

/// Neither a custom format, nor an image, nor a file list is usable.
pub open spec fn no_files(snapshot: SnapshotView, config: ConfigView) -> bool {
    &&& snapshot.first_custom(config, 0) is None
    &&& snapshot.native_image(config) is None
    &&& snapshot.usable_files(config) is None
}

/// What is known while the single image file of `files` is looked up on disk.
pub open spec fn on_disk_tier(
    files: Seq<FilePathView>,
    snapshot: SnapshotView,
    config: ConfigView,
) -> bool {
    &&& snapshot.open_error is None
    &&& snapshot.first_custom(config, 0) is None
    &&& snapshot.native_image(config) is None
    &&& snapshot.usable_files(config) == Some(files)
    &&& files.len() == 1
    &&& image_extension(files[0].extension)
}

/// Whether a step of a run against `snapshot` is on course: a finished run
/// holds the snapshot's classification, an unfinished one asks the question
/// of its stage and every earlier answer is accounted for.
pub open spec fn on_course(step: StepView, snapshot: SnapshotView, config: ConfigView) -> bool {
    match step {
        StepView::Done(outcome) => outcome == classify(snapshot, config),
        StepView::Ask(stage, query) => match stage {
            StageView::Opening => query == QueryView::Open,
            StageView::Sizing { format, image } => {
                &&& query == QueryView::Size(format)
                &&& reached(format, image, snapshot, config)
            },
            StageView::Reading { format, image } => {
                &&& query == QueryView::Read(format)
                &&& reached(format, image, snapshot, config)
                &&& snapshot.offer_of(format) matches Some(offer) && within_ceiling(
                    offer.size,
                    ceiling_for(format, config),
                )
            },
            StageView::DiskSizing { files } => {
                &&& on_disk_tier(files, snapshot, config)
                &&& query == QueryView::FileSize(files[0])
            },
            StageView::DiskReading { files } => {
                &&& on_disk_tier(files, snapshot, config)
                &&& query == QueryView::ReadFile(files[0])
                &&& snapshot.disk_file(files[0].path) matches Some(found) && within_ceiling(
                    found.size,
                    config.max_bytes,
                )
            },
        },
    }
}

/// How many more steps a run can take at most, `count` being the number of
/// configured custom formats.
pub open spec fn steps_left(step: StepView, count: nat) -> nat {
    match step {
        StepView::Done(_) => 0,
        StepView::Ask(stage, _) => match stage {
            StageView::Opening => 2 * count + 16,
            StageView::Sizing { format, .. } => format_rank(format, count) + 1,
            StageView::Reading { format, .. } => format_rank(format, count),
            StageView::DiskSizing { .. } => 2,
            StageView::DiskReading { .. } => 1,
        },
    }
}

/// The steps left once the payload of `format` is in.
pub open spec fn format_rank(format: Format, count: nat) -> nat {
    match format {
        Format::Custom(index) => if index < count {
            (2 * (count - index) + 12) as nat
        } else {
            14
        },
        Format::Png => 12,
        Format::Dib => 10,
        Format::FileList => 8,
        Format::Html => 6,
        Format::RichText => 4,
        Format::PlainText => 2,
    }
}

/// Once the probe of `format` is decided by what the snapshot holds, the run
/// is still on course, and as close to its end as the format's rank says.
proof fn lemma_settle_on_course(
    format: Format,
    image: Option<Seq<u8>>,
    snapshot: SnapshotView,
    config: ConfigView,
)
    requires
        reached(format, image, snapshot, config),
        config.custom_format_names.len() <= usize::MAX,
    ensures
        on_course(settle(format, snapshot.usable(format, config), image, config), snapshot, config),
        steps_left(
            settle(format, snapshot.usable(format, config), image, config),
            config.custom_format_names.len(),
        ) <= format_rank(format, config.custom_format_names.len()),
{
    let payload = snapshot.usable(format, config);
    let next = settle(format, payload, image, config);
    match format {
        Format::Custom(index) => {
            if snapshot.usable_bytes(format, config) is Some {
                assert(snapshot.first_custom(config, index as int) == Some(index as int));
                assert(next is Done);
            } else {
                assert(snapshot.first_custom(config, index as int) == snapshot.first_custom(
                    config,
                    index + 1,
                ));
                if index + 1 < config.custom_format_names.len() {
                    assert(next == probe(Format::Custom((index + 1) as usize), None));
                } else {
                    assert(snapshot.first_custom(config, index + 1) is None);
                    assert(next == probe(Format::Png, None));
                }
            }
        },
        Format::Png => {},
        Format::Dib => {},
        Format::FileList => {},
        Format::Html => {},
        Format::RichText => {},
        Format::PlainText => {},
    }
}

/// Every step of the classifier on the snapshot's own answer keeps the run
/// on course and brings it closer to its end.
pub proof fn lemma_step_on_course(
    stage: StageView,
    query: QueryView,
    snapshot: SnapshotView,
    config: ConfigView,
)
    requires
        on_course(StepView::Ask(stage, query), snapshot, config),
        config.custom_format_names.len() <= usize::MAX,
    ensures
        on_course(step_spec(stage, snapshot.answer(query), config), snapshot, config),
        steps_left(
            step_spec(stage, snapshot.answer(query), config),
            config.custom_format_names.len(),
        ) < steps_left(StepView::Ask(stage, query), config.custom_format_names.len()),
{
    let reply = snapshot.answer(query);
    let next = step_spec(stage, reply, config);
    match stage {
        StageView::Opening => {
            if snapshot.open_error is None {
                if config.custom_format_names.len() == 0 {
                    assert(snapshot.first_custom(config, 0) is None);
                }
            }
        },
        StageView::Sizing { format, image } => {
            lemma_settle_on_course(format, image, snapshot, config);
            if !(next is Ask && next->Ask_0 is Reading) {
                assert(snapshot.usable(format, config) is None);
            }
        },
        StageView::Reading { format, image } => {
            lemma_settle_on_course(format, image, snapshot, config);
            assert(snapshot.usable(format, config) == snapshot.offer_of(format)->0.content);
        },
        StageView::DiskSizing { files } => {},
        StageView::DiskReading { files } => {},
    }
}

/// Classifies a snapshot: runs the classifier from its start, answering each
/// of its queries from the snapshot, until it is done.
pub fn classify_snapshot(snapshot: &Snapshot, config: &ClipboardConfig) -> (outcome: Result<
    Body,
    ClipboardError,
>)
    ensures
        outcome_view(outcome) == classify(snapshot@, config@),
{
    let mut step = Classifier::start();
    loop
        invariant
            on_course(step@, snapshot@, config@),
        decreases steps_left(step@, config@.custom_format_names.len()),
    {
        match step {
            Step::Done(outcome) => {
                return outcome;
            },
            Step::Ask(stage, query) => {
                let reply = snapshot.answer(&query);
                proof {
                    assert(config@.custom_format_names.len() == config.custom_format_names.len());
                    lemma_step_on_course(stage@, query@, snapshot@, config@);
                }
                step = stage.step(reply, config);
            },
        }
    }
}

} // verus!
