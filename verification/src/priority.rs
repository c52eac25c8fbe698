//! What the priority order guarantees of every snapshot: which tier wins
//! when several formats are on the clipboard, and that a payload over its
//! ceiling counts as absent.

use crate::body::{BodyView, FilePathView, ImageView};
use crate::classifier::{ceiling_for, Format, PayloadView};
use crate::config::{within_ceiling, ConfigView};
use crate::error::ErrorView;
use crate::image::{image_extension, png_of_dib};
use crate::mime_type::{mime_of_extension, MimeView};
use crate::snapshot::{classify, SnapshotView};
use vstd::prelude::*;

verus! {

/// No configured custom format has usable bytes.
pub open spec fn no_custom(snapshot: SnapshotView, config: ConfigView) -> bool {
    forall|index: int|
        0 <= index < config.custom_format_names.len() ==> snapshot.custom_bytes(config, index)
            is None
}

/// Nothing but `format` is usable on the clipboard.
pub open spec fn only(snapshot: SnapshotView, config: ConfigView, format: Format) -> bool {
    &&& snapshot.open_error is None
    &&& snapshot.usable(format, config) is Some
    &&& forall|other: Format| other != format ==> snapshot.usable(other, config) is None
}

/// Two snapshots that agree on the session, on what is usable of every
/// format and on the disk.
pub open spec fn same_usable(a: SnapshotView, b: SnapshotView, config: ConfigView) -> bool {
    &&& a.open_error == b.open_error
    &&& a.disk == b.disk
    &&& forall|format: Format| a.usable(format, config) == b.usable(format, config)
}

proof fn lemma_first_custom_found(
    snapshot: SnapshotView,
    config: ConfigView,
    from: int,
    index: int,
)
    requires
        0 <= from <= index < config.custom_format_names.len(),
        snapshot.custom_bytes(config, index) is Some,
        forall|earlier: int| from <= earlier < index ==> snapshot.custom_bytes(config, earlier) is None,
    ensures
        snapshot.first_custom(config, from) == Some(index),
    decreases index - from,
{
    if from < index {
        lemma_first_custom_found(snapshot, config, from + 1, index);
    }
}

proof fn lemma_first_custom_missing(snapshot: SnapshotView, config: ConfigView, from: int)
    requires
        0 <= from,
        no_custom(snapshot, config),
    ensures
        snapshot.first_custom(config, from) is None,
    decreases config.custom_format_names.len() - from,
{
    if from < config.custom_format_names.len() {
        lemma_first_custom_missing(snapshot, config, from + 1);
    }
}

proof fn lemma_first_custom_agrees(
    a: SnapshotView,
    b: SnapshotView,
    config: ConfigView,
    from: int,
)
    requires
        0 <= from,
        same_usable(a, b, config),
    ensures
        a.first_custom(config, from) == b.first_custom(config, from),
    decreases config.custom_format_names.len() - from,
{
    if from < config.custom_format_names.len() {
        if from <= usize::MAX {
            assert(a.usable(Format::Custom(from as usize), config) == b.usable(
                Format::Custom(from as usize),
                config,
            ));
        }
        lemma_first_custom_agrees(a, b, config, from + 1);
    }
}

/// The classification depends only on the session, on the usable payload of
/// each format and on the disk.
pub proof fn law_classification_reads_usable_only(
    a: SnapshotView,
    b: SnapshotView,
    config: ConfigView,
)
    requires
        same_usable(a, b, config),
    ensures
        classify(a, config) == classify(b, config),
{
    lemma_first_custom_agrees(a, b, config, 0);
    assert(a.usable(Format::Png, config) == b.usable(Format::Png, config));
    assert(a.usable(Format::Dib, config) == b.usable(Format::Dib, config));
    assert(a.usable(Format::FileList, config) == b.usable(Format::FileList, config));
    assert(a.usable(Format::Html, config) == b.usable(Format::Html, config));
    assert(a.usable(Format::RichText, config) == b.usable(Format::RichText, config));
    assert(a.usable(Format::PlainText, config) == b.usable(Format::PlainText, config));
    match a.first_custom(config, 0) {
        Some(index) => {
            if 0 <= index <= usize::MAX {
                assert(a.usable(Format::Custom(index as usize), config) == b.usable(
                    Format::Custom(index as usize),
                    config,
                ));
            }
        },
        None => {
            match a.usable_files(config) {
                Some(files) => {
                    if files.len() == 1 {
                        lemma_disk_agrees(a, b, files[0].path, 0);
                    }
                },
                None => {},
            }
        },
    }
}

proof fn lemma_disk_agrees(a: SnapshotView, b: SnapshotView, path: Seq<char>, from: int)
    requires
        a.disk == b.disk,
    ensures
        a.disk_file_from(path, from) == b.disk_file_from(path, from),
    decreases a.disk.len() - from,
{
    if 0 <= from < a.disk.len() {
        lemma_disk_agrees(a, b, path, from + 1);
    }
}

/// Byte ceiling: a format whose advertised size exceeds its ceiling is
/// treated as absent. The classification is that of the snapshot without
/// the format, so it is never a read error on this account.
pub proof fn law_over_ceiling_is_absent(snapshot: SnapshotView, config: ConfigView, format: Format)
    requires
        snapshot.offer_of(format) matches Some(offer) && !within_ceiling(
            offer.size,
            ceiling_for(format, config),
        ),
    ensures
        classify(snapshot, config) == classify(snapshot.without(format), config),
{
    let removed = snapshot.without(format);
    assert forall|other: Format| snapshot.usable(other, config) == removed.usable(
        other,
        config,
    ) by {
        if other != format {
            assert(snapshot.offer_of(other) == removed.offer_of(other));
        }
    }
    law_classification_reads_usable_only(snapshot, removed, config);
}

/// A file whose size on disk exceeds the general ceiling is not promoted to
/// an image: where the file list is what the clipboard offers, the list
/// itself is the result.
pub proof fn law_large_file_stays_a_list(
    snapshot: SnapshotView,
    config: ConfigView,
    files: Seq<FilePathView>,
)
    requires
        snapshot.open_error is None,
        no_custom(snapshot, config),
        snapshot.native_image(config) is None,
        snapshot.usable_files(config) == Some(files),
        files.len() == 1,
        snapshot.disk_file(files[0].path) matches Some(found) && !within_ceiling(
            found.size,
            config.max_bytes,
        ),
    ensures
        classify(snapshot, config) == Ok::<BodyView, ErrorView>(BodyView::FileList(files)),
{
    lemma_first_custom_missing(snapshot, config, 0);
}

/// Custom formats come first: where the session opens, the first configured
/// custom format with usable bytes is the result, whatever else the
/// clipboard holds (an image, files, text).
pub proof fn law_custom_wins(snapshot: SnapshotView, config: ConfigView, index: int)
    requires
        snapshot.open_error is None,
        0 <= index < config.custom_format_names.len(),
        snapshot.custom_bytes(config, index) is Some,
        forall|earlier: int| 0 <= earlier < index ==> snapshot.custom_bytes(config, earlier) is None,
    ensures
        classify(snapshot, config) == Ok::<BodyView, ErrorView>(
            BodyView::Custom {
                name: config.custom_format_names[index],
                data: snapshot.custom_bytes(config, index)->0,
            },
        ),
{
    lemma_first_custom_found(snapshot, config, 0, index);
}

/// An image with a file list: where no custom format is usable and there is
/// a native image, the result is that image in the canonical encoding; it
/// carries the path of the file list's entry exactly when the list has one
/// entry, and no path otherwise.
pub proof fn law_image_takes_single_path(
    snapshot: SnapshotView,
    config: ConfigView,
    bytes: Seq<u8>,
)
    requires
        snapshot.open_error is None,
        no_custom(snapshot, config),
        snapshot.native_image(config) == Some(bytes),
    ensures
        classify(snapshot, config) == Ok::<BodyView, ErrorView>(
            BodyView::Image(
                ImageView {
                    bytes,
                    path: match snapshot.usable_files(config) {
                        Some(files) => if files.len() == 1 {
                            Some(files[0])
                        } else {
                            None
                        },
                        None => None,
                    },
                    mime: MimeView::Png,
                },
            ),
        ),
{
    lemma_first_custom_missing(snapshot, config, 0);
}

/// A single image file: where neither a custom format nor a native image
/// is usable and the file list is one file with an image extension whose
/// size on disk is within the general ceiling and whose bytes can be read,
/// the result is an image with the bytes from disk, the file's path and the
/// MIME type of its extension.
pub proof fn law_single_image_file_is_promoted(
    snapshot: SnapshotView,
    config: ConfigView,
    files: Seq<FilePathView>,
    bytes: Seq<u8>,
)
    requires
        snapshot.open_error is None,
        no_custom(snapshot, config),
        snapshot.native_image(config) is None,
        snapshot.usable_files(config) == Some(files),
        files.len() == 1,
        image_extension(files[0].extension),
        snapshot.disk_file(files[0].path) matches Some(found) && within_ceiling(
            found.size,
            config.max_bytes,
        ) && found.content == Some(bytes),
    ensures
        classify(snapshot, config) == Ok::<BodyView, ErrorView>(
            BodyView::Image(
                ImageView {
                    bytes,
                    path: Some(files[0]),
                    mime: mime_of_extension(files[0].extension->0)->0,
                },
            ),
        ),
{
    lemma_first_custom_missing(snapshot, config, 0);
}

/// A file list that is not one file is never promoted: where neither a
/// custom format nor a native image is usable, the result is the list as it
/// is, whatever the extensions of its entries.
pub proof fn law_several_files_stay_a_list(
    snapshot: SnapshotView,
    config: ConfigView,
    files: Seq<FilePathView>,
)
    requires
        snapshot.open_error is None,
        no_custom(snapshot, config),
        snapshot.native_image(config) is None,
        snapshot.usable_files(config) == Some(files),
        files.len() != 1,
    ensures
        classify(snapshot, config) == Ok::<BodyView, ErrorView>(BodyView::FileList(files)),
{
    lemma_first_custom_missing(snapshot, config, 0);
}

/// One kind of content alone gives the matching body: a snapshot on which
/// exactly one format is usable is classified as that format's variant. A
/// bitmap must convert, and a file list must not be a single image file
/// that can be promoted.
pub proof fn law_single_kind_gives_its_variant(
    snapshot: SnapshotView,
    config: ConfigView,
    format: Format,
)
    requires
        only(snapshot, config, format),
        format matches Format::Custom(index) ==> index < config.custom_format_names.len(),
    ensures
        match format {
            Format::Custom(index) => snapshot.usable(format, config) matches Some(
                PayloadView::Bytes(data),
            ) ==> classify(snapshot, config) == Ok::<BodyView, ErrorView>(
                BodyView::Custom { name: config.custom_format_names[index as int], data },
            ),
            Format::Png => snapshot.usable(format, config) matches Some(PayloadView::Bytes(bytes))
                ==> classify(snapshot, config) == Ok::<BodyView, ErrorView>(
                BodyView::Image(ImageView { bytes, path: None, mime: MimeView::Png }),
            ),
            Format::Dib => snapshot.usable(format, config) matches Some(PayloadView::Bytes(dib))
                ==> (png_of_dib(dib) matches Some(bytes) ==> classify(snapshot, config) == Ok::<
                BodyView,
                ErrorView,
            >(BodyView::Image(ImageView { bytes, path: None, mime: MimeView::Png }))),
            Format::FileList => snapshot.usable(format, config) matches Some(
                PayloadView::Files(files),
            ) ==> (snapshot.promoted(files, config) is None ==> classify(snapshot, config) == Ok::<
                BodyView,
                ErrorView,
            >(BodyView::FileList(files))),
            Format::Html => snapshot.usable(format, config) matches Some(PayloadView::Text(text))
                ==> classify(snapshot, config) == Ok::<BodyView, ErrorView>(BodyView::Html(text)),
            Format::RichText => snapshot.usable(format, config) matches Some(
                PayloadView::Text(text),
            ) ==> classify(snapshot, config) == Ok::<BodyView, ErrorView>(
                BodyView::RichText(text),
            ),
            Format::PlainText => snapshot.usable(format, config) matches Some(
                PayloadView::Text(text),
            ) ==> classify(snapshot, config) == Ok::<BodyView, ErrorView>(
                BodyView::PlainText(text),
            ),
        },
{
    match format {
        Format::Custom(index) => {
            if snapshot.usable(format, config) matches Some(PayloadView::Bytes(data)) {
                assert forall|earlier: int| 0 <= earlier < index implies snapshot.custom_bytes(
                    config,
                    earlier,
                ) is None by {
                    assert(snapshot.usable(Format::Custom(earlier as usize), config) is None);
                }
                law_custom_wins(snapshot, config, index as int);
            }
        },
        _ => {
            assert forall|index: int|
                0 <= index < config.custom_format_names.len() implies snapshot.custom_bytes(
                config,
                index,
            ) is None by {
                if index <= usize::MAX {
                    assert(snapshot.usable(Format::Custom(index as usize), config) is None);
                }
            }
            lemma_first_custom_missing(snapshot, config, 0);
            assert(format != Format::Png ==> snapshot.usable(Format::Png, config) is None);
            assert(format != Format::Dib ==> snapshot.usable(Format::Dib, config) is None);
            assert(format != Format::FileList ==> snapshot.usable(Format::FileList, config)
                is None);
            assert(format != Format::Html ==> snapshot.usable(Format::Html, config) is None);
            assert(format != Format::RichText ==> snapshot.usable(Format::RichText, config)
                is None);
        },
    }
}

} // verus!
