use clipboard_stream::body::{Body, ClipboardImage, FilePath};
use clipboard_stream::classifier::{Classifier, Format, Payload, Query, Reply, Step};
use clipboard_stream::config::ClipboardConfig;
use clipboard_stream::error::ClipboardError;
use clipboard_stream::mime_type::ImageMimeType;
use clipboard_stream::snapshot::{classify_snapshot, DiskFile, Offer, Snapshot};

fn file(path: &str, extension: Option<&str>) -> FilePath {
    FilePath {
        path: path.to_string(),
        extension: extension.map(|e| e.to_string()),
    }
}

fn bytes_offer(bytes: Vec<u8>) -> Option<Offer> {
    Some(Offer {
        size: bytes.len() as u64,
        content: Some(Payload::Bytes(bytes)),
    })
}

fn text_offer(text: &str) -> Option<Offer> {
    Some(Offer {
        size: text.len() as u64,
        content: Some(Payload::Text(text.to_string())),
    })
}

fn files_offer(files: Vec<FilePath>) -> Option<Offer> {
    Some(Offer {
        size: 64,
        content: Some(Payload::Files(files)),
    })
}

fn config_with(names: Vec<&str>) -> ClipboardConfig {
    let mut config = ClipboardConfig::new();
    config.custom_format_names = names.into_iter().map(|n| n.to_string()).collect();
    config
}

#[test]
fn custom_format_beats_plain_text() {
    let config = config_with(vec!["MyFormat"]);
    let mut snapshot = Snapshot::new();
    snapshot.custom = vec![bytes_offer(vec![1, 2, 3])];
    snapshot.plain_text = text_offer("hello");
    assert_eq!(
        classify_snapshot(&snapshot, &config),
        Ok(Body::Custom {
            name: "MyFormat".to_string(),
            data: vec![1, 2, 3],
        })
    );
}

#[test]
fn large_image_file_stays_a_file_list() {
    let mut config = ClipboardConfig::new();
    config.max_bytes = Some(1024);
    let mut snapshot = Snapshot::new();
    snapshot.files = files_offer(vec![file("photo.png", Some("png"))]);
    snapshot.disk = vec![DiskFile {
        path: "photo.png".to_string(),
        size: 2048,
        content: Some(vec![7; 2048]),
    }];
    assert_eq!(
        classify_snapshot(&snapshot, &config),
        Ok(Body::FileList(vec![file("photo.png", Some("png"))]))
    );
}

#[test]
fn image_file_at_the_ceiling_is_promoted() {
    let mut config = ClipboardConfig::new();
    config.max_bytes = Some(1024);
    let mut snapshot = Snapshot::new();
    snapshot.files = files_offer(vec![file("photo.png", Some("png"))]);
    snapshot.disk = vec![DiskFile {
        path: "photo.png".to_string(),
        size: 1024,
        content: Some(vec![9, 8, 7]),
    }];
    assert_eq!(
        classify_snapshot(&snapshot, &config),
        Ok(Body::Image(ClipboardImage {
            bytes: vec![9, 8, 7],
            path: Some(file("photo.png", Some("png"))),
            mime: ImageMimeType::Png,
        }))
    );
}

#[test]
fn promoted_image_takes_the_mime_of_its_extension() {
    let config = ClipboardConfig::new();
    let mut snapshot = Snapshot::new();
    snapshot.files = files_offer(vec![file("/tmp/cat.jpeg", Some("jpeg"))]);
    snapshot.disk = vec![
        DiskFile {
            path: "/tmp/dog.jpeg".to_string(),
            size: 1,
            content: Some(vec![0]),
        },
        DiskFile {
            path: "/tmp/cat.jpeg".to_string(),
            size: 2,
            content: Some(vec![4, 5]),
        },
    ];
    assert_eq!(
        classify_snapshot(&snapshot, &config),
        Ok(Body::Image(ClipboardImage {
            bytes: vec![4, 5],
            path: Some(file("/tmp/cat.jpeg", Some("jpeg"))),
            mime: ImageMimeType::Jpeg,
        }))
    );
}

#[test]
fn unreadable_image_file_stays_a_file_list() {
    let config = ClipboardConfig::new();
    let mut snapshot = Snapshot::new();
    snapshot.files = files_offer(vec![file("gone.gif", Some("gif"))]);
    assert_eq!(
        classify_snapshot(&snapshot, &config),
        Ok(Body::FileList(vec![file("gone.gif", Some("gif"))]))
    );
    snapshot.disk = vec![DiskFile {
        path: "gone.gif".to_string(),
        size: 10,
        content: None,
    }];
    assert_eq!(
        classify_snapshot(&snapshot, &config),
        Ok(Body::FileList(vec![file("gone.gif", Some("gif"))]))
    );
}

#[test]
fn single_file_without_image_extension_is_a_file_list() {
    let config = ClipboardConfig::new();
    let mut snapshot = Snapshot::new();
    snapshot.files = files_offer(vec![file("notes.txt", Some("txt"))]);
    snapshot.disk = vec![DiskFile {
        path: "notes.txt".to_string(),
        size: 2,
        content: Some(vec![1, 2]),
    }];
    assert_eq!(
        classify_snapshot(&snapshot, &config),
        Ok(Body::FileList(vec![file("notes.txt", Some("txt"))]))
    );
}

#[test]
fn several_image_files_are_a_file_list() {
    let config = ClipboardConfig::new();
    let mut snapshot = Snapshot::new();
    let list = vec![file("a.png", Some("png")), file("b.png", Some("png"))];
    snapshot.files = files_offer(list.clone());
    snapshot.disk = vec![
        DiskFile {
            path: "a.png".to_string(),
            size: 1,
            content: Some(vec![1]),
        },
        DiskFile {
            path: "b.png".to_string(),
            size: 1,
            content: Some(vec![2]),
        },
    ];
    assert_eq!(classify_snapshot(&snapshot, &config), Ok(Body::FileList(list)));
}

#[test]
fn empty_file_list_is_a_file_list() {
    let config = ClipboardConfig::new();
    let mut snapshot = Snapshot::new();
    snapshot.files = files_offer(vec![]);
    snapshot.plain_text = text_offer("ignored");
    assert_eq!(classify_snapshot(&snapshot, &config), Ok(Body::FileList(vec![])));
}

#[test]
fn custom_format_beats_image() {
    let config = config_with(vec!["First", "Second"]);
    let mut snapshot = Snapshot::new();
    snapshot.custom = vec![None, bytes_offer(vec![42])];
    snapshot.png = bytes_offer(vec![1, 2, 3, 4]);
    assert_eq!(
        classify_snapshot(&snapshot, &config),
        Ok(Body::Custom {
            name: "Second".to_string(),
            data: vec![42],
        })
    );
}

#[test]
fn custom_formats_go_by_configuration_order() {
    let config = config_with(vec!["First", "Second"]);
    let mut snapshot = Snapshot::new();
    snapshot.custom = vec![bytes_offer(vec![1]), bytes_offer(vec![2])];
    assert_eq!(
        classify_snapshot(&snapshot, &config),
        Ok(Body::Custom {
            name: "First".to_string(),
            data: vec![1],
        })
    );
}

#[test]
fn image_takes_the_path_of_a_single_file() {
    let config = ClipboardConfig::new();
    let mut snapshot = Snapshot::new();
    snapshot.png = bytes_offer(vec![1, 2, 3, 4]);
    snapshot.files = files_offer(vec![file("shot.bmp", Some("bmp"))]);
    assert_eq!(
        classify_snapshot(&snapshot, &config),
        Ok(Body::Image(ClipboardImage {
            bytes: vec![1, 2, 3, 4],
            path: Some(file("shot.bmp", Some("bmp"))),
            mime: ImageMimeType::Png,
        }))
    );
}

#[test]
fn image_takes_no_path_from_several_files() {
    let config = ClipboardConfig::new();
    let mut snapshot = Snapshot::new();
    snapshot.png = bytes_offer(vec![1, 2, 3, 4]);
    snapshot.files = files_offer(vec![file("a.png", Some("png")), file("b.png", Some("png"))]);
    assert_eq!(
        classify_snapshot(&snapshot, &config),
        Ok(Body::Image(ClipboardImage {
            bytes: vec![1, 2, 3, 4],
            path: None,
            mime: ImageMimeType::Png,
        }))
    );
}

#[test]
fn image_alone_has_no_path() {
    let config = ClipboardConfig::new();
    let mut snapshot = Snapshot::new();
    snapshot.png = bytes_offer(vec![5, 6]);
    let outcome = classify_snapshot(&snapshot, &config);
    match outcome {
        Ok(Body::Image(image)) => {
            assert!(!image.has_path());
            assert_eq!(image.bytes, vec![5, 6]);
            assert_eq!(image.mime, ImageMimeType::Png);
        }
        other => panic!("expected an image, got {:?}", other),
    }
}

#[test]
fn each_text_kind_alone_gives_its_variant() {
    let config = ClipboardConfig::new();
    let mut snapshot = Snapshot::new();
    snapshot.html = text_offer("<b>hi</b>");
    assert_eq!(
        classify_snapshot(&snapshot, &config),
        Ok(Body::Html("<b>hi</b>".to_string()))
    );
    let mut snapshot = Snapshot::new();
    snapshot.rich_text = text_offer("{\\rtf1 hi}");
    assert_eq!(
        classify_snapshot(&snapshot, &config),
        Ok(Body::RichText("{\\rtf1 hi}".to_string()))
    );
    let mut snapshot = Snapshot::new();
    snapshot.plain_text = text_offer("hi");
    assert_eq!(
        classify_snapshot(&snapshot, &config),
        Ok(Body::PlainText("hi".to_string()))
    );
}

#[test]
fn text_kinds_go_html_rich_plain() {
    let config = ClipboardConfig::new();
    let mut snapshot = Snapshot::new();
    snapshot.html = text_offer("<p>x</p>");
    snapshot.rich_text = text_offer("rich");
    snapshot.plain_text = text_offer("plain");
    assert_eq!(
        classify_snapshot(&snapshot, &config),
        Ok(Body::Html("<p>x</p>".to_string()))
    );
    snapshot.html = None;
    assert_eq!(
        classify_snapshot(&snapshot, &config),
        Ok(Body::RichText("rich".to_string()))
    );
    snapshot.rich_text = None;
    assert_eq!(
        classify_snapshot(&snapshot, &config),
        Ok(Body::PlainText("plain".to_string()))
    );
}

#[test]
fn empty_clipboard_is_unknown_data() {
    let config = ClipboardConfig::new();
    let snapshot = Snapshot::new();
    assert_eq!(
        classify_snapshot(&snapshot, &config),
        Err(ClipboardError::UnknownDataType)
    );
}

#[test]
fn refused_session_is_a_read_error() {
    let config = config_with(vec!["MyFormat"]);
    let mut snapshot = Snapshot::new();
    snapshot.open_error = Some("clipboard is busy".to_string());
    snapshot.custom = vec![bytes_offer(vec![1])];
    snapshot.plain_text = text_offer("hello");
    assert_eq!(
        classify_snapshot(&snapshot, &config),
        Err(ClipboardError::ReadError("clipboard is busy".to_string()))
    );
}

#[test]
fn payload_over_the_ceiling_falls_through() {
    let mut config = config_with(vec!["MyFormat"]);
    config.max_bytes = Some(4);
    let mut snapshot = Snapshot::new();
    snapshot.custom = vec![bytes_offer(vec![0; 5])];
    snapshot.html = text_offer("<b>too long</b>");
    snapshot.plain_text = text_offer("hey");
    assert_eq!(
        classify_snapshot(&snapshot, &config),
        Ok(Body::PlainText("hey".to_string()))
    );
    snapshot.plain_text = text_offer("hello");
    assert_eq!(
        classify_snapshot(&snapshot, &config),
        Err(ClipboardError::UnknownDataType)
    );
}

#[test]
fn payload_at_the_ceiling_is_read() {
    let mut config = ClipboardConfig::new();
    config.max_bytes = Some(4);
    let mut snapshot = Snapshot::new();
    snapshot.plain_text = text_offer("four");
    assert_eq!(
        classify_snapshot(&snapshot, &config),
        Ok(Body::PlainText("four".to_string()))
    );
}

#[test]
fn image_ceiling_is_independent_of_the_general_one() {
    let mut config = ClipboardConfig::new();
    config.max_bytes = Some(2);
    config.max_image_bytes = Some(100);
    let mut snapshot = Snapshot::new();
    snapshot.png = bytes_offer(vec![1; 50]);
    snapshot.plain_text = text_offer("long text");
    assert_eq!(
        classify_snapshot(&snapshot, &config),
        Ok(Body::Image(ClipboardImage {
            bytes: vec![1; 50],
            path: None,
            mime: ImageMimeType::Png,
        }))
    );
    config.max_bytes = Some(100);
    config.max_image_bytes = Some(10);
    assert_eq!(
        classify_snapshot(&snapshot, &config),
        Ok(Body::PlainText("long text".to_string()))
    );
}

#[test]
fn image_ceiling_defaults_to_the_general_one() {
    let mut config = ClipboardConfig::new();
    assert_eq!(config.image_ceiling(), None);
    config.max_bytes = Some(10);
    assert_eq!(config.image_ceiling(), Some(10));
    config.max_image_bytes = Some(3);
    assert_eq!(config.image_ceiling(), Some(3));
    config.max_image_bytes = None;
    let mut snapshot = Snapshot::new();
    snapshot.png = bytes_offer(vec![1; 11]);
    assert_eq!(
        classify_snapshot(&snapshot, &config),
        Err(ClipboardError::UnknownDataType)
    );
}

#[test]
fn unreadable_format_counts_as_absent() {
    let config = ClipboardConfig::new();
    let mut snapshot = Snapshot::new();
    snapshot.png = Some(Offer {
        size: 4,
        content: None,
    });
    snapshot.html = Some(Offer {
        size: 4,
        content: Some(Payload::Bytes(vec![1, 2, 3, 4])),
    });
    snapshot.plain_text = text_offer("fallback");
    assert_eq!(
        classify_snapshot(&snapshot, &config),
        Ok(Body::PlainText("fallback".to_string()))
    );
}

#[test]
fn bitmap_that_does_not_convert_falls_through() {
    let config = ClipboardConfig::new();
    let mut snapshot = Snapshot::new();
    snapshot.dib = bytes_offer(vec![1, 2, 3]);
    snapshot.plain_text = text_offer("text");
    assert_eq!(
        classify_snapshot(&snapshot, &config),
        Ok(Body::PlainText("text".to_string()))
    );
}

#[test]
fn classification_is_repeatable() {
    let config = config_with(vec!["MyFormat"]);
    let mut snapshot = Snapshot::new();
    snapshot.custom = vec![None];
    snapshot.files = files_offer(vec![file("a", None), file("b", None)]);
    let first = classify_snapshot(&snapshot, &config);
    let second = classify_snapshot(&snapshot.clone(), &config.clone());
    assert_eq!(first, second);
    assert_eq!(
        first,
        Ok(Body::FileList(vec![file("a", None), file("b", None)]))
    );
}

#[test]
fn machine_asks_for_the_size_before_it_reads() {
    let config = config_with(vec!["MyFormat"]);
    let step = Classifier::start();
    let stage = match step {
        Step::Ask(stage, Query::Open) => stage,
        other => panic!("expected the session to be opened, got {:?}", other),
    };
    let stage = match stage.step(Reply::Opened, &config) {
        Step::Ask(stage, query) => {
            assert_eq!(query, Query::Size(Format::Custom(0)));
            stage
        }
        other => panic!("expected a size query, got {:?}", other),
    };
    let stage = match stage.step(Reply::Size(3), &config) {
        Step::Ask(stage, query) => {
            assert_eq!(query, Query::Read(Format::Custom(0)));
            stage
        }
        other => panic!("expected a read query, got {:?}", other),
    };
    assert_eq!(
        stage.step(Reply::Content(Payload::Bytes(vec![1, 2, 3])), &config),
        Step::Done(Ok(Body::Custom {
            name: "MyFormat".to_string(),
            data: vec![1, 2, 3],
        }))
    );
}

#[test]
fn machine_skips_the_read_over_the_ceiling() {
    let mut config = ClipboardConfig::new();
    config.max_image_bytes = Some(10);
    let stage = Classifier::Sizing {
        format: Format::Png,
        image: None,
    };
    assert_eq!(
        stage.step(Reply::Size(11), &config),
        Step::Ask(
            Classifier::Sizing {
                format: Format::Dib,
                image: None
            },
            Query::Size(Format::Dib)
        )
    );
}

#[test]
fn machine_asks_the_disk_about_a_single_image_file() {
    let mut config = ClipboardConfig::new();
    config.max_bytes = Some(100);
    let stage = Classifier::Reading {
        format: Format::FileList,
        image: None,
    };
    let list = vec![file("pic.ico", Some("ico"))];
    let stage = match stage.step(Reply::Content(Payload::Files(list.clone())), &config) {
        Step::Ask(stage, query) => {
            assert_eq!(query, Query::FileSize(file("pic.ico", Some("ico"))));
            stage
        }
        other => panic!("expected a file size query, got {:?}", other),
    };
    let stage = match stage.step(Reply::Size(100), &config) {
        Step::Ask(stage, query) => {
            assert_eq!(query, Query::ReadFile(file("pic.ico", Some("ico"))));
            stage
        }
        other => panic!("expected a file read query, got {:?}", other),
    };
    assert_eq!(
        stage.step(Reply::Content(Payload::Bytes(vec![3])), &config),
        Step::Done(Ok(Body::Image(ClipboardImage {
            bytes: vec![3],
            path: Some(file("pic.ico", Some("ico"))),
            mime: ImageMimeType::Ico,
        })))
    );
}

#[test]
fn machine_reports_a_refused_session() {
    let config = ClipboardConfig::new();
    assert_eq!(
        Classifier::Opening.step(Reply::Refused("denied".to_string()), &config),
        Step::Done(Err(ClipboardError::ReadError("denied".to_string())))
    );
}

#[test]
fn snapshot_answers_like_a_provider() {
    let mut snapshot = Snapshot::new();
    snapshot.html = text_offer("<i>x</i>");
    snapshot.disk = vec![DiskFile {
        path: "a.png".to_string(),
        size: 12,
        content: None,
    }];
    assert_eq!(snapshot.answer(&Query::Open), Reply::Opened);
    assert_eq!(snapshot.answer(&Query::Size(Format::Html)), Reply::Size(8));
    assert_eq!(
        snapshot.answer(&Query::Read(Format::Html)),
        Reply::Content(Payload::Text("<i>x</i>".to_string()))
    );
    assert_eq!(snapshot.answer(&Query::Size(Format::Png)), Reply::Absent);
    assert_eq!(snapshot.answer(&Query::Size(Format::Custom(3))), Reply::Absent);
    assert_eq!(
        snapshot.answer(&Query::FileSize(file("a.png", Some("png")))),
        Reply::Size(12)
    );
    assert_eq!(
        snapshot.answer(&Query::ReadFile(file("a.png", Some("png")))),
        Reply::Absent
    );
    assert_eq!(
        snapshot.answer(&Query::FileSize(file("b.png", Some("png")))),
        Reply::Absent
    );
}
