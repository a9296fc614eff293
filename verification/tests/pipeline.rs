use exifmap::error::{EMError, FatalError, Severity};
use exifmap::media::{GpsInfo, MediaInfo, PointFeature, Reading, ThumbnailProgress, ThumbnailWork};
use exifmap::pipeline::{
    features, Action, DirectoryEntry, Event, FileState, FileType, Run, DEFAULT_BOX,
};
use std::collections::BTreeSet;

fn path(text: &str) -> Vec<u8> {
    text.as_bytes().to_vec()
}

fn at(latitude: f64, longitude: f64) -> GpsInfo {
    GpsInfo {
        longitude: longitude.to_bits(),
        latitude: latitude.to_bits(),
        altitude: 34f64.to_bits(),
    }
}

fn run_to(output: &str) -> Run {
    Run::new(path("/photos"), path(output), true).unwrap()
}

fn info(source: &str) -> MediaInfo {
    MediaInfo::new(path(source), at(52.5, 13.4)).unwrap()
}

/// What the outside world holds for one entry.
struct Facts {
    path: &'static str,
    file_type: FileType,
    reading: Result<Option<GpsInfo>, &'static str>,
    image: Result<(), &'static str>,
    write: Result<(), &'static str>,
}

fn photo(path: &'static str, reading: Result<Option<GpsInfo>, &'static str>) -> Facts {
    Facts { path, file_type: FileType::File, reading, image: Ok(()), write: Ok(()) }
}

fn reading_of(facts: &Facts) -> Reading {
    match facts.reading {
        Ok(found) => Ok(found),
        Err(detail) => Err(String::from(detail)),
    }
}

/// Takes one entry to its end: does what is pending on a directory that is
/// only a set of paths, and reports what came of it.
fn process(facts: &Facts, run: &Run, present: &mut BTreeSet<Vec<u8>>) -> (FileState, Vec<Action>) {
    let entry = DirectoryEntry::Found { path: path(facts.path), file_type: facts.file_type };
    let mut state = FileState::discover(entry);
    let mut asked = Vec::new();
    loop {
        assert!(asked.len() <= 4, "an entry takes at most four rounds");
        let action = state.pending(run);
        let event = match &action {
            Action::Stop => {
                assert!(state.is_final());
                return (state, asked);
            }
            Action::ReadMetadata { .. } => Event::Metadata(reading_of(facts)),
            Action::Thumbnail(ThumbnailWork::Load { .. }) => Event::Thumbnail(match facts.image {
                Ok(()) => ThumbnailProgress::Loaded,
                Err(detail) => ThumbnailProgress::LoadFailed { detail: String::from(detail) },
            }),
            Action::Thumbnail(ThumbnailWork::Probe { destination }) => {
                Event::Thumbnail(if present.contains(destination) {
                    ThumbnailProgress::Taken
                } else {
                    ThumbnailProgress::Free
                })
            }
            Action::Thumbnail(ThumbnailWork::Write { destination }) => {
                Event::Thumbnail(match facts.write {
                    Ok(()) => {
                        assert!(present.insert(destination.clone()), "a thumbnail was overwritten");
                        ThumbnailProgress::Written
                    }
                    Err(detail) => ThumbnailProgress::WriteFailed { detail: String::from(detail) },
                })
            }
        };
        assert!(!state.is_final());
        asked.push(action);
        state = state.advance(event, run);
    }
}

fn process_all(files: &[Facts], run: &Run, present: &mut BTreeSet<Vec<u8>>) -> Vec<FileState> {
    files.iter().map(|facts| process(facts, run, present).0).collect()
}

fn emitted(states: &[FileState]) -> usize {
    states.iter().filter(|state| matches!(state, FileState::RecordEmitted(_))).count()
}

/// The document as the program writes it.
fn document(points: &[PointFeature]) -> String {
    let features = points
        .iter()
        .map(|point| geojson::Feature {
            bbox: None,
            geometry: Some(geojson::Geometry::new(geojson::Value::Point(
                point.coordinates.iter().map(|bits| f64::from_bits(*bits)).collect(),
            ))),
            id: None,
            properties: Some(point.properties.clone()),
            foreign_members: None,
        })
        .collect();
    let collection = geojson::FeatureCollection { bbox: None, features, foreign_members: None };
    serde_json::to_string(&collection).unwrap()
}

fn tree() -> Vec<Facts> {
    vec![
        Facts {
            path: "/photos",
            file_type: FileType::Directory,
            reading: Ok(None),
            image: Ok(()),
            write: Ok(()),
        },
        photo("/photos/a.jpg", Ok(Some(at(52.5, 13.4)))),
        photo("/photos/b.jpg", Ok(None)),
        photo("/photos/c.txt", Err("unsupported format")),
        photo("/photos/.hidden", Ok(Some(at(1.0, 2.0)))),
        Facts {
            path: "/photos/broken.jpg",
            file_type: FileType::File,
            reading: Ok(Some(at(3.0, 4.0))),
            image: Err("corrupt image"),
            write: Ok(()),
        },
        Facts {
            path: "/photos/full.jpg",
            file_type: FileType::File,
            reading: Ok(Some(at(5.0, 6.0))),
            image: Ok(()),
            write: Err("disk full"),
        },
        photo("/photos/2019/a.jpg", Ok(Some(at(7.0, 8.0)))),
        photo("/photos/2019/d.png", Ok(Some(at(-33.9, 151.2)))),
        Facts {
            path: "/photos/link",
            file_type: FileType::Symlink,
            reading: Ok(Some(at(9.0, 9.0))),
            image: Ok(()),
            write: Ok(()),
        },
    ]
}

#[test]
fn run_starts_with_the_default_box() {
    let run = Run::new(path("/photos"), path("/out"), true).unwrap();
    assert_eq!(DEFAULT_BOX, 500);
    assert_eq!(run.width(), 500);
    assert_eq!(run.height(), 500);
    assert_eq!(run.input(), &path("/photos"));
    assert_eq!(run.output(), &path("/out"));
}

#[test]
fn run_refuses_an_output_inside_the_input() {
    for output in ["/photos", "/photos/out", "/photos/a/b"] {
        assert_eq!(
            Run::new(path("/photos"), path(output), true).err(),
            Some(FatalError::OutputInsideInput)
        );
    }
    assert_eq!(
        Run::new(path("/"), path("/out"), true).err(),
        Some(FatalError::OutputInsideInput)
    );
}

#[test]
fn run_reports_nesting_before_a_missing_directory() {
    assert_eq!(
        Run::new(path("/photos"), path("/photos/out"), false).err(),
        Some(FatalError::OutputInsideInput)
    );
}

#[test]
fn run_refuses_an_output_that_is_no_directory() {
    assert_eq!(
        Run::new(path("/photos"), path("/out"), false).err(),
        Some(FatalError::OutputNotDirectory)
    );
}

#[test]
fn run_accepts_an_output_beside_or_above_the_input() {
    assert!(Run::new(path("/photos"), path("/photos-out"), true).is_ok());
    assert!(Run::new(path("/photos/2019"), path("/photos"), true).is_ok());
    assert!(Run::new(path("/photos"), path("/out"), true).is_ok());
}

#[test]
fn run_takes_a_positive_box() {
    let run = run_to("/out").with_box(640, 480).unwrap();
    assert_eq!(run.width(), 640);
    assert_eq!(run.height(), 480);
    assert_eq!(run.output(), &path("/out"));
    assert_eq!(run.input(), &path("/photos"));
    assert!(run_to("/out").with_box(0, 480).is_none());
    assert!(run_to("/out").with_box(640, 0).is_none());
    assert!(run_to("/out").with_box(1, 1).is_some());
}

#[test]
fn document_goes_into_the_output_directory() {
    assert_eq!(run_to("/out").document_path(), path("/out/data.json"));
    assert_eq!(run_to("/out/").document_path(), path("/out/data.json"));
}

#[test]
fn only_regular_files_are_eligible() {
    let found = |file_type| DirectoryEntry::Found { path: path("/photos/x"), file_type };
    assert!(found(FileType::File).is_file());
    assert!(!found(FileType::Directory).is_file());
    assert!(!found(FileType::Symlink).is_file());
    assert!(!found(FileType::Other).is_file());
    assert!(!DirectoryEntry::Unreadable { detail: String::from("permission denied") }.is_file());
}

#[test]
fn discover_takes_up_regular_files_only() {
    let found = |file_type| DirectoryEntry::Found { path: path("/photos/x.jpg"), file_type };
    assert_eq!(
        FileState::discover(found(FileType::File)),
        FileState::Classified { path: path("/photos/x.jpg") }
    );
    assert_eq!(FileState::discover(found(FileType::Directory)), FileState::Excluded);
    assert_eq!(FileState::discover(found(FileType::Symlink)), FileState::Excluded);
    assert_eq!(FileState::discover(found(FileType::Other)), FileState::Excluded);
    assert_eq!(
        FileState::discover(DirectoryEntry::Unreadable { detail: String::from("broken link") }),
        FileState::Unreadable { detail: String::from("broken link") }
    );
}

#[test]
fn an_unreadable_entry_does_not_stop_the_run() {
    let run = run_to("/out");
    let state =
        FileState::discover(DirectoryEntry::Unreadable { detail: String::from("denied") });
    assert!(state.is_final());
    assert_eq!(state.pending(&run), Action::Stop);
    assert_eq!(state.log_severity(), Some(Severity::Error));
    let mut present = BTreeSet::new();
    let (next, _) = process(&photo("/photos/a.jpg", Ok(Some(at(1.0, 1.0)))), &run, &mut present);
    assert_eq!(next, FileState::RecordEmitted(MediaInfo::new(path("/photos/a.jpg"), at(1.0, 1.0)).unwrap()));
}

#[test]
fn each_state_waits_for_one_thing() {
    let run = run_to("/out");
    assert_eq!(
        FileState::Classified { path: path("/photos/a.jpg") }.pending(&run),
        Action::ReadMetadata { path: path("/photos/a.jpg") }
    );
    assert_eq!(
        FileState::Coordinates { info: info("/photos/a.jpg") }.pending(&run),
        Action::Thumbnail(ThumbnailWork::Load {
            source: path("/photos/a.jpg"),
            width: 500,
            height: 500,
        })
    );
    assert_eq!(
        FileState::ImageLoaded { info: info("/photos/a.jpg") }.pending(&run),
        Action::Thumbnail(ThumbnailWork::Probe { destination: path("/out/a_thumb.jpg") })
    );
    assert_eq!(
        FileState::DestinationFree { info: info("/photos/a.jpg") }.pending(&run),
        Action::Thumbnail(ThumbnailWork::Write { destination: path("/out/a_thumb.jpg") })
    );
    assert_eq!(FileState::Excluded.pending(&run), Action::Stop);
    assert_eq!(FileState::RecordEmitted(info("/photos/a.jpg")).pending(&run), Action::Stop);
    assert_eq!(
        FileState::Skipped(EMError::NoGPSInformation { filename: path("/photos/b.jpg") })
            .pending(&run),
        Action::Stop
    );
}

#[test]
fn the_box_of_the_run_is_handed_to_the_resizer() {
    let run = run_to("/out").with_box(320, 200).unwrap();
    assert_eq!(
        FileState::Coordinates { info: info("/photos/a.jpg") }.pending(&run),
        Action::Thumbnail(ThumbnailWork::Load {
            source: path("/photos/a.jpg"),
            width: 320,
            height: 200,
        })
    );
}

#[test]
fn advance_follows_the_order_of_the_work() {
    let run = run_to("/out");
    let state = FileState::Classified { path: path("/photos/a.jpg") };
    let state = state.advance(Event::Metadata(Ok(Some(at(52.5, 13.4)))), &run);
    assert_eq!(state, FileState::Coordinates { info: info("/photos/a.jpg") });
    let state = state.advance(Event::Thumbnail(ThumbnailProgress::Loaded), &run);
    assert_eq!(state, FileState::ImageLoaded { info: info("/photos/a.jpg") });
    let state = state.advance(Event::Thumbnail(ThumbnailProgress::Free), &run);
    assert_eq!(state, FileState::DestinationFree { info: info("/photos/a.jpg") });
    let state = state.advance(Event::Thumbnail(ThumbnailProgress::Written), &run);
    assert_eq!(state, FileState::RecordEmitted(info("/photos/a.jpg")));
}

#[test]
fn advance_ignores_an_event_that_answers_nothing() {
    let run = run_to("/out");
    let unasked = [
        ThumbnailProgress::Start,
        ThumbnailProgress::Free,
        ThumbnailProgress::Taken,
        ThumbnailProgress::Written,
        ThumbnailProgress::WriteFailed { detail: String::from("late") },
    ];
    for progress in unasked {
        let state = FileState::Coordinates { info: info("/photos/a.jpg") };
        assert_eq!(
            state.advance(Event::Thumbnail(progress), &run),
            FileState::Coordinates { info: info("/photos/a.jpg") }
        );
    }
    let state = FileState::ImageLoaded { info: info("/photos/a.jpg") };
    assert_eq!(
        state.advance(Event::Thumbnail(ThumbnailProgress::Written), &run),
        FileState::ImageLoaded { info: info("/photos/a.jpg") }
    );
    let state = FileState::DestinationFree { info: info("/photos/a.jpg") };
    assert_eq!(
        state.advance(Event::Metadata(Ok(None)), &run),
        FileState::DestinationFree { info: info("/photos/a.jpg") }
    );
    let state = FileState::Classified { path: path("/photos/a.jpg") };
    assert_eq!(
        state.advance(Event::Thumbnail(ThumbnailProgress::Written), &run),
        FileState::Classified { path: path("/photos/a.jpg") }
    );
    assert_eq!(
        FileState::Excluded.advance(Event::Metadata(Ok(Some(at(1.0, 1.0)))), &run),
        FileState::Excluded
    );
}

#[test]
fn nothing_is_written_without_a_probe_that_found_the_destination_free() {
    let run = run_to("/out");
    let state = FileState::ImageLoaded { info: info("/photos/a.jpg") };
    let state = state.advance(Event::Thumbnail(ThumbnailProgress::Taken), &run);
    assert_eq!(
        state,
        FileState::Skipped(EMError::ThumbnailExists { destination: path("/out/a_thumb.jpg") })
    );
    assert_eq!(state.pending(&run), Action::Stop);
}

#[test]
fn the_end_of_an_entry_is_logged_by_its_kind() {
    assert_eq!(FileState::Excluded.log_severity(), None);
    assert_eq!(FileState::RecordEmitted(info("/photos/a.jpg")).log_severity(), None);
    assert_eq!(FileState::Classified { path: path("/photos/a.jpg") }.log_severity(), None);
    assert_eq!(
        FileState::Skipped(EMError::NoGPSInformation { filename: path("/photos/b.jpg") })
            .log_severity(),
        Some(Severity::Trace)
    );
    assert_eq!(
        FileState::Skipped(EMError::NoFileExtension { filename: path(".bashrc") }).log_severity(),
        Some(Severity::Error)
    );
    assert_eq!(
        FileState::Unreadable { detail: String::from("denied") }.log_severity(),
        Some(Severity::Error)
    );
}

#[test]
fn one_geotagged_file_and_one_without() {
    let run = Run::new(path("/photos"), path("/out"), true).unwrap();
    let files = [
        photo("/photos/a.jpg", Ok(Some(at(52.5, 13.4)))),
        photo("/photos/b.jpg", Ok(None)),
    ];
    let mut present = BTreeSet::new();
    let states = process_all(&files, &run, &mut present);
    assert_eq!(
        states,
        vec![
            FileState::RecordEmitted(MediaInfo {
                path: path("/photos/a.jpg"),
                thumbnail_filename: String::from("a_thumb.jpg"),
                gpsinfo: at(52.5, 13.4),
            }),
            FileState::Skipped(EMError::NoGPSInformation { filename: path("/photos/b.jpg") }),
        ]
    );
    assert_eq!(states[1].log_severity(), Some(Severity::Trace));

    let points = features(&states);
    assert_eq!(points.len(), 1);
    assert_eq!(points[0].coordinates, vec![13.4f64.to_bits(), 52.5f64.to_bits()]);
    assert_eq!(points[0].properties.len(), 2);
    assert_eq!(points[0].properties["filename"], "/photos/a.jpg");
    assert_eq!(points[0].properties["thumbnail_filename"], "a_thumb.jpg");

    let only = BTreeSet::from([path("/out/a_thumb.jpg")]);
    assert_eq!(present, only);

    let written: serde_json::Value = serde_json::from_str(&document(&points)).unwrap();
    assert_eq!(written["type"], "FeatureCollection");
    assert_eq!(written["features"].as_array().unwrap().len(), 1);
    let feature = &written["features"][0];
    assert_eq!(feature["type"], "Feature");
    assert_eq!(feature["geometry"]["type"], "Point");
    assert_eq!(feature["geometry"]["coordinates"].as_array().unwrap().len(), 2);
    assert_eq!(feature["geometry"]["coordinates"][0].as_f64(), Some(13.4));
    assert_eq!(feature["geometry"]["coordinates"][1].as_f64(), Some(52.5));
    assert_eq!(feature["properties"].as_object().unwrap().len(), 2);
    assert_eq!(feature["properties"]["filename"], "/photos/a.jpg");
    assert_eq!(feature["properties"]["thumbnail_filename"], "a_thumb.jpg");
    assert!(!document(&points).contains("/photos/b.jpg"));
    assert!(!document(&points).contains("b_thumb"));
    assert!(!present.contains(&path("/out/b_thumb.jpg")));
}

#[test]
fn a_whole_tree_ends_each_entry_at_the_first_thing_amiss() {
    let run = run_to("/out");
    let mut present = BTreeSet::new();
    let states = process_all(&tree(), &run, &mut present);
    assert_eq!(
        states,
        vec![
            FileState::Excluded,
            FileState::RecordEmitted(MediaInfo::new(path("/photos/a.jpg"), at(52.5, 13.4)).unwrap()),
            FileState::Skipped(EMError::NoGPSInformation { filename: path("/photos/b.jpg") }),
            FileState::Skipped(EMError::MetadataUnreadable {
                filename: path("/photos/c.txt"),
                detail: String::from("unsupported format"),
            }),
            FileState::Skipped(EMError::NoFileExtension { filename: path("/photos/.hidden") }),
            FileState::Skipped(EMError::ImageUnreadable {
                filename: path("/photos/broken.jpg"),
                detail: String::from("corrupt image"),
            }),
            FileState::Skipped(EMError::ThumbnailUnwritable {
                destination: path("/out/full_thumb.jpg"),
                detail: String::from("disk full"),
            }),
            FileState::Skipped(EMError::ThumbnailExists {
                destination: path("/out/a_thumb.jpg"),
            }),
            FileState::RecordEmitted(
                MediaInfo::new(path("/photos/2019/d.png"), at(-33.9, 151.2)).unwrap()
            ),
            FileState::Excluded,
        ]
    );
    let written = BTreeSet::from([path("/out/a_thumb.jpg"), path("/out/d_thumb.png")]);
    assert_eq!(present, written);
}

#[test]
fn the_document_has_one_point_for_each_record() {
    let run = run_to("/out");
    let mut present = BTreeSet::new();
    let states = process_all(&tree(), &run, &mut present);
    let points = features(&states);
    assert_eq!(points.len(), 2);
    assert_eq!(points.len(), emitted(&states));
    assert_eq!(points.len(), present.len());
    assert_eq!(points[0].properties["filename"], "/photos/a.jpg");
    assert_eq!(points[1].properties["filename"], "/photos/2019/d.png");
    assert_eq!(points[1].properties["thumbnail_filename"], "d_thumb.png");
    assert_eq!(points[1].coordinates, vec![151.2f64.to_bits(), (-33.9f64).to_bits()]);
}

#[test]
fn the_document_of_no_entries_is_empty() {
    assert_eq!(features(&Vec::new()), Vec::new());
    assert_eq!(features(&vec![FileState::Excluded]), Vec::new());
    assert_eq!(
        document(&features(&Vec::new())),
        "{\"type\":\"FeatureCollection\",\"features\":[]}"
    );
}

#[test]
fn a_record_whose_path_is_not_text_adds_no_point() {
    let source = vec![b'/', 0xff, b'/', b'a', b'.', b'j', b'p', b'g'];
    let states = vec![
        FileState::RecordEmitted(MediaInfo::new(source, at(1.0, 2.0)).unwrap()),
        FileState::RecordEmitted(info("/photos/a.jpg")),
    ];
    let points = features(&states);
    assert_eq!(points.len(), 1);
    assert_eq!(points[0].properties["filename"], "/photos/a.jpg");
}

#[test]
fn a_thumbnail_stands_for_every_record() {
    let run = run_to("/out");
    let mut present = BTreeSet::new();
    let states = process_all(&tree(), &run, &mut present);
    for state in &states {
        if let FileState::RecordEmitted(info) = state {
            assert!(present.contains(&info.destination(run.output())));
            let stem = exifmap::paths::file_stem(&info.path).unwrap();
            let extension = exifmap::paths::extension(&info.path).unwrap();
            let name = [stem, path("_thumb."), extension].concat();
            assert_eq!(info.thumbnail_filename.as_bytes(), name);
            assert_eq!(exifmap::paths::file_name(&info.destination(run.output())), Some(name));
        }
    }
}

#[test]
fn a_second_run_collides_with_the_first() {
    let run = run_to("/out");
    let mut present = BTreeSet::new();
    let first = process_all(&tree(), &run, &mut present);
    let left = present.clone();
    let second = process_all(&tree(), &run, &mut present);
    assert_eq!(present, left);
    assert_eq!(emitted(&second), 0);
    assert_eq!(features(&second), Vec::new());
    for (before, after) in first.iter().zip(second.iter()) {
        if let FileState::RecordEmitted(info) = before {
            assert_eq!(
                after,
                &FileState::Skipped(EMError::ThumbnailExists {
                    destination: info.destination(run.output()),
                })
            );
            assert_eq!(after.log_severity(), Some(Severity::Error));
        } else if !matches!(before, FileState::Skipped(EMError::ThumbnailUnwritable { .. })) {
            assert_eq!(after, before);
        }
    }
}

#[test]
fn a_hidden_file_without_suffix_is_skipped_with_a_naming_error() {
    let run = run_to("/out");
    let mut present = BTreeSet::new();
    let (state, asked) =
        process(&photo("/home/me/.bashrc", Ok(Some(at(1.0, 2.0)))), &run, &mut present);
    assert_eq!(
        state,
        FileState::Skipped(EMError::NoFileExtension { filename: path("/home/me/.bashrc") })
    );
    assert_eq!(asked, vec![Action::ReadMetadata { path: path("/home/me/.bashrc") }]);
    assert_eq!(state.log_severity(), Some(Severity::Error));
    assert!(present.is_empty());
    assert_eq!(features(&vec![state]), Vec::new());
}

#[test]
fn work_on_a_thumbnail_comes_in_order() {
    let run = run_to("/out");
    let mut present = BTreeSet::new();
    let (_, asked) = process(&photo("/photos/a.jpg", Ok(Some(at(1.0, 2.0)))), &run, &mut present);
    assert_eq!(
        asked,
        vec![
            Action::ReadMetadata { path: path("/photos/a.jpg") },
            Action::Thumbnail(ThumbnailWork::Load {
                source: path("/photos/a.jpg"),
                width: 500,
                height: 500,
            }),
            Action::Thumbnail(ThumbnailWork::Probe { destination: path("/out/a_thumb.jpg") }),
            Action::Thumbnail(ThumbnailWork::Write { destination: path("/out/a_thumb.jpg") }),
        ]
    );
}

#[test]
fn an_image_that_does_not_load_is_reported_before_a_collision() {
    let run = run_to("/out");
    let mut present = BTreeSet::from([path("/out/broken_thumb.jpg")]);
    let facts = Facts {
        path: "/photos/broken.jpg",
        file_type: FileType::File,
        reading: Ok(Some(at(3.0, 4.0))),
        image: Err("corrupt image"),
        write: Ok(()),
    };
    let (state, asked) = process(&facts, &run, &mut present);
    assert_eq!(
        state,
        FileState::Skipped(EMError::ImageUnreadable {
            filename: path("/photos/broken.jpg"),
            detail: String::from("corrupt image"),
        })
    );
    assert_eq!(asked.len(), 2);
}

#[test]
fn two_files_of_one_name_collide() {
    let run = run_to("/out");
    let files = [
        photo("/photos/2018/a.jpg", Ok(Some(at(1.0, 2.0)))),
        photo("/photos/2019/a.jpg", Ok(Some(at(3.0, 4.0)))),
    ];
    let mut present = BTreeSet::new();
    let states = process_all(&files, &run, &mut present);
    assert_eq!(emitted(&states), 1);
    assert_eq!(
        states[1],
        FileState::Skipped(EMError::ThumbnailExists { destination: path("/out/a_thumb.jpg") })
    );
}
