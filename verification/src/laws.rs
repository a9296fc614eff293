//! What holds of every run, proved over a model of the outside world.
//!
//! The model gives, for each entry, what the metadata reader and the image
//! resizer would say of it, and keeps the set of paths at which a file
//! stands in the output directory. A caller that does what is pending and
//! reports truthfully takes each entry through at most four rounds; entries
//! are taken one after the other.

use crate::error::{EMErrorView, FatalError, OutcomeKind};
use crate::media::{
    destination_of, extracted, lemma_destination, lemma_thumbnail_name, record_of, GpsInfo,
    MediaRecord, PointView, ThumbnailProgressView, ThumbnailWorkView,
};
use crate::paths::{extension_of, file_stem_of, is_within, SEPARATOR};
use crate::pipeline::{
    feature_at_end, features_of, preflight, ActionView, DirectoryEntryView, EventView,
    FileStateView,
};
use crate::text::thumb_marker_bytes;
use vstd::prelude::*;
use vstd::utf8::*;

verus! {

/// Where a run writes, and the box it fits images into.
pub ghost struct Setting {
    pub directory: Seq<u8>,
    pub width: usize,
    pub height: usize,
}

/// What the outside world holds for one entry of the traversal.
pub ghost struct Facts {
    /// What the traversal found.
    pub entry: DirectoryEntryView,
    /// What the metadata reader says of the file.
    pub reading: Result<Option<GpsInfo>, Seq<char>>,
    /// Whether the image loads, or why not.
    pub image: Result<(), Seq<char>>,
    /// Whether the thumbnail can be written, or why not.
    pub write: Result<(), Seq<char>>,
}

/// What a truthful caller reports after `action`, where files stand at the
/// paths in `present`.
pub open spec fn report(action: ActionView, facts: Facts, present: Set<Seq<u8>>) -> EventView {
    match action {
        ActionView::Thumbnail(ThumbnailWorkView::Load { .. }) => EventView::Thumbnail(
            match facts.image {
                Ok(_) => ThumbnailProgressView::Loaded,
                Err(detail) => ThumbnailProgressView::LoadFailed { detail },
            },
        ),
        ActionView::Thumbnail(ThumbnailWorkView::Probe { destination }) => EventView::Thumbnail(
            if present.contains(destination) {
                ThumbnailProgressView::Taken
            } else {
                ThumbnailProgressView::Free
            },
        ),
        ActionView::Thumbnail(ThumbnailWorkView::Write { .. }) => EventView::Thumbnail(
            match facts.write {
                Ok(_) => ThumbnailProgressView::Written,
                Err(detail) => ThumbnailProgressView::WriteFailed { detail },
            },
        ),
        _ => EventView::Metadata(facts.reading),
    }
}

/// The paths at which files stand after `action`: a write that succeeds
/// adds its destination.
pub open spec fn effect(action: ActionView, facts: Facts, present: Set<Seq<u8>>) -> Set<Seq<u8>> {
    match action {
        ActionView::Thumbnail(ThumbnailWorkView::Write { destination }) => if facts.write is Ok {
            present.insert(destination)
        } else {
            present
        },
        _ => present,
    }
}

/// One round: the caller asks what is pending, does it and reports.
pub open spec fn round(
    state: FileStateView,
    facts: Facts,
    present: Set<Seq<u8>>,
    setting: Setting,
) -> (FileStateView, Set<Seq<u8>>) {
    let action = state.pending(setting.directory, setting.width, setting.height);
    (
        state.advanced(
            report(action, facts, present),
            setting.directory,
            setting.width,
            setting.height,
        ),
        effect(action, facts, present),
    )
}

/// Where an entry ends, and what then stands in the output directory: four
/// rounds from the state in which it was found.
pub open spec fn processed(facts: Facts, present: Set<Seq<u8>>, setting: Setting) -> (
    FileStateView,
    Set<Seq<u8>>,
) {
    let first = round(FileStateView::discovered(facts.entry), facts, present, setting);
    let second = round(first.0, facts, first.1, setting);
    let third = round(second.0, facts, second.1, setting);
    round(third.0, facts, third.1, setting)
}

/// Where an entry ends, said outright: it is left out at the first thing
/// that is amiss, in the order classification, metadata, name, image,
/// destination, write.
pub open spec fn concluded(facts: Facts, present: Set<Seq<u8>>, setting: Setting) -> FileStateView {
    match facts.entry {
        DirectoryEntryView::Unreadable { detail } => FileStateView::Unreadable { detail },
        DirectoryEntryView::Found { path, .. } => if !facts.entry.is_file() {
            FileStateView::Excluded
        } else {
            match extracted(path, facts.reading) {
                Err(error) => FileStateView::Skipped(error),
                Ok(info) => {
                    let destination = destination_of(info, setting.directory);
                    match facts.image {
                        Err(detail) => FileStateView::Skipped(
                            EMErrorView::ImageUnreadable { filename: path, detail },
                        ),
                        Ok(_) => if present.contains(destination) {
                            FileStateView::Skipped(EMErrorView::ThumbnailExists { destination })
                        } else {
                            match facts.write {
                                Err(detail) => FileStateView::Skipped(
                                    EMErrorView::ThumbnailUnwritable { destination, detail },
                                ),
                                Ok(_) => FileStateView::RecordEmitted(info),
                            }
                        },
                    }
                },
            }
        },
    }
}

/// Whether an entry ends with a record: it is a regular file with a
/// geolocation and a thumbnail name, its image loads, nothing stands at the
/// destination, and the thumbnail is written.
pub open spec fn succeeds(facts: Facts, present: Set<Seq<u8>>, setting: Setting) -> bool {
    &&& facts.entry.is_file()
    &&& facts.reading matches Ok(Some(gpsinfo))
    &&& record_of(facts.entry->path, gpsinfo) matches Ok(info)
    &&& facts.image is Ok
    &&& !present.contains(destination_of(info, setting.directory))
    &&& facts.write is Ok
}

/// The record with which an entry ends, where it ends with one.
pub open spec fn record_in(facts: Facts) -> MediaRecord {
    record_of(facts.entry->path, facts.reading->Ok_0->0)->Ok_0
}

/// What stands in the output directory after an entry: what stood there,
/// and the thumbnail where the entry ends with a record.
pub open spec fn present_after(facts: Facts, present: Set<Seq<u8>>, setting: Setting) -> Set<
    Seq<u8>,
> {
    if succeeds(facts, present, setting) {
        present.insert(destination_of(record_in(facts), setting.directory))
    } else {
        present
    }
}

/// A truthful caller brings every entry to its end, the end is the one
/// that [`concluded`] names, and a thumbnail is written exactly for a
/// record.
pub proof fn law_processed(facts: Facts, present: Set<Seq<u8>>, setting: Setting)
    ensures
        processed(facts, present, setting).0 == concluded(facts, present, setting),
        processed(facts, present, setting).1 == present_after(facts, present, setting),
        concluded(facts, present, setting).is_final(),
        succeeds(facts, present, setting) <==> concluded(facts, present, setting)
            is RecordEmitted,
        succeeds(facts, present, setting) ==> concluded(facts, present, setting)
            == FileStateView::RecordEmitted(record_in(facts)),
{
}

/// An entry that is at its end stays there: nothing is pending, and no
/// event moves it. A failure is not tried again.
pub proof fn law_final_is_fixed(state: FileStateView, event: EventView, setting: Setting)
    requires
        state.is_final(),
    ensures
        state.pending(setting.directory, setting.width, setting.height) == ActionView::Stop,
        state.advanced(event, setting.directory, setting.width, setting.height) == state,
{
}

/// What stands in the output directory after the entries `files`, taken in
/// order.
pub open spec fn run_present(files: Seq<Facts>, present: Set<Seq<u8>>, setting: Setting) -> Set<
    Seq<u8>,
>
    decreases files.len(),
{
    if files.len() == 0 {
        present
    } else {
        processed(files.last(), run_present(files.drop_last(), present, setting), setting).1
    }
}

/// Where the entries `files` end, taken in order.
pub open spec fn run_states(files: Seq<Facts>, present: Set<Seq<u8>>, setting: Setting) -> Seq<
    FileStateView,
>
    decreases files.len(),
{
    if files.len() == 0 {
        seq![]
    } else {
        run_states(files.drop_last(), present, setting).push(
            processed(files.last(), run_present(files.drop_last(), present, setting), setting).0,
        )
    }
}

/// How many of the entries `files` end with a record.
pub open spec fn emitted_count(files: Seq<Facts>, present: Set<Seq<u8>>, setting: Setting) -> nat
    decreases files.len(),
{
    if files.len() == 0 {
        0
    } else {
        emitted_count(files.drop_last(), present, setting) + if succeeds(
            files.last(),
            run_present(files.drop_last(), present, setting),
            setting,
        ) {
            1nat
        } else {
            0nat
        }
    }
}

/// How many of the entries `files` end with a record whose path is text.
pub open spec fn documented_count(files: Seq<Facts>, present: Set<Seq<u8>>, setting: Setting) -> nat
    decreases files.len(),
{
    if files.len() == 0 {
        0
    } else {
        documented_count(files.drop_last(), present, setting) + if succeeds(
            files.last(),
            run_present(files.drop_last(), present, setting),
            setting,
        ) && valid_utf8(files.last().entry->path) {
            1nat
        } else {
            0nat
        }
    }
}

/// Whether every entry that ends with a record has a path that is text.
pub open spec fn records_are_text(files: Seq<Facts>, present: Set<Seq<u8>>, setting: Setting) -> bool
    decreases files.len(),
{
    files.len() > 0 ==> {
        &&& records_are_text(files.drop_last(), present, setting)
        &&& succeeds(files.last(), run_present(files.drop_last(), present, setting), setting)
            ==> valid_utf8(files.last().entry->path)
    }
}

/// The run has one end for each entry, and entry `i` ends as it does when
/// it is processed after the entries before it.
pub proof fn law_run_states(files: Seq<Facts>, present: Set<Seq<u8>>, setting: Setting, i: int)
    requires
        0 <= i < files.len(),
    ensures
        run_states(files, present, setting).len() == files.len(),
        run_states(files, present, setting)[i] == concluded(
            files[i],
            run_present(files.take(i), present, setting),
            setting,
        ),
        run_present(files.take(i + 1), present, setting) == present_after(
            files[i],
            run_present(files.take(i), present, setting),
            setting,
        ),
    decreases files.len(),
{
    lemma_run_len(files, present, setting);
    let front = files.drop_last();
    lemma_run_len(front, present, setting);
    if i == files.len() - 1 {
        assert(files.take(i) =~= front);
        assert(files.take(i + 1) =~= files);
        law_processed(files[i], run_present(front, present, setting), setting);
    } else {
        law_run_states(front, present, setting, i);
        assert(front.take(i) =~= files.take(i));
        assert(front.take(i + 1) =~= files.take(i + 1));
    }
}

/// The run has one end for each entry.
pub proof fn lemma_run_len(files: Seq<Facts>, present: Set<Seq<u8>>, setting: Setting)
    ensures
        run_states(files, present, setting).len() == files.len(),
    decreases files.len(),
{
    if files.len() > 0 {
        lemma_run_len(files.drop_last(), present, setting);
    }
}

/// The document has one point for each entry that ends with a record whose
/// path is text.
pub proof fn law_feature_count(files: Seq<Facts>, present: Set<Seq<u8>>, setting: Setting)
    ensures
        features_of(run_states(files, present, setting)).len() == documented_count(
            files,
            present,
            setting,
        ),
    decreases files.len(),
{
    if files.len() > 0 {
        let front = files.drop_last();
        let before = run_present(front, present, setting);
        let states = run_states(files, present, setting);
        law_feature_count(front, present, setting);
        law_processed(files.last(), before, setting);
        assert(states.drop_last() =~= run_states(front, present, setting));
        assert(states.last() == concluded(files.last(), before, setting));
    }
}

/// Where every record has a path that is text, the document has one point
/// for each regular file that had a geolocation and a thumbnail name, whose
/// image loaded, whose destination was free and whose thumbnail was
/// written.
pub proof fn law_feature_count_of_text(
    files: Seq<Facts>,
    present: Set<Seq<u8>>,
    setting: Setting,
)
    requires
        records_are_text(files, present, setting),
    ensures
        features_of(run_states(files, present, setting)).len() == emitted_count(
            files,
            present,
            setting,
        ),
{
    law_feature_count(files, present, setting);
    lemma_counts_agree(files, present, setting);
}

/// Where every record has a path that is text, the two counts agree.
proof fn lemma_counts_agree(files: Seq<Facts>, present: Set<Seq<u8>>, setting: Setting)
    requires
        records_are_text(files, present, setting),
    ensures
        documented_count(files, present, setting) == emitted_count(files, present, setting),
    decreases files.len(),
{
    if files.len() > 0 {
        lemma_counts_agree(files.drop_last(), present, setting);
    }
}

/// Nothing leaves the output directory during a run.
pub proof fn law_present_grows(files: Seq<Facts>, present: Set<Seq<u8>>, setting: Setting)
    ensures
        present.subset_of(run_present(files, present, setting)),
    decreases files.len(),
{
    if files.len() > 0 {
        let front = files.drop_last();
        law_present_grows(front, present, setting);
        law_processed(files.last(), run_present(front, present, setting), setting);
    }
}

/// What stands after the first `i` entries still stands at the end.
pub proof fn lemma_prefix_stays(
    files: Seq<Facts>,
    present: Set<Seq<u8>>,
    setting: Setting,
    i: int,
)
    requires
        0 <= i <= files.len(),
    ensures
        run_present(files.take(i), present, setting).subset_of(
            run_present(files, present, setting),
        ),
    decreases files.len(),
{
    if i == files.len() {
        assert(files.take(i) =~= files);
    } else {
        let front = files.drop_last();
        lemma_prefix_stays(front, present, setting, i);
        assert(front.take(i) =~= files.take(i));
        law_processed(files.last(), run_present(front, present, setting), setting);
    }
}

/// After a run, a thumbnail stands in the output directory for every
/// record. It stands in the directory itself, and the bytes of its name are
/// the stem of the source, `_thumb.` and the extension of the source.
pub proof fn law_thumbnail_stands(
    files: Seq<Facts>,
    present: Set<Seq<u8>>,
    setting: Setting,
    i: int,
)
    requires
        0 <= i < files.len(),
        run_states(files, present, setting)[i] is RecordEmitted,
    ensures
        ({
            let info = run_states(files, present, setting)[i]->RecordEmitted_0;
            let name = encode_utf8(info.thumbnail_filename);
            let destination = destination_of(info, setting.directory);
            &&& info.path == files[i].entry->path
            &&& name == file_stem_of(info.path)->0 + thumb_marker_bytes() + extension_of(
                info.path,
            )->0
            &&& destination == setting.directory + name || destination == setting.directory
                + seq![SEPARATOR] + name
            &&& run_present(files, present, setting).contains(destination)
        }),
{
    let before = run_present(files.take(i), present, setting);
    law_run_states(files, present, setting, i);
    law_processed(files[i], before, setting);
    lemma_prefix_stays(files, present, setting, i + 1);
    let path = files[i].entry->path;
    let gpsinfo = files[i].reading->Ok_0->0;
    lemma_thumbnail_name(path);
    lemma_destination(path, gpsinfo, setting.directory);
}

/// A second run over the same entries, into the directory as the first run
/// left it, ends every entry that had a record with the error that its
/// thumbnail exists. It writes nothing, and its document is empty.
pub proof fn law_second_run(files: Seq<Facts>, present: Set<Seq<u8>>, setting: Setting, i: int)
    requires
        0 <= i < files.len(),
    ensures
        ({
            let left = run_present(files, present, setting);
            let first = run_states(files, present, setting);
            let second = run_states(files, left, setting);
            &&& run_present(files, left, setting) == left
            &&& features_of(second) == Seq::<PointView>::empty()
            &&& !(second[i] is RecordEmitted)
            &&& first[i] matches FileStateView::RecordEmitted(info) ==> second[i]
                == FileStateView::Skipped(
                EMErrorView::ThumbnailExists {
                    destination: destination_of(info, setting.directory),
                },
            )
        }),
{
    let left = run_present(files, present, setting);
    lemma_second_run(files, present, setting, files.len() as int);
    assert(files.take(files.len() as int) =~= files);
    lemma_second_run(files, present, setting, i + 1);
    lemma_second_run(files, present, setting, i);
    law_run_states(files, present, setting, i);
    law_run_states(files, left, setting, i);
    law_processed(files[i], run_present(files.take(i), present, setting), setting);
    law_processed(files[i], run_present(files.take(i), left, setting), setting);
    lemma_prefix_stays(files, present, setting, i + 1);
}

/// In a second run, the first `n` entries write nothing and add nothing to
/// the document.
proof fn lemma_second_run(files: Seq<Facts>, present: Set<Seq<u8>>, setting: Setting, n: int)
    requires
        0 <= n <= files.len(),
    ensures
        run_present(files.take(n), run_present(files, present, setting), setting) == run_present(
            files,
            present,
            setting,
        ),
        features_of(run_states(files.take(n), run_present(files, present, setting), setting))
            == Seq::<PointView>::empty(),
    decreases n,
{
    let left = run_present(files, present, setting);
    if n > 0 {
        let i = n - 1;
        let part = files.take(n);
        lemma_second_run(files, present, setting, i);
        assert(part.drop_last() =~= files.take(i));
        assert(part.last() == files[i]);
        let before = run_present(files.take(i), present, setting);
        law_run_states(files, present, setting, i);
        law_processed(files[i], before, setting);
        law_processed(files[i], left, setting);
        lemma_prefix_stays(files, present, setting, i);
        lemma_prefix_stays(files, present, setting, i + 1);
        lemma_run_len(files.take(i), left, setting);
        let states = run_states(part, left, setting);
        assert(states.drop_last() =~= run_states(files.take(i), left, setting));
        assert(!succeeds(files[i], left, setting)) by {
            if succeeds(files[i], left, setting) {
                let destination = destination_of(record_in(files[i]), setting.directory);
                assert(!before.contains(destination));
                assert(succeeds(files[i], before, setting));
                assert(run_present(files.take(i + 1), present, setting).contains(destination));
            }
        }
    }
}

/// A regular file with a geolocation whose path has no stem or no
/// extension ends with a naming error, whatever else holds of it, and adds
/// nothing to the document.
pub proof fn law_unnamed_is_skipped(facts: Facts, present: Set<Seq<u8>>, setting: Setting)
    requires
        facts.entry.is_file(),
        facts.reading matches Ok(Some(_)),
        file_stem_of(facts.entry->path) is None || extension_of(facts.entry->path) is None,
    ensures
        processed(facts, present, setting).0 matches FileStateView::Skipped(error)
            && error.kind() == OutcomeKind::NamingError,
        feature_at_end(processed(facts, present, setting).0) == Seq::<PointView>::empty(),
        processed(facts, present, setting).1 == present,
{
    law_processed(facts, present, setting);
}

/// A directory lies within itself: an output directory that is the input
/// directory stops the run like one below it.
pub proof fn law_same_directory_is_fatal(directory: Seq<u8>, output_is_directory: bool)
    ensures
        preflight(directory, directory, output_is_directory) == Err::<(), FatalError>(
            FatalError::OutputInsideInput,
        ),
{
    assert(is_within(directory, directory));
}

} // verus!
