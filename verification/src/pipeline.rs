//! The run: what is settled before it starts, what happens to each entry of
//! the traversal, and what the document holds at the end.
//!
//! The library does no outside work. For each entry the caller asks a
//! [`FileState`] what is pending, does it, and reports the result, until
//! nothing is pending.

use crate::error::{EMError, EMErrorView, FatalError, Severity};
use crate::media::{
    copy, extracted, feature_of, reading_view, thumbnail_step, GpsInfo, MediaInfo, MediaRecord,
    PointFeature, PointView, Reading, ThumbnailProgress, ThumbnailProgressView,
    ThumbnailStep, ThumbnailStepView, ThumbnailWork, ThumbnailWorkView,
};
use crate::paths::{is_within, join, joined, starts_with};
use vstd::prelude::*;

verus! {

/// The width and the height of the box that thumbnails are fitted into,
/// unless the caller asks for another.
pub const DEFAULT_BOX: usize = 500;

/// The bytes of `data.json`, the name of the document.
pub open spec fn document_name() -> Seq<u8> {
    seq![100u8, 97u8, 116u8, 97u8, 46u8, 106u8, 115u8, 111u8, 110u8]
}

/// Whether a run from `input` to `output` may start. Both paths are
/// resolved. The output must not be the input or lie below it, and must be
/// a directory; the first of the two that fails is reported.
pub open spec fn preflight(input: Seq<u8>, output: Seq<u8>, output_is_directory: bool) -> Result<
    (),
    FatalError,
> {
    if is_within(output, input) {
        Err(FatalError::OutputInsideInput)
    } else if !output_is_directory {
        Err(FatalError::OutputNotDirectory)
    } else {
        Ok(())
    }
}

/// A run that may start: an input directory, an output directory that is
/// not inside it, and a box with a positive width and height.
#[derive(Debug)]
pub struct Run {
    input: Vec<u8>,
    output: Vec<u8>,
    width: usize,
    height: usize,
}

impl Run {
    #[verifier::type_invariant]
    spec fn sound(self) -> bool {
        &&& !is_within(self.output@, self.input@)
        &&& self.width > 0
        &&& self.height > 0
    }

    /// The input directory.
    pub closed spec fn input_path(self) -> Seq<u8> {
        self.input@
    }

    /// The output directory.
    pub closed spec fn output_path(self) -> Seq<u8> {
        self.output@
    }

    /// The width of the box.
    pub closed spec fn box_width(self) -> usize {
        self.width
    }

    /// The height of the box.
    pub closed spec fn box_height(self) -> usize {
        self.height
    }

    /// A run from the resolved directory `input` to the resolved directory
    /// `output`, with the default box. `output_is_directory` says whether
    /// the output path names a directory.
    pub fn new(input: Vec<u8>, output: Vec<u8>, output_is_directory: bool) -> (run: Result<
        Run,
        FatalError,
    >)
        ensures
            match run {
                Ok(run) => {
                    &&& preflight(input@, output@, output_is_directory) is Ok
                    &&& run.input_path() == input@
                    &&& run.output_path() == output@
                    &&& run.box_width() == DEFAULT_BOX
                    &&& run.box_height() == DEFAULT_BOX
                },
                Err(error) => preflight(input@, output@, output_is_directory) == Err::<
                    (),
                    FatalError,
                >(error),
            },
    {
        if starts_with(&output, &input) {
            Err(FatalError::OutputInsideInput)
        } else if !output_is_directory {
            Err(FatalError::OutputNotDirectory)
        } else {
            Ok(Run { input, output, width: DEFAULT_BOX, height: DEFAULT_BOX })
        }
    }

    /// The same run with a box of `width` by `height`, where both are
    /// positive.
    pub fn with_box(self, width: usize, height: usize) -> (run: Option<Run>)
        ensures
            run is Some <==> width > 0 && height > 0,
            run is Some ==> {
                &&& run->0.input_path() == self.input_path()
                &&& run->0.output_path() == self.output_path()
                &&& run->0.box_width() == width
                &&& run->0.box_height() == height
            },
    {
        proof {
            use_type_invariant(&self);
        }
        if width > 0 && height > 0 {
            Some(Run { input: self.input, output: self.output, width, height })
        } else {
            None
        }
    }

    /// The input directory.
    pub fn input(&self) -> (input: &Vec<u8>)
        ensures
            input@ == self.input_path(),
    {
        &self.input
    }

    /// The output directory. It is not the input directory, nor inside it.
    pub fn output(&self) -> (output: &Vec<u8>)
        ensures
            output@ == self.output_path(),
            !is_within(output@, self.input_path()),
    {
        proof {
            use_type_invariant(self);
        }
        &self.output
    }

    /// The width of the box.
    pub fn width(&self) -> (width: usize)
        ensures
            width == self.box_width(),
            width > 0,
    {
        proof {
            use_type_invariant(self);
        }
        self.width
    }

    /// The height of the box.
    pub fn height(&self) -> (height: usize)
        ensures
            height == self.box_height(),
            height > 0,
    {
        proof {
            use_type_invariant(self);
        }
        self.height
    }

    /// Where the document goes: `data.json` in the output directory.
    pub fn document_path(&self) -> (path: Vec<u8>)
        ensures
            path@ == joined(self.output_path(), document_name()),
    {
        let name: Vec<u8> = vec![100u8, 97u8, 116u8, 97u8, 46u8, 106u8, 115u8, 111u8, 110u8];
        assert(name@ =~= document_name());
        join(&self.output, &name)
    }
}

/// What kind of thing the traversal found.
#[derive(Clone, Copy, Debug, PartialEq, Eq, Structural)]
pub enum FileType {
    File,
    Directory,
    Symlink,
    Other,
}

/// One entry of the traversal.
#[derive(Debug, PartialEq, Eq)]
pub enum DirectoryEntry {
    /// Something stands at `path`.
    Found { path: Vec<u8>, file_type: FileType },
    /// The traversal could not read an entry; `detail` is what it said.
    Unreadable { detail: String },
}

/// A [`DirectoryEntry`] as a mathematical value.
pub ghost enum DirectoryEntryView {
    Found { path: Seq<u8>, file_type: FileType },
    Unreadable { detail: Seq<char> },
}

impl DirectoryEntryView {
    /// Whether the entry is a regular file.
    pub open spec fn is_file(self) -> bool {
        self matches DirectoryEntryView::Found { file_type, .. } && file_type == FileType::File
    }
}

impl View for DirectoryEntry {
    type V = DirectoryEntryView;

    open spec fn view(&self) -> DirectoryEntryView {
        match self {
            DirectoryEntry::Found { path, file_type } => DirectoryEntryView::Found {
                path: path@,
                file_type: *file_type,
            },
            DirectoryEntry::Unreadable { detail } => DirectoryEntryView::Unreadable {
                detail: detail@,
            },
        }
    }
}

impl DirectoryEntry {
    /// Whether the entry is a regular file. Only such entries are
    /// processed; an entry that could not be read is none.
    pub fn is_file(&self) -> (eligible: bool)
        ensures
            eligible == self@.is_file(),
    {
        match self {
            DirectoryEntry::Found { file_type, .. } => match file_type {
                FileType::File => true,
                _ => false,
            },
            DirectoryEntry::Unreadable { .. } => false,
        }
    }
}

/// Where one entry stands on its way to the document.
#[derive(Debug, PartialEq, Eq)]
pub enum FileState {
    /// A regular file; its metadata is wanted.
    Classified { path: Vec<u8> },
    /// A file with coordinates and a thumbnail name; its image is wanted.
    Coordinates { info: MediaInfo },
    /// The image is loaded and fitted; the destination is to be probed.
    ImageLoaded { info: MediaInfo },
    /// The destination is free; the thumbnail is to be written.
    DestinationFree { info: MediaInfo },
    /// The end for what is no regular file. Nothing is logged.
    Excluded,
    /// The end for an entry that the traversal could not read.
    Unreadable { detail: String },
    /// The end for a file that is left out, with the reason.
    Skipped(EMError),
    /// The end for a file whose thumbnail is written: it goes into the
    /// document.
    RecordEmitted(MediaInfo),
}

/// A [`FileState`] as a mathematical value.
pub ghost enum FileStateView {
    Classified { path: Seq<u8> },
    Coordinates { info: MediaRecord },
    ImageLoaded { info: MediaRecord },
    DestinationFree { info: MediaRecord },
    Excluded,
    Unreadable { detail: Seq<char> },
    Skipped(EMErrorView),
    RecordEmitted(MediaRecord),
}

impl View for FileState {
    type V = FileStateView;

    open spec fn view(&self) -> FileStateView {
        match self {
            FileState::Classified { path } => FileStateView::Classified { path: path@ },
            FileState::Coordinates { info } => FileStateView::Coordinates { info: info@ },
            FileState::ImageLoaded { info } => FileStateView::ImageLoaded { info: info@ },
            FileState::DestinationFree { info } => FileStateView::DestinationFree { info: info@ },
            FileState::Excluded => FileStateView::Excluded,
            FileState::Unreadable { detail } => FileStateView::Unreadable { detail: detail@ },
            FileState::Skipped(error) => FileStateView::Skipped(error@),
            FileState::RecordEmitted(info) => FileStateView::RecordEmitted(info@),
        }
    }
}

/// What the caller reports.
#[derive(Debug, PartialEq, Eq)]
pub enum Event {
    /// What the metadata reader said of the file.
    Metadata(Reading),
    /// What the work on the thumbnail came to.
    Thumbnail(ThumbnailProgress),
}

/// An [`Event`] as a mathematical value.
pub ghost enum EventView {
    Metadata(Result<Option<GpsInfo>, Seq<char>>),
    Thumbnail(ThumbnailProgressView),
}

impl View for Event {
    type V = EventView;

    open spec fn view(&self) -> EventView {
        match self {
            Event::Metadata(reading) => EventView::Metadata(reading_view(*reading)),
            Event::Thumbnail(progress) => EventView::Thumbnail(progress@),
        }
    }
}

/// What the caller is to do.
#[derive(Debug, PartialEq, Eq)]
pub enum Action {
    /// Read the metadata of the file at `path` and report the reading.
    ReadMetadata { path: Vec<u8> },
    /// Do this work on the thumbnail and report what it came to.
    Thumbnail(ThumbnailWork),
    /// Nothing: the entry is at its end.
    Stop,
}

/// An [`Action`] as a mathematical value.
pub ghost enum ActionView {
    ReadMetadata { path: Seq<u8> },
    Thumbnail(ThumbnailWorkView),
    Stop,
}

impl View for Action {
    type V = ActionView;

    open spec fn view(&self) -> ActionView {
        match self {
            Action::ReadMetadata { path } => ActionView::ReadMetadata { path: path@ },
            Action::Thumbnail(work) => ActionView::Thumbnail(work@),
            Action::Stop => ActionView::Stop,
        }
    }
}

impl FileStateView {
    /// The state of an entry that was just found: a regular file is taken
    /// up, everything else is at its end.
    pub open spec fn discovered(entry: DirectoryEntryView) -> FileStateView {
        match entry {
            DirectoryEntryView::Found { path, file_type } => if file_type == FileType::File {
                FileStateView::Classified { path }
            } else {
                FileStateView::Excluded
            },
            DirectoryEntryView::Unreadable { detail } => FileStateView::Unreadable { detail },
        }
    }

    /// The record whose thumbnail is being made, and how far the outside
    /// work on it has come.
    pub open spec fn thumbnail_in_work(self) -> Option<(MediaRecord, ThumbnailProgressView)> {
        match self {
            FileStateView::Coordinates { info } => Some((info, ThumbnailProgressView::Start)),
            FileStateView::ImageLoaded { info } => Some((info, ThumbnailProgressView::Loaded)),
            FileStateView::DestinationFree { info } => Some((info, ThumbnailProgressView::Free)),
            _ => None,
        }
    }

    /// Whether the entry is at its end.
    pub open spec fn is_final(self) -> bool {
        match self {
            FileStateView::Excluded => true,
            FileStateView::Unreadable { .. } => true,
            FileStateView::Skipped(_) => true,
            FileStateView::RecordEmitted(_) => true,
            _ => false,
        }
    }

    /// What this state waits for, in a run to `directory` with a box of
    /// `width` by `height`.
    pub open spec fn pending(self, directory: Seq<u8>, width: usize, height: usize) -> ActionView {
        match self {
            FileStateView::Classified { path } => ActionView::ReadMetadata { path },
            _ => match self.thumbnail_in_work() {
                Some((info, progress)) => match thumbnail_step(
                    info,
                    directory,
                    width,
                    height,
                    progress,
                ) {
                    ThumbnailStepView::Work(work) => ActionView::Thumbnail(work),
                    _ => ActionView::Stop,
                },
                None => ActionView::Stop,
            },
        }
    }

    /// The state after `event`. An event that does not answer what the
    /// state waits for changes nothing.
    pub open spec fn advanced(
        self,
        event: EventView,
        directory: Seq<u8>,
        width: usize,
        height: usize,
    ) -> FileStateView {
        match (self, event) {
            (FileStateView::Classified { path }, EventView::Metadata(reading)) => match extracted(
                path,
                reading,
            ) {
                Ok(info) => FileStateView::Coordinates { info },
                Err(error) => FileStateView::Skipped(error),
            },
            (_, EventView::Thumbnail(reported)) => match self.thumbnail_in_work() {
                Some((info, asked)) => if answers(asked, reported) {
                    match thumbnail_step(info, directory, width, height, reported) {
                        ThumbnailStepView::Work(_) => match reported {
                            ThumbnailProgressView::Loaded => FileStateView::ImageLoaded { info },
                            _ => FileStateView::DestinationFree { info },
                        },
                        ThumbnailStepView::Done => FileStateView::RecordEmitted(info),
                        ThumbnailStepView::Failed(error) => FileStateView::Skipped(error),
                    }
                } else {
                    self
                },
                None => self,
            },
            _ => self,
        }
    }

    /// How loudly the end of the entry is logged, if at all.
    pub open spec fn log_severity(self) -> Option<Severity> {
        match self {
            FileStateView::Unreadable { .. } => Some(Severity::Error),
            FileStateView::Skipped(error) => Some(error.severity()),
            _ => None,
        }
    }
}

/// Whether `reported` is a result of the work that is pending when the
/// thumbnail stands at `asked`.
pub open spec fn answers(asked: ThumbnailProgressView, reported: ThumbnailProgressView) -> bool {
    match asked {
        ThumbnailProgressView::Start => reported is Loaded || reported is LoadFailed,
        ThumbnailProgressView::Loaded => reported is Free || reported is Taken,
        ThumbnailProgressView::Free => reported is Written || reported is WriteFailed,
        _ => false,
    }
}

impl FileState {
    /// The state of an entry that was just found.
    pub fn discover(entry: DirectoryEntry) -> (state: FileState)
        ensures
            state@ == FileStateView::discovered(entry@),
    {
        match entry {
            DirectoryEntry::Found { path, file_type } => match file_type {
                FileType::File => FileState::Classified { path },
                _ => FileState::Excluded,
            },
            DirectoryEntry::Unreadable { detail } => FileState::Unreadable { detail },
        }
    }

    /// Whether the entry is at its end.
    pub fn is_final(&self) -> (done: bool)
        ensures
            done == self@.is_final(),
    {
        match self {
            FileState::Excluded => true,
            FileState::Unreadable { .. } => true,
            FileState::Skipped(_) => true,
            FileState::RecordEmitted(_) => true,
            _ => false,
        }
    }

    /// What the caller is to do next for this entry.
    pub fn pending(&self, run: &Run) -> (action: Action)
        ensures
            action@ == self@.pending(run.output_path(), run.box_width(), run.box_height()),
    {
        let step = match self {
            FileState::Classified { path } => {
                return Action::ReadMetadata { path: copy(path) };
            },
            FileState::Coordinates { info } => info.generate_thumbnail(
                run.output(),
                run.width(),
                run.height(),
                &ThumbnailProgress::Start,
            ),
            FileState::ImageLoaded { info } => info.generate_thumbnail(
                run.output(),
                run.width(),
                run.height(),
                &ThumbnailProgress::Loaded,
            ),
            FileState::DestinationFree { info } => info.generate_thumbnail(
                run.output(),
                run.width(),
                run.height(),
                &ThumbnailProgress::Free,
            ),
            _ => {
                return Action::Stop;
            },
        };
        match step {
            ThumbnailStep::Work(work) => Action::Thumbnail(work),
            _ => Action::Stop,
        }
    }

    /// The state after the caller has reported `event`.
    pub fn advance(self, event: Event, run: &Run) -> (state: FileState)
        ensures
            state@ == self@.advanced(
                event@,
                run.output_path(),
                run.box_width(),
                run.box_height(),
            ),
    {
        match (self, event) {
            (FileState::Classified { path }, Event::Metadata(reading)) => {
                match MediaInfo::from_path(path, reading) {
                    Ok(info) => FileState::Coordinates { info },
                    Err(error) => FileState::Skipped(error),
                }
            },
            (FileState::Coordinates { info }, Event::Thumbnail(reported)) => match reported {
                ThumbnailProgress::Loaded => FileState::ImageLoaded { info },
                ThumbnailProgress::LoadFailed { .. } => FileState::settle(info, reported, run),
                _ => FileState::Coordinates { info },
            },
            (FileState::ImageLoaded { info }, Event::Thumbnail(reported)) => match reported {
                ThumbnailProgress::Free => FileState::DestinationFree { info },
                ThumbnailProgress::Taken => FileState::settle(info, reported, run),
                _ => FileState::ImageLoaded { info },
            },
            (FileState::DestinationFree { info }, Event::Thumbnail(reported)) => match reported {
                ThumbnailProgress::Written => FileState::RecordEmitted(info),
                ThumbnailProgress::WriteFailed { .. } => FileState::settle(info, reported, run),
                _ => FileState::DestinationFree { info },
            },
            (state, _) => state,
        }
    }

    /// The end of a file whose thumbnail failed at `reported`.
    fn settle(info: MediaInfo, reported: ThumbnailProgress, run: &Run) -> (state: FileState)
        requires
            reported is LoadFailed || reported is Taken || reported is WriteFailed,
        ensures
            thumbnail_step(
                info@,
                run.output_path(),
                run.box_width(),
                run.box_height(),
                reported@,
            ) matches ThumbnailStepView::Failed(error) && state@ == FileStateView::Skipped(error),
    {
        match info.generate_thumbnail(run.output(), run.width(), run.height(), &reported) {
            ThumbnailStep::Failed(error) => FileState::Skipped(error),
            _ => FileState::Excluded,
        }
    }

    /// How loudly the end of the entry is logged, if at all.
    pub fn log_severity(&self) -> (severity: Option<Severity>)
        ensures
            severity == self@.log_severity(),
    {
        match self {
            FileState::Unreadable { .. } => Some(Severity::Error),
            FileState::Skipped(error) => Some(error.severity()),
            _ => None,
        }
    }
}

/// The points of the document: one for each entry that ended with a record
/// whose path is text, in the order of the entries.
pub open spec fn features_of(states: Seq<FileStateView>) -> Seq<PointView>
    decreases states.len(),
{
    if states.len() == 0 {
        seq![]
    } else {
        features_of(states.drop_last()) + feature_at_end(states.last())
    }
}

/// What the entry that ended in `state` adds to the document.
pub open spec fn feature_at_end(state: FileStateView) -> Seq<PointView> {
    match state {
        FileStateView::RecordEmitted(info) => match feature_of(info) {
            Ok(point) => seq![point],
            Err(_) => seq![],
        },
        _ => seq![],
    }
}

/// The states of a run as mathematical values.
pub open spec fn states_view(states: Seq<FileState>) -> Seq<FileStateView> {
    states.map_values(|state: FileState| state@)
}

/// The points of a document as mathematical values.
pub open spec fn points_view(points: Seq<PointFeature>) -> Seq<PointView> {
    points.map_values(|point: PointFeature| point@)
}

/// The points of the document of a run in which the entries ended in
/// `states`.
pub fn features(states: &Vec<FileState>) -> (points: Vec<PointFeature>)
    ensures
        points_view(points@) == features_of(states_view(states@)),
{
    let mut points: Vec<PointFeature> = Vec::new();
    let mut i: usize = 0;
    assert(states_view(states@).subrange(0, 0) =~= Seq::empty());
    assert(points_view(points@) =~= Seq::empty());
    while i < states.len()
        invariant
            i <= states.len(),
            points_view(points@) == features_of(states_view(states@).subrange(0, i as int)),
        decreases states.len() - i,
    {
        let ghost before = points_view(points@);
        let ghost all = states_view(states@);
        assert(all.subrange(0, i + 1).drop_last() =~= all.subrange(0, i as int));
        assert(all.subrange(0, i + 1).last() == states@[i as int]@);
        match &states[i] {
            FileState::RecordEmitted(info) => match info.to_feature() {
                Ok(point) => {
                    points.push(point);
                    assert(points_view(points@) =~= before + seq![point@]);
                },
                Err(_) => {
                    assert(points_view(points@) =~= before + Seq::empty());
                },
            },
            _ => {
                assert(points_view(points@) =~= before + Seq::empty());
            },
        }
        i = i + 1;
    }
    assert(states_view(states@).subrange(0, i as int) =~= states_view(states@));
    points
}

} // verus!
