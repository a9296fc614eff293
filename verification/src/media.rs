//! One media file: where it was taken, what its thumbnail is called, how
//! the thumbnail is made, and what it adds to the document.

use crate::error::{EMError, EMErrorView};
use crate::json::{insert_text, member_names, new_object, text_members};
use crate::paths::{
    copy_range, extension, extension_of, file_stem, file_stem_of, is_within, join, joined,
    lemma_stem_and_extension, SEPARATOR,
};
use crate::text::{
    lemma_encode_concat, lemma_marker_bytes, marker, text_of, thumb_marker, thumb_marker_bytes,
    to_text,
};
use vstd::prelude::*;
use vstd::string::*;
use vstd::utf8::*;

verus! {

/// All bits of a binary64 number but its sign.
pub const MAGNITUDE_MASK: u64 = 0x7fff_ffff_ffff_ffff;

/// The binary64 number 90.
pub const QUARTER_TURN: u64 = 0x4056_8000_0000_0000;

/// The binary64 number 180.
pub const HALF_TURN: u64 = 0x4066_8000_0000_0000;

/// A binary64 number without its sign. Among numbers that are not NaN, a
/// larger magnitude has the larger bit pattern; every NaN lies above
/// infinity.
pub open spec fn magnitude(bits: u64) -> u64 {
    bits & MAGNITUDE_MASK
}

/// A geolocation as the metadata reader gave it. Each field is the bit
/// pattern of a binary64 number, in degrees and metres, and is carried to
/// the document bit for bit.
#[derive(Clone, Copy, Debug, PartialEq, Eq, Structural)]
pub struct GpsInfo {
    pub longitude: u64,
    pub latitude: u64,
    pub altitude: u64,
}

impl GpsInfo {
    /// Whether the latitude lies in [-90, 90] and the longitude in
    /// [-180, 180].
    pub open spec fn in_range(self) -> bool {
        magnitude(self.latitude) <= QUARTER_TURN && magnitude(self.longitude) <= HALF_TURN
    }

    /// Whether the coordinates lie on the globe.
    pub fn is_in_range(&self) -> (valid: bool)
        ensures
            valid == self.in_range(),
    {
        (self.latitude & MAGNITUDE_MASK) <= QUARTER_TURN && (self.longitude & MAGNITUDE_MASK)
            <= HALF_TURN
    }
}

/// What the metadata reader said of a file: its geolocation, that it has
/// none, or why it could not be read.
pub type Reading = Result<Option<GpsInfo>, String>;

/// A [`Reading`] as a mathematical value.
pub open spec fn reading_view(reading: Reading) -> Result<Option<GpsInfo>, Seq<char>> {
    match reading {
        Ok(found) => Ok(found),
        Err(detail) => Err(detail@),
    }
}

/// A file with a geolocation and a name for its thumbnail.
#[derive(Debug, PartialEq, Eq)]
pub struct MediaInfo {
    /// The path of the file, as it was found.
    pub path: Vec<u8>,
    /// The name of the thumbnail, without a directory.
    pub thumbnail_filename: String,
    /// Where the file was taken.
    pub gpsinfo: GpsInfo,
}

/// A [`MediaInfo`] as a mathematical value.
pub ghost struct MediaRecord {
    pub path: Seq<u8>,
    pub thumbnail_filename: Seq<char>,
    pub gpsinfo: GpsInfo,
}

impl View for MediaInfo {
    type V = MediaRecord;

    open spec fn view(&self) -> MediaRecord {
        MediaRecord {
            path: self.path@,
            thumbnail_filename: self.thumbnail_filename@,
            gpsinfo: self.gpsinfo,
        }
    }
}

/// A point of the document: a position and the properties of the file that
/// was taken there.
#[derive(Debug, PartialEq)]
pub struct PointFeature {
    /// Longitude, then latitude, as binary64 bit patterns.
    pub coordinates: Vec<u64>,
    /// The properties, as a JSON object.
    pub properties: serde_json::Map<String, serde_json::Value>,
}

/// A [`PointFeature`] as a mathematical value.
pub ghost struct PointView {
    pub coordinates: Seq<u64>,
    /// The names of all properties.
    pub names: Set<Seq<char>>,
    /// The properties that are strings.
    pub texts: Map<Seq<char>, Seq<char>>,
}

impl View for PointFeature {
    type V = PointView;

    open spec fn view(&self) -> PointView {
        PointView {
            coordinates: self.coordinates@,
            names: member_names(self.properties),
            texts: text_members(self.properties),
        }
    }
}

/// What the outside work on one thumbnail has come to so far.
#[derive(Debug, PartialEq, Eq)]
pub enum ThumbnailProgress {
    /// Nothing has been done.
    Start,
    /// The image is loaded and fitted into the box.
    Loaded,
    /// The image could not be loaded.
    LoadFailed { detail: String },
    /// Nothing stands at the destination.
    Free,
    /// A file stands at the destination.
    Taken,
    /// The thumbnail is written.
    Written,
    /// The thumbnail could not be written.
    WriteFailed { detail: String },
}

/// A [`ThumbnailProgress`] as a mathematical value.
pub ghost enum ThumbnailProgressView {
    Start,
    Loaded,
    LoadFailed { detail: Seq<char> },
    Free,
    Taken,
    Written,
    WriteFailed { detail: Seq<char> },
}

impl View for ThumbnailProgress {
    type V = ThumbnailProgressView;

    open spec fn view(&self) -> ThumbnailProgressView {
        match self {
            ThumbnailProgress::Start => ThumbnailProgressView::Start,
            ThumbnailProgress::Loaded => ThumbnailProgressView::Loaded,
            ThumbnailProgress::LoadFailed { detail } => ThumbnailProgressView::LoadFailed {
                detail: detail@,
            },
            ThumbnailProgress::Free => ThumbnailProgressView::Free,
            ThumbnailProgress::Taken => ThumbnailProgressView::Taken,
            ThumbnailProgress::Written => ThumbnailProgressView::Written,
            ThumbnailProgress::WriteFailed { detail } => ThumbnailProgressView::WriteFailed {
                detail: detail@,
            },
        }
    }
}

/// Outside work on a thumbnail.
#[derive(Debug, PartialEq, Eq)]
pub enum ThumbnailWork {
    /// Load the image at `source` and fit it into a box of `width` by
    /// `height`, keeping its proportions.
    Load { source: Vec<u8>, width: usize, height: usize },
    /// Find out whether a file stands at `destination`.
    Probe { destination: Vec<u8> },
    /// Write the fitted image to `destination`.
    Write { destination: Vec<u8> },
}

/// A [`ThumbnailWork`] as a mathematical value.
pub ghost enum ThumbnailWorkView {
    Load { source: Seq<u8>, width: usize, height: usize },
    Probe { destination: Seq<u8> },
    Write { destination: Seq<u8> },
}

impl View for ThumbnailWork {
    type V = ThumbnailWorkView;

    open spec fn view(&self) -> ThumbnailWorkView {
        match self {
            ThumbnailWork::Load { source, width, height } => ThumbnailWorkView::Load {
                source: source@,
                width: *width,
                height: *height,
            },
            ThumbnailWork::Probe { destination } => ThumbnailWorkView::Probe {
                destination: destination@,
            },
            ThumbnailWork::Write { destination } => ThumbnailWorkView::Write {
                destination: destination@,
            },
        }
    }
}

/// What comes next for a thumbnail.
#[derive(Debug, PartialEq, Eq)]
pub enum ThumbnailStep {
    /// This work is to be done, and its result reported.
    Work(ThumbnailWork),
    /// The thumbnail stands in the output directory.
    Done,
    /// There will be no thumbnail.
    Failed(EMError),
}

/// A [`ThumbnailStep`] as a mathematical value.
pub ghost enum ThumbnailStepView {
    Work(ThumbnailWorkView),
    Done,
    Failed(EMErrorView),
}

impl View for ThumbnailStep {
    type V = ThumbnailStepView;

    open spec fn view(&self) -> ThumbnailStepView {
        match self {
            ThumbnailStep::Work(work) => ThumbnailStepView::Work(work@),
            ThumbnailStep::Done => ThumbnailStepView::Done,
            ThumbnailStep::Failed(error) => ThumbnailStepView::Failed(error@),
        }
    }
}

/// The name of the thumbnail of the file at `path`: stem, marker and
/// extension in a row. There is none where the path has no stem or no
/// extension, or where one of them is not text.
pub open spec fn thumbnail_filename_of(path: Seq<u8>) -> Result<Seq<char>, EMErrorView> {
    match file_stem_of(path) {
        None => Err(EMErrorView::NoFileStem { filename: path }),
        Some(stem) => match text_of(stem) {
            None => Err(EMErrorView::NoLosslessProcessingPossible { filename: path }),
            Some(stem_text) => match extension_of(path) {
                None => Err(EMErrorView::NoFileExtension { filename: path }),
                Some(extension) => match text_of(extension) {
                    None => Err(EMErrorView::NoLosslessProcessingPossible { filename: path }),
                    Some(extension_text) => Ok(stem_text + thumb_marker() + extension_text),
                },
            },
        },
    }
}

/// The record of the file at `path`, taken at `gpsinfo`.
pub open spec fn record_of(path: Seq<u8>, gpsinfo: GpsInfo) -> Result<MediaRecord, EMErrorView> {
    match thumbnail_filename_of(path) {
        Ok(name) => Ok(MediaRecord { path, thumbnail_filename: name, gpsinfo }),
        Err(error) => Err(error),
    }
}

/// What becomes of the file at `path` once its metadata has been read.
pub open spec fn extracted(path: Seq<u8>, reading: Result<Option<GpsInfo>, Seq<char>>) -> Result<
    MediaRecord,
    EMErrorView,
> {
    match reading {
        Err(detail) => Err(EMErrorView::MetadataUnreadable { filename: path, detail }),
        Ok(None) => Err(EMErrorView::NoGPSInformation { filename: path }),
        Ok(Some(gpsinfo)) => record_of(path, gpsinfo),
    }
}

/// A record or an error as a mathematical value.
pub open spec fn outcome_view(outcome: Result<MediaInfo, EMError>) -> Result<
    MediaRecord,
    EMErrorView,
> {
    match outcome {
        Ok(info) => Ok(info@),
        Err(error) => Err(error@),
    }
}

/// Where the thumbnail of `record` goes in `directory`.
pub open spec fn destination_of(record: MediaRecord, directory: Seq<u8>) -> Seq<u8> {
    joined(directory, encode_utf8(record.thumbnail_filename))
}

/// What comes next for the thumbnail of `record`. The image is loaded
/// first; the destination is probed only for an image that loaded; and
/// nothing is written but to a destination that was found free.
pub open spec fn thumbnail_step(
    record: MediaRecord,
    directory: Seq<u8>,
    width: usize,
    height: usize,
    progress: ThumbnailProgressView,
) -> ThumbnailStepView {
    let destination = destination_of(record, directory);
    match progress {
        ThumbnailProgressView::Start => ThumbnailStepView::Work(
            ThumbnailWorkView::Load { source: record.path, width, height },
        ),
        ThumbnailProgressView::LoadFailed { detail } => ThumbnailStepView::Failed(
            EMErrorView::ImageUnreadable { filename: record.path, detail },
        ),
        ThumbnailProgressView::Loaded => ThumbnailStepView::Work(
            ThumbnailWorkView::Probe { destination },
        ),
        ThumbnailProgressView::Taken => ThumbnailStepView::Failed(
            EMErrorView::ThumbnailExists { destination },
        ),
        ThumbnailProgressView::Free => ThumbnailStepView::Work(
            ThumbnailWorkView::Write { destination },
        ),
        ThumbnailProgressView::WriteFailed { detail } => ThumbnailStepView::Failed(
            EMErrorView::ThumbnailUnwritable { destination, detail },
        ),
        ThumbnailProgressView::Written => ThumbnailStepView::Done,
    }
}

/// The name of the property that holds the path of the file.
pub open spec fn filename_key() -> Seq<char> {
    "filename"@
}

/// The name of the property that holds the name of the thumbnail.
pub open spec fn thumbnail_key() -> Seq<char> {
    "thumbnail_filename"@
}

/// The point that `record` adds to the document: longitude before
/// latitude, and the path and the thumbnail's name as its two properties.
/// There is none where the path is not text.
pub open spec fn feature_of(record: MediaRecord) -> Result<PointView, EMErrorView> {
    match text_of(record.path) {
        None => Err(EMErrorView::NoLosslessProcessingPossible { filename: record.path }),
        Some(filename) => Ok(
            PointView {
                coordinates: seq![record.gpsinfo.longitude, record.gpsinfo.latitude],
                names: set![filename_key(), thumbnail_key()],
                texts: map![
                    filename_key() => filename,
                    thumbnail_key() => record.thumbnail_filename,
                ],
            },
        ),
    }
}

/// The bytes of a thumbnail's name are the stem of the source, the marker
/// and the extension of the source in a row. The name is not empty and
/// holds no separator: it names a file in the directory it is joined to.
pub proof fn lemma_thumbnail_name(path: Seq<u8>)
    requires
        thumbnail_filename_of(path) is Ok,
    ensures
        file_stem_of(path) is Some,
        extension_of(path) is Some,
        encode_utf8(thumbnail_filename_of(path)->Ok_0) == file_stem_of(path)->0
            + thumb_marker_bytes() + extension_of(path)->0,
        encode_utf8(thumbnail_filename_of(path)->Ok_0).len() > 0,
        forall|j: int|
            0 <= j < encode_utf8(thumbnail_filename_of(path)->Ok_0).len() ==> encode_utf8(
                thumbnail_filename_of(path)->Ok_0,
            )[j] != SEPARATOR,
{
    let stem = file_stem_of(path)->0;
    let extension = extension_of(path)->0;
    let front = decode_utf8(stem) + thumb_marker();
    lemma_stem_and_extension(path);
    lemma_encode_concat(front, decode_utf8(extension));
    lemma_encode_concat(decode_utf8(stem), thumb_marker());
    lemma_marker_bytes();
    decode_utf8_encode_utf8(stem);
    decode_utf8_encode_utf8(extension);
}

/// A thumbnail goes into the directory itself: its destination is the
/// directory, a separator where the directory does not end in one, and the
/// name.
pub proof fn lemma_destination(path: Seq<u8>, gpsinfo: GpsInfo, directory: Seq<u8>)
    requires
        record_of(path, gpsinfo) is Ok,
    ensures
        ({
            let record = record_of(path, gpsinfo)->Ok_0;
            let name = encode_utf8(record.thumbnail_filename);
            let destination = destination_of(record, directory);
            &&& destination == directory + name || destination == directory + seq![SEPARATOR]
                + name
            &&& is_within(destination, directory)
            &&& destination != directory
        }),
{
    lemma_thumbnail_name(path);
    let record = record_of(path, gpsinfo)->Ok_0;
    let name = encode_utf8(record.thumbnail_filename);
    let destination = destination_of(record, directory);
    assert(name[0] != SEPARATOR);
    if directory.len() > 0 && directory.last() != SEPARATOR {
        assert(destination =~= directory + (seq![SEPARATOR] + name));
        assert(destination[directory.len() as int] == SEPARATOR);
    }
    assert(directory.is_prefix_of(destination));
}

/// A copy of `bytes`.
pub(crate) fn copy(bytes: &Vec<u8>) -> (same: Vec<u8>)
    ensures
        same@ == bytes@,
{
    let same = copy_range(bytes, 0, bytes.len());
    assert(same@ =~= bytes@);
    same
}

impl MediaInfo {
    /// The record of the file at `path`, taken at `gpsinfo`. It is refused
    /// where no thumbnail name can be derived from the path.
    pub fn new(path: Vec<u8>, gpsinfo: GpsInfo) -> (outcome: Result<MediaInfo, EMError>)
        ensures
            outcome_view(outcome) == record_of(path@, gpsinfo),
    {
        match MediaInfo::generate_thumbnail_filename(&path) {
            Ok(thumbnail_filename) => Ok(MediaInfo { path, thumbnail_filename, gpsinfo }),
            Err(error) => Err(error),
        }
    }

    /// What becomes of the file at `path` once the metadata reader has said
    /// `reading` of it: a record where it found a geolocation and a
    /// thumbnail name can be derived, else the reason why not.
    pub fn from_path(path: Vec<u8>, reading: Reading) -> (outcome: Result<MediaInfo, EMError>)
        ensures
            outcome_view(outcome) == extracted(path@, reading_view(reading)),
    {
        match reading {
            Err(detail) => Err(EMError::MetadataUnreadable { filename: path, detail }),
            Ok(None) => Err(EMError::NoGPSInformation { filename: path }),
            Ok(Some(gpsinfo)) => MediaInfo::new(path, gpsinfo),
        }
    }

    /// The point that this record adds to the document.
    pub fn to_feature(&self) -> (feature: Result<PointFeature, EMError>)
        ensures
            match feature {
                Ok(point) => feature_of(self@) == Ok::<PointView, EMErrorView>(point@),
                Err(error) => feature_of(self@) == Err::<PointView, EMErrorView>(error@),
            },
    {
        match to_text(copy(&self.path)) {
            None => Err(EMError::NoLosslessProcessingPossible { filename: copy(&self.path) }),
            Some(filename) => {
                let mut properties = new_object();
                insert_text(&mut properties, String::from_str("filename"), filename);
                insert_text(
                    &mut properties,
                    String::from_str("thumbnail_filename"),
                    self.thumbnail_filename.clone(),
                );
                let mut coordinates: Vec<u64> = Vec::new();
                coordinates.push(self.gpsinfo.longitude);
                coordinates.push(self.gpsinfo.latitude);
                let point = PointFeature { coordinates, properties };
                proof {
                    let wanted = feature_of(self@)->Ok_0;
                    assert(point@.coordinates =~= wanted.coordinates);
                    assert(point@.names =~= wanted.names);
                    assert(point@.texts =~= wanted.texts);
                }
                Ok(point)
            },
        }
    }

    /// What comes next for the thumbnail of this record in
    /// `target_directory`, in a box of `width` by `height`, after the outside
    /// work has come to `progress`.
    pub fn generate_thumbnail(
        &self,
        target_directory: &Vec<u8>,
        width: usize,
        height: usize,
        progress: &ThumbnailProgress,
    ) -> (step: ThumbnailStep)
        ensures
            step@ == thumbnail_step(self@, target_directory@, width, height, progress@),
    {
        match progress {
            ThumbnailProgress::Start => ThumbnailStep::Work(
                ThumbnailWork::Load { source: copy(&self.path), width, height },
            ),
            ThumbnailProgress::LoadFailed { detail } => ThumbnailStep::Failed(
                EMError::ImageUnreadable { filename: copy(&self.path), detail: detail.clone() },
            ),
            ThumbnailProgress::Loaded => ThumbnailStep::Work(
                ThumbnailWork::Probe { destination: self.destination(target_directory) },
            ),
            ThumbnailProgress::Taken => ThumbnailStep::Failed(
                EMError::ThumbnailExists { destination: self.destination(target_directory) },
            ),
            ThumbnailProgress::Free => ThumbnailStep::Work(
                ThumbnailWork::Write { destination: self.destination(target_directory) },
            ),
            ThumbnailProgress::WriteFailed { detail } => ThumbnailStep::Failed(
                EMError::ThumbnailUnwritable {
                    destination: self.destination(target_directory),
                    detail: detail.clone(),
                },
            ),
            ThumbnailProgress::Written => ThumbnailStep::Done,
        }
    }

    /// Where the thumbnail of this record goes in `target_directory`.
    pub fn destination(&self, target_directory: &Vec<u8>) -> (destination: Vec<u8>)
        ensures
            destination@ == destination_of(self@, target_directory@),
    {
        let name = self.thumbnail_filename.as_str().as_bytes_vec();
        join(target_directory, &name)
    }

    /// The name of the thumbnail of the file at `path`.
    pub fn generate_thumbnail_filename(path: &Vec<u8>) -> (name: Result<String, EMError>)
        ensures
            match name {
                Ok(text) => thumbnail_filename_of(path@) == Ok::<Seq<char>, EMErrorView>(text@),
                Err(error) => thumbnail_filename_of(path@) == Err::<Seq<char>, EMErrorView>(
                    error@,
                ),
            },
    {
        let stem = match file_stem(path) {
            Some(stem) => stem,
            None => {
                return Err(EMError::NoFileStem { filename: copy(path) });
            },
        };
        let stem_text = match to_text(stem) {
            Some(text) => text,
            None => {
                return Err(EMError::NoLosslessProcessingPossible { filename: copy(path) });
            },
        };
        let extension = match extension(path) {
            Some(extension) => extension,
            None => {
                return Err(EMError::NoFileExtension { filename: copy(path) });
            },
        };
        let extension_text = match to_text(extension) {
            Some(text) => text,
            None => {
                return Err(EMError::NoLosslessProcessingPossible { filename: copy(path) });
            },
        };
        let marker = marker();
        Ok(stem_text.concat(marker.as_str()).concat(extension_text.as_str()))
    }
}

} // verus!
