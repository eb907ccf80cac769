//! The records that go in, the outcomes that come out, and the aggregate
//! that collects outcomes by kind.

use vstd::prelude::*;
use crate::text::{text_seq, text_set};

verus! {

/// The rules of one synchronisation pass. Never changed once a processor has
/// been built from it.
#[derive(Clone, Debug)]
pub struct Config {
    pub pan_transfer_enabled: bool,
    pub pan_transfer_paths: Vec<String>,
    pub auto_download_mediainfo: bool,
    /// Suffixes of media files: lower case, with the leading dot.
    pub rmt_mediaext_set: Vec<String>,
    /// Suffixes of metadata files: lower case, with the leading dot.
    pub download_mediaext_set: Vec<String>,
    pub strm_generate_blacklist: Vec<String>,
    pub mediainfo_download_whitelist: Vec<String>,
    pub mediainfo_download_blacklist: Vec<String>,
    /// Smallest size a media file may have; 0 switches the rule off.
    pub full_sync_min_file_size: u64,
    pub pan_media_dir: String,
}

/// What a [`Config`] says: the two suffix lists are sets, the rest is kept
/// as written.
pub struct ConfigView {
    pub pan_transfer_enabled: bool,
    pub pan_transfer_paths: Seq<Seq<char>>,
    pub auto_download_mediainfo: bool,
    pub rmt_mediaext_set: Set<Seq<char>>,
    pub download_mediaext_set: Set<Seq<char>>,
    pub strm_generate_blacklist: Seq<Seq<char>>,
    pub mediainfo_download_whitelist: Seq<Seq<char>>,
    pub mediainfo_download_blacklist: Seq<Seq<char>>,
    pub full_sync_min_file_size: u64,
    pub pan_media_dir: Seq<char>,
}

impl View for Config {
    type V = ConfigView;

    open spec fn view(&self) -> ConfigView {
        ConfigView {
            pan_transfer_enabled: self.pan_transfer_enabled,
            pan_transfer_paths: text_seq(self.pan_transfer_paths@),
            auto_download_mediainfo: self.auto_download_mediainfo,
            rmt_mediaext_set: text_set(self.rmt_mediaext_set@),
            download_mediaext_set: text_set(self.download_mediaext_set@),
            strm_generate_blacklist: text_seq(self.strm_generate_blacklist@),
            mediainfo_download_whitelist: text_seq(self.mediainfo_download_whitelist@),
            mediainfo_download_blacklist: text_seq(self.mediainfo_download_blacklist@),
            full_sync_min_file_size: self.full_sync_min_file_size,
            pan_media_dir: self.pan_media_dir@,
        }
    }
}

/// One entry of a remote listing.
#[derive(Clone, Debug)]
pub struct FileInput {
    pub name: String,
    pub path: String,
    pub is_dir: bool,
    pub size: Option<u64>,
    pub pickcode: Option<String>,
    pub sha1: Option<String>,
}

pub struct FileInputView {
    pub name: Seq<char>,
    pub path: Seq<char>,
    pub is_dir: bool,
    pub size: Option<u64>,
    pub pickcode: Option<Seq<char>>,
    pub sha1: Option<Seq<char>>,
}

/// The view of an optional text.
pub open spec fn option_text(text: Option<String>) -> Option<Seq<char>> {
    match text {
        Some(t) => Some(t@),
        None => None,
    }
}

impl View for FileInput {
    type V = FileInputView;

    open spec fn view(&self) -> FileInputView {
        FileInputView {
            name: self.name@,
            path: self.path@,
            is_dir: self.is_dir,
            size: self.size,
            pickcode: option_text(self.pickcode),
            sha1: option_text(self.sha1),
        }
    }
}

/// A pointer file to generate.
#[derive(Clone, Debug)]
pub struct StrmInfo {
    pub pickcode: String,
    pub original_file_name: String,
    pub path_in_pan: String,
}

pub struct StrmInfoView {
    pub pickcode: Seq<char>,
    pub original_file_name: Seq<char>,
    pub path_in_pan: Seq<char>,
}

impl View for StrmInfo {
    type V = StrmInfoView;

    open spec fn view(&self) -> StrmInfoView {
        StrmInfoView {
            pickcode: self.pickcode@,
            original_file_name: self.original_file_name@,
            path_in_pan: self.path_in_pan@,
        }
    }
}

/// A metadata file to download.
#[derive(Clone, Debug)]
pub struct DownloadInfo {
    pub pickcode: String,
    pub sha1: String,
    pub path_in_pan: String,
}

pub struct DownloadInfoView {
    pub pickcode: Seq<char>,
    pub sha1: Seq<char>,
    pub path_in_pan: Seq<char>,
}

impl View for DownloadInfo {
    type V = DownloadInfoView;

    open spec fn view(&self) -> DownloadInfoView {
        DownloadInfoView {
            pickcode: self.pickcode@,
            sha1: self.sha1@,
            path_in_pan: self.path_in_pan@,
        }
    }
}

/// A record passed over, with the reason.
#[derive(Clone, Debug)]
pub struct SkipInfo {
    pub path_in_pan: String,
    pub reason: String,
}

pub struct SkipInfoView {
    pub path_in_pan: Seq<char>,
    pub reason: Seq<char>,
}

impl View for SkipInfo {
    type V = SkipInfoView;

    open spec fn view(&self) -> SkipInfoView {
        SkipInfoView { path_in_pan: self.path_in_pan@, reason: self.reason@ }
    }
}

/// A record that should have produced a target and could not, with the
/// reason.
#[derive(Clone, Debug)]
pub struct FailInfo {
    pub path_in_pan: String,
    pub reason: String,
}

pub struct FailInfoView {
    pub path_in_pan: Seq<char>,
    pub reason: Seq<char>,
}

impl View for FailInfo {
    type V = FailInfoView;

    open spec fn view(&self) -> FailInfoView {
        FailInfoView { path_in_pan: self.path_in_pan@, reason: self.reason@ }
    }
}

/// The outcome of one record.
#[derive(Clone, Debug)]
pub enum ProcessingResult {
    Strm(StrmInfo),
    Download(DownloadInfo),
    Skip(SkipInfo),
    Fail(FailInfo),
}

pub enum ProcessingResultView {
    Strm(StrmInfoView),
    Download(DownloadInfoView),
    Skip(SkipInfoView),
    Fail(FailInfoView),
}

impl View for ProcessingResult {
    type V = ProcessingResultView;

    open spec fn view(&self) -> ProcessingResultView {
        match self {
            ProcessingResult::Strm(info) => ProcessingResultView::Strm(info@),
            ProcessingResult::Download(info) => ProcessingResultView::Download(info@),
            ProcessingResult::Skip(info) => ProcessingResultView::Skip(info@),
            ProcessingResult::Fail(info) => ProcessingResultView::Fail(info@),
        }
    }
}

/// The outcomes of a batch, one sequence per kind.
#[derive(Clone, Debug)]
pub struct PackedResult {
    pub strm_results: Vec<StrmInfo>,
    pub download_results: Vec<DownloadInfo>,
    pub skip_results: Vec<SkipInfo>,
    pub fail_results: Vec<FailInfo>,
}

pub struct PackedResultView {
    pub strm_results: Seq<StrmInfoView>,
    pub download_results: Seq<DownloadInfoView>,
    pub skip_results: Seq<SkipInfoView>,
    pub fail_results: Seq<FailInfoView>,
}

impl View for PackedResult {
    type V = PackedResultView;

    open spec fn view(&self) -> PackedResultView {
        PackedResultView {
            strm_results: self.strm_results@.map_values(|info: StrmInfo| info@),
            download_results: self.download_results@.map_values(|info: DownloadInfo| info@),
            skip_results: self.skip_results@.map_values(|info: SkipInfo| info@),
            fail_results: self.fail_results@.map_values(|info: FailInfo| info@),
        }
    }
}

} // verus!
