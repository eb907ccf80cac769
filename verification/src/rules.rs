//! The rule chain: which rule settles a record, and the outcome it gives.
//!
//! The chain is evaluated top to bottom and the first rule that fires wins.
//! [`decide`] names the rule as a [`Verdict`]; [`render`] turns the verdict
//! into the outcome handed to the caller, reason text included.

use vstd::prelude::*;
use vstd::string::*;
use crate::matcher::{keyword_hit, none_occurs, occurs_in};
use crate::text::{
    contains_text, has_prefix, is_valid_pickcode, suffix_of, text_seq, valid_pickcode,
};
use crate::types::{
    Config, ConfigView, DownloadInfo, DownloadInfoView, FailInfo, FailInfoView, FileInput,
    FileInputView, ProcessingResult, ProcessingResultView, SkipInfo, SkipInfoView, StrmInfo,
    StrmInfoView, option_text,
};

verus! {

/// What is known of a record's name once its suffix has been taken and the
/// keyword lists have been searched.
#[derive(Clone, Debug)]
pub struct NameFacts {
    /// Dot and lower-cased extension, or empty.
    pub suffix: String,
    /// Whether a metadata whitelist keyword occurs in the name.
    pub whitelist_hit: bool,
    /// The metadata blacklist keyword found in the name, if any.
    pub mediainfo_blacklist_hit: Option<String>,
    /// The pointer-file blacklist keyword found in the name, if any.
    pub strm_blacklist_hit: Option<String>,
}

/// What a [`NameFacts`] says.
pub struct NameFactsView {
    pub suffix: Seq<char>,
    pub whitelist_hit: bool,
    pub mediainfo_blacklist_hit: Option<Seq<char>>,
    pub strm_blacklist_hit: Option<Seq<char>>,
}

impl View for NameFacts {
    type V = NameFactsView;

    open spec fn view(&self) -> NameFactsView {
        NameFactsView {
            suffix: self.suffix@,
            whitelist_hit: self.whitelist_hit,
            mediainfo_blacklist_hit: option_text(self.mediainfo_blacklist_hit),
            strm_blacklist_hit: option_text(self.strm_blacklist_hit),
        }
    }
}

/// The rule that settled a record, with what the outcome needs from it.
#[derive(Clone, Debug)]
pub enum Verdict {
    /// The record is a directory.
    Directory,
    /// The path does not begin with the media directory.
    OutsideMediaDir,
    /// The path lies under a transfer directory.
    InTransferPath,
    /// A metadata file whose name holds no whitelist keyword.
    NotWhitelisted,
    /// A metadata file whose name holds this blacklist keyword.
    MediainfoBlacklisted(String),
    /// A metadata file to download, with pick code and SHA-1.
    Download(String, String),
    /// A target without pick code.
    NoPickcode,
    /// A metadata file without SHA-1.
    NoSha1,
    /// Neither a media suffix nor a metadata suffix.
    UnknownSuffix,
    /// A media file whose name holds this blacklist keyword.
    StrmBlacklisted(String),
    /// A media file below the minimum size.
    TooSmall,
    /// A media file with this ill-formed pick code.
    BadPickcode(String),
    /// A media file to point at, with its pick code.
    Strm(String),
}

/// What a [`Verdict`] says.
pub enum VerdictView {
    Directory,
    OutsideMediaDir,
    InTransferPath,
    NotWhitelisted,
    MediainfoBlacklisted(Seq<char>),
    Download(Seq<char>, Seq<char>),
    NoPickcode,
    NoSha1,
    UnknownSuffix,
    StrmBlacklisted(Seq<char>),
    TooSmall,
    BadPickcode(Seq<char>),
    Strm(Seq<char>),
}

impl View for Verdict {
    type V = VerdictView;

    open spec fn view(&self) -> VerdictView {
        match self {
            Verdict::Directory => VerdictView::Directory,
            Verdict::OutsideMediaDir => VerdictView::OutsideMediaDir,
            Verdict::InTransferPath => VerdictView::InTransferPath,
            Verdict::NotWhitelisted => VerdictView::NotWhitelisted,
            Verdict::MediainfoBlacklisted(keyword) => VerdictView::MediainfoBlacklisted(keyword@),
            Verdict::Download(pickcode, sha1) => VerdictView::Download(pickcode@, sha1@),
            Verdict::NoPickcode => VerdictView::NoPickcode,
            Verdict::NoSha1 => VerdictView::NoSha1,
            Verdict::UnknownSuffix => VerdictView::UnknownSuffix,
            Verdict::StrmBlacklisted(keyword) => VerdictView::StrmBlacklisted(keyword@),
            Verdict::TooSmall => VerdictView::TooSmall,
            Verdict::BadPickcode(pickcode) => VerdictView::BadPickcode(pickcode@),
            Verdict::Strm(pickcode) => VerdictView::Strm(pickcode@),
        }
    }
}

/// The keyword a search reports, if any.
pub open spec fn matched_keyword(keywords: Seq<Seq<char>>, name: Seq<char>) -> Option<Seq<char>> {
    match keyword_hit(keywords, name) {
        Some(i) => Some(keywords[i as int]),
        None => None,
    }
}

/// The facts of a name under a configuration.
pub open spec fn name_facts(config: ConfigView, name: Seq<char>) -> NameFactsView {
    NameFactsView {
        suffix: suffix_of(name),
        whitelist_hit: keyword_hit(config.mediainfo_download_whitelist, name) is Some,
        mediainfo_blacklist_hit: matched_keyword(config.mediainfo_download_blacklist, name),
        strm_blacklist_hit: matched_keyword(config.strm_generate_blacklist, name),
    }
}

/// Whether a path begins with a non-empty entry of the transfer paths.
pub open spec fn in_transfer_path(paths: Seq<Seq<char>>, path: Seq<char>) -> bool {
    exists|i: int| 0 <= i < paths.len() && (#[trigger] paths[i]).len() > 0 && paths[i].is_prefix_of(path)
}

/// Whether the record is handled as a metadata file.
pub open spec fn is_mediainfo(config: ConfigView, facts: NameFactsView) -> bool {
    config.auto_download_mediainfo && config.download_mediaext_set.contains(facts.suffix)
}

/// The verdict on a metadata file.
pub open spec fn mediainfo_verdict(config: ConfigView, item: FileInputView, facts: NameFactsView) -> VerdictView {
    if config.mediainfo_download_whitelist.len() > 0 && !facts.whitelist_hit {
        VerdictView::NotWhitelisted
    } else if config.mediainfo_download_blacklist.len() > 0 && facts.mediainfo_blacklist_hit is Some {
        VerdictView::MediainfoBlacklisted(facts.mediainfo_blacklist_hit->0)
    } else if item.pickcode is None {
        VerdictView::NoPickcode
    } else if item.sha1 is None {
        VerdictView::NoSha1
    } else {
        VerdictView::Download(item.pickcode->0, item.sha1->0)
    }
}

/// The verdict on a record that is no metadata file.
pub open spec fn media_verdict(config: ConfigView, item: FileInputView, facts: NameFactsView) -> VerdictView {
    if !config.rmt_mediaext_set.contains(facts.suffix) {
        VerdictView::UnknownSuffix
    } else if config.strm_generate_blacklist.len() > 0 && facts.strm_blacklist_hit is Some {
        VerdictView::StrmBlacklisted(facts.strm_blacklist_hit->0)
    } else if config.full_sync_min_file_size > 0 && item.size is Some && item.size->0
        < config.full_sync_min_file_size {
        VerdictView::TooSmall
    } else if item.pickcode is None {
        VerdictView::NoPickcode
    } else if !valid_pickcode(item.pickcode->0) {
        VerdictView::BadPickcode(item.pickcode->0)
    } else {
        VerdictView::Strm(item.pickcode->0)
    }
}

/// The rule chain on one record, given the facts of its name.
pub open spec fn verdict_of(config: ConfigView, item: FileInputView, facts: NameFactsView) -> VerdictView {
    if item.is_dir {
        VerdictView::Directory
    } else if !config.pan_media_dir.is_prefix_of(item.path) {
        VerdictView::OutsideMediaDir
    } else if config.pan_transfer_enabled && in_transfer_path(config.pan_transfer_paths, item.path) {
        VerdictView::InTransferPath
    } else if is_mediainfo(config, facts) {
        mediainfo_verdict(config, item, facts)
    } else {
        media_verdict(config, item, facts)
    }
}

/// The verdict of the rule chain on a record, the facts of its name taken
/// from the keyword searches.
pub open spec fn chain_verdict(config: ConfigView, item: FileInputView) -> VerdictView {
    verdict_of(config, item, name_facts(config, item.name))
}

/// Whether a keyword is one of a list and stands in a name.
pub open spec fn cites(keywords: Seq<Seq<char>>, name: Seq<char>, keyword: Seq<char>) -> bool {
    keywords.contains(keyword) && occurs_in(keyword, name)
}

/// Whether a metadata file's name passes both metadata lists: a whitelist
/// keyword stands in it, unless the whitelist is empty, and no blacklist
/// keyword does.
pub open spec fn passes_mediainfo_lists(config: ConfigView, name: Seq<char>) -> bool {
    &&& config.mediainfo_download_whitelist.len() == 0 || !none_occurs(
        config.mediainfo_download_whitelist,
        name,
    )
    &&& none_occurs(config.mediainfo_download_blacklist, name)
}

/// What a verdict says of the keywords in the record's name: a keyword
/// cited is one of its list and stands in the name, and a verdict reached
/// past a list means that the name passed it.
pub open spec fn true_to_name(config: ConfigView, item: FileInputView, verdict: VerdictView) -> bool {
    match verdict {
        VerdictView::NotWhitelisted => none_occurs(
            config.mediainfo_download_whitelist,
            item.name,
        ),
        VerdictView::MediainfoBlacklisted(keyword) => cites(
            config.mediainfo_download_blacklist,
            item.name,
            keyword,
        ),
        VerdictView::Download(_, _) => passes_mediainfo_lists(config, item.name),
        VerdictView::NoSha1 => passes_mediainfo_lists(config, item.name),
        VerdictView::NoPickcode => if is_mediainfo(config, name_facts(config, item.name)) {
            passes_mediainfo_lists(config, item.name)
        } else {
            none_occurs(config.strm_generate_blacklist, item.name)
        },
        VerdictView::StrmBlacklisted(keyword) => cites(
            config.strm_generate_blacklist,
            item.name,
            keyword,
        ),
        VerdictView::TooSmall => none_occurs(config.strm_generate_blacklist, item.name),
        VerdictView::BadPickcode(_) => none_occurs(config.strm_generate_blacklist, item.name),
        VerdictView::Strm(_) => none_occurs(config.strm_generate_blacklist, item.name),
        _ => true,
    }
}

/// Whether an outcome is the one the rule chain gives a record, the keyword
/// searches behind it being true to the record's name.
pub open spec fn decided(config: ConfigView, item: FileInputView, outcome: ProcessingResultView) -> bool {
    &&& outcome == classify(config, item)
    &&& true_to_name(config, item, chain_verdict(config, item))
}

/// A reason: the path, then what is the matter with it.
pub open spec fn reason(path: Seq<char>, cause: Seq<char>) -> Seq<char> {
    path + ": "@ + cause
}

/// A reason that ends with the keyword or value at fault.
pub open spec fn reason_with(path: Seq<char>, cause: Seq<char>, value: Seq<char>) -> Seq<char> {
    path + ": "@ + cause + ": "@ + value
}

/// A skip of a path for a reason.
pub open spec fn skip(path: Seq<char>, reason: Seq<char>) -> ProcessingResultView {
    ProcessingResultView::Skip(SkipInfoView { path_in_pan: path, reason })
}

/// A failure on a path for a reason.
pub open spec fn fail(path: Seq<char>, reason: Seq<char>) -> ProcessingResultView {
    ProcessingResultView::Fail(FailInfoView { path_in_pan: path, reason })
}

/// The outcome that a verdict gives for a record.
pub open spec fn outcome_of(item: FileInputView, verdict: VerdictView) -> ProcessingResultView {
    let path = item.path;
    match verdict {
        VerdictView::Directory => skip(path, reason(path, "path is a directory"@)),
        VerdictView::OutsideMediaDir => skip(path, reason(path, "path outside media root"@)),
        VerdictView::InTransferPath => skip(path, reason(path, "path under staging directory"@)),
        VerdictView::NotWhitelisted => skip(path, reason(path, "no whitelist keyword matched"@)),
        VerdictView::MediainfoBlacklisted(keyword) => skip(
            path,
            reason_with(path, "matched metadata blacklist keyword"@, keyword),
        ),
        VerdictView::Download(pickcode, sha1) => ProcessingResultView::Download(
            DownloadInfoView { pickcode, sha1, path_in_pan: path },
        ),
        VerdictView::NoPickcode => fail(path, reason(path, "missing identifier"@)),
        VerdictView::NoSha1 => fail(path, reason(path, "missing content hash"@)),
        VerdictView::UnknownSuffix => skip(
            path,
            reason(path, "extension not recognized as media or metadata"@),
        ),
        VerdictView::StrmBlacklisted(keyword) => skip(
            path,
            reason_with(path, "matched strm blacklist keyword"@, keyword),
        ),
        VerdictView::TooSmall => skip(path, reason(path, "file below minimum size"@)),
        VerdictView::BadPickcode(pickcode) => fail(
            path,
            reason_with(path, "malformed identifier"@, pickcode),
        ),
        VerdictView::Strm(pickcode) => ProcessingResultView::Strm(
            StrmInfoView { pickcode, original_file_name: item.name, path_in_pan: path },
        ),
    }
}

/// The outcome of a record under a configuration.
pub open spec fn classify(config: ConfigView, item: FileInputView) -> ProcessingResultView {
    outcome_of(item, verdict_of(config, item, name_facts(config, item.name)))
}

/// Whether a path begins with a non-empty entry of the transfer paths.
pub fn under_transfer_path(paths: &Vec<String>, path: &str) -> (r: bool)
    ensures
        r == in_transfer_path(text_seq(paths@), path@),
{
    let mut i: usize = 0;
    while i < paths.len()
        invariant
            i <= paths.len(),
            forall|j: int| 0 <= j < i ==> !(paths@[j]@.len() > 0 && paths@[j]@.is_prefix_of(path@)),
        decreases paths.len() - i,
    {
        let entry = paths[i].as_str();
        if !entry.is_empty() && has_prefix(path, entry) {
            assert(text_seq(paths@)[i as int] == paths@[i as int]@);
            return true;
        }
        i += 1;
    }
    assert forall|j: int| 0 <= j < text_seq(paths@).len() implies !((#[trigger] text_seq(
        paths@,
    )[j]).len() > 0 && text_seq(paths@)[j].is_prefix_of(path@)) by {
        assert(text_seq(paths@)[j] == paths@[j]@);
    }
    false
}

/// Runs the rule chain on one record, given the facts of its name, and
/// returns the first rule that fires.
pub fn decide(config: &Config, item: &FileInput, facts: &NameFacts) -> (verdict: Verdict)
    ensures
        verdict@ == verdict_of(config@, item@, facts@),
{
    if item.is_dir {
        return Verdict::Directory;
    }
    if !has_prefix(item.path.as_str(), config.pan_media_dir.as_str()) {
        return Verdict::OutsideMediaDir;
    }
    if config.pan_transfer_enabled && under_transfer_path(
        &config.pan_transfer_paths,
        item.path.as_str(),
    ) {
        return Verdict::InTransferPath;
    }
    if config.auto_download_mediainfo && contains_text(&config.download_mediaext_set, &facts.suffix) {
        if config.mediainfo_download_whitelist.len() > 0 && !facts.whitelist_hit {
            return Verdict::NotWhitelisted;
        }
        if config.mediainfo_download_blacklist.len() > 0 {
            if let Some(keyword) = &facts.mediainfo_blacklist_hit {
                return Verdict::MediainfoBlacklisted(keyword.clone());
            }
        }
        return match (&item.pickcode, &item.sha1) {
            (Some(pickcode), Some(sha1)) => Verdict::Download(pickcode.clone(), sha1.clone()),
            (None, _) => Verdict::NoPickcode,
            (_, None) => Verdict::NoSha1,
        };
    }
    if !contains_text(&config.rmt_mediaext_set, &facts.suffix) {
        return Verdict::UnknownSuffix;
    }
    if config.strm_generate_blacklist.len() > 0 {
        if let Some(keyword) = &facts.strm_blacklist_hit {
            return Verdict::StrmBlacklisted(keyword.clone());
        }
    }
    if let Some(size) = item.size {
        if config.full_sync_min_file_size > 0 && size < config.full_sync_min_file_size {
            return Verdict::TooSmall;
        }
    }
    match &item.pickcode {
        None => Verdict::NoPickcode,
        Some(pickcode) => {
            if is_valid_pickcode(pickcode.as_str()) {
                Verdict::Strm(pickcode.clone())
            } else {
                Verdict::BadPickcode(pickcode.clone())
            }
        },
    }
}

/// Builds a reason from a path and a cause.
fn explain(path: &String, cause: &str) -> (r: String)
    ensures
        r@ == reason(path@, cause@),
{
    let mut text = path.clone();
    text.append(": ");
    text.append(cause);
    text
}

/// Builds a reason from a path, a cause and the keyword or value at fault.
fn explain_with(path: &String, cause: &str, value: &str) -> (r: String)
    ensures
        r@ == reason_with(path@, cause@, value@),
{
    let mut text = explain(path, cause);
    text.append(": ");
    text.append(value);
    text
}

fn skipped(path: &String, reason: String) -> (r: ProcessingResult)
    ensures
        r@ == skip(path@, reason@),
{
    ProcessingResult::Skip(SkipInfo { path_in_pan: path.clone(), reason })
}

fn failed(path: &String, reason: String) -> (r: ProcessingResult)
    ensures
        r@ == fail(path@, reason@),
{
    ProcessingResult::Fail(FailInfo { path_in_pan: path.clone(), reason })
}

/// Turns a verdict on a record into the outcome handed to the caller.
pub fn render(item: &FileInput, verdict: Verdict) -> (r: ProcessingResult)
    ensures
        r@ == outcome_of(item@, verdict@),
{
    let path = &item.path;
    match verdict {
        Verdict::Directory => skipped(path, explain(path, "path is a directory")),
        Verdict::OutsideMediaDir => skipped(path, explain(path, "path outside media root")),
        Verdict::InTransferPath => skipped(path, explain(path, "path under staging directory")),
        Verdict::NotWhitelisted => skipped(path, explain(path, "no whitelist keyword matched")),
        Verdict::MediainfoBlacklisted(keyword) => skipped(
            path,
            explain_with(path, "matched metadata blacklist keyword", keyword.as_str()),
        ),
        Verdict::Download(pickcode, sha1) => ProcessingResult::Download(
            DownloadInfo { pickcode, sha1, path_in_pan: path.clone() },
        ),
        Verdict::NoPickcode => failed(path, explain(path, "missing identifier")),
        Verdict::NoSha1 => failed(path, explain(path, "missing content hash")),
        Verdict::UnknownSuffix => skipped(
            path,
            explain(path, "extension not recognized as media or metadata"),
        ),
        Verdict::StrmBlacklisted(keyword) => skipped(
            path,
            explain_with(path, "matched strm blacklist keyword", keyword.as_str()),
        ),
        Verdict::TooSmall => skipped(path, explain(path, "file below minimum size")),
        Verdict::BadPickcode(pickcode) => failed(
            path,
            explain_with(path, "malformed identifier", pickcode.as_str()),
        ),
        Verdict::Strm(pickcode) => ProcessingResult::Strm(
            StrmInfo {
                pickcode,
                original_file_name: item.name.clone(),
                path_in_pan: path.clone(),
            },
        ),
    }
}

} // verus!
