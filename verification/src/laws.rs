//! What holds of the rule chain on every record: which rules come first,
//! what an empty keyword list means, and that an outcome tells which rule
//! fired.

use vstd::prelude::*;
use crate::matcher::occurs_in;
use crate::rules::{
    chain_verdict, cites, classify, in_transfer_path, is_mediainfo, matched_keyword, name_facts,
    outcome_of, reason, reason_with, skip, true_to_name, verdict_of, NameFactsView, VerdictView,
};
use crate::text::suffix_of;
use crate::types::{ConfigView, FileInputView, ProcessingResultView};

verus! {

/// A directory is skipped, whatever its other fields hold.
pub proof fn lemma_directory_is_skipped(config: ConfigView, item: FileInputView)
    requires
        item.is_dir,
    ensures
        classify(config, item) == skip(item.path, reason(item.path, "path is a directory"@)),
{
}

/// A record whose path does not begin with the media directory is skipped,
/// even where its suffix, size and identifiers would make it a target.
pub proof fn lemma_outside_media_dir_is_skipped(config: ConfigView, item: FileInputView)
    requires
        !config.pan_media_dir.is_prefix_of(item.path),
    ensures
        classify(config, item) is Skip,
        !item.is_dir ==> classify(config, item) == skip(
            item.path,
            reason(item.path, "path outside media root"@),
        ),
{
}

/// With an empty pointer-file blacklist no record is settled by the
/// blacklist rule, whatever the search of its name is said to have found.
pub proof fn lemma_empty_strm_blacklist_never_fires(
    config: ConfigView,
    item: FileInputView,
    facts: NameFactsView,
)
    requires
        config.strm_generate_blacklist.len() == 0,
    ensures
        !(verdict_of(config, item, facts) is StrmBlacklisted),
        !(chain_verdict(config, item) is StrmBlacklisted),
{
}

/// With an empty metadata whitelist no record is settled by the whitelist
/// rule, whatever the search of its name is said to have found.
pub proof fn lemma_empty_whitelist_never_fires(
    config: ConfigView,
    item: FileInputView,
    facts: NameFactsView,
)
    requires
        config.mediainfo_download_whitelist.len() == 0,
    ensures
        !(verdict_of(config, item, facts) is NotWhitelisted),
        !(chain_verdict(config, item) is NotWhitelisted),
{
}

/// Four characters of a cause, enough to tell the causes apart.
pub open spec fn marks(cause: Seq<char>) -> (char, char, char, char) {
    (cause[0], cause[1], cause[5], cause[8])
}

/// The same four characters, read in a reason behind the path.
pub open spec fn marks_in(text: Seq<char>, path: Seq<char>) -> (char, char, char, char) {
    let at: int = path.len() as int + 2;
    (text[at], text[at + 1], text[at + 5], text[at + 8])
}

/// The cause that a verdict puts in its reason; empty for a target.
pub open spec fn cause_of(verdict: VerdictView) -> Seq<char> {
    match verdict {
        VerdictView::Directory => "path is a directory"@,
        VerdictView::OutsideMediaDir => "path outside media root"@,
        VerdictView::InTransferPath => "path under staging directory"@,
        VerdictView::NotWhitelisted => "no whitelist keyword matched"@,
        VerdictView::MediainfoBlacklisted(_) => "matched metadata blacklist keyword"@,
        VerdictView::NoPickcode => "missing identifier"@,
        VerdictView::NoSha1 => "missing content hash"@,
        VerdictView::UnknownSuffix => "extension not recognized as media or metadata"@,
        VerdictView::StrmBlacklisted(_) => "matched strm blacklist keyword"@,
        VerdictView::TooSmall => "file below minimum size"@,
        VerdictView::BadPickcode(_) => "malformed identifier"@,
        VerdictView::Download(_, _) => Seq::empty(),
        VerdictView::Strm(_) => Seq::empty(),
    }
}

/// The keyword or value that a verdict puts at the end of its reason.
pub open spec fn value_of(verdict: VerdictView) -> Option<Seq<char>> {
    match verdict {
        VerdictView::MediainfoBlacklisted(keyword) => Some(keyword),
        VerdictView::StrmBlacklisted(keyword) => Some(keyword),
        VerdictView::BadPickcode(pickcode) => Some(pickcode),
        _ => None,
    }
}

/// The reason text of an outcome; empty for a target.
pub open spec fn reason_of(outcome: ProcessingResultView) -> Seq<char> {
    match outcome {
        ProcessingResultView::Skip(info) => info.reason,
        ProcessingResultView::Fail(info) => info.reason,
        _ => Seq::empty(),
    }
}

/// The marks of each cause, spelled out.
proof fn lemma_marks_of_causes()
    ensures
        marks("path is a directory"@) == ('p', 'a', 'i', 'a'),
        marks("path outside media root"@) == ('p', 'a', 'o', 's'),
        marks("path under staging directory"@) == ('p', 'a', 'u', 'e'),
        marks("no whitelist keyword matched"@) == ('n', 'o', 'i', 'l'),
        marks("matched metadata blacklist keyword"@) == ('m', 'a', 'e', 'm'),
        marks("missing identifier"@) == ('m', 'i', 'n', 'i'),
        marks("missing content hash"@) == ('m', 'i', 'n', 'c'),
        marks("extension not recognized as media or metadata"@) == ('e', 'x', 's', 'n'),
        marks("matched strm blacklist keyword"@) == ('m', 'a', 'e', 's'),
        marks("file below minimum size"@) == ('f', 'i', 'b', 'o'),
        marks("malformed identifier"@) == ('m', 'a', 'r', 'd'),
        "path is a directory"@.len() == 19,
        "path outside media root"@.len() == 23,
        "path under staging directory"@.len() == 28,
        "no whitelist keyword matched"@.len() == 28,
        "matched metadata blacklist keyword"@.len() == 34,
        "missing identifier"@.len() == 18,
        "missing content hash"@.len() == 20,
        "extension not recognized as media or metadata"@.len() == 45,
        "matched strm blacklist keyword"@.len() == 30,
        "file below minimum size"@.len() == 23,
        "malformed identifier"@.len() == 20,
        ": "@.len() == 2,
{
    reveal_strlit("path is a directory");
    reveal_strlit("path outside media root");
    reveal_strlit("path under staging directory");
    reveal_strlit("no whitelist keyword matched");
    reveal_strlit("matched metadata blacklist keyword");
    reveal_strlit("missing identifier");
    reveal_strlit("missing content hash");
    reveal_strlit("extension not recognized as media or metadata");
    reveal_strlit("matched strm blacklist keyword");
    reveal_strlit("file below minimum size");
    reveal_strlit("malformed identifier");
    reveal_strlit(": ");
}

/// A reason shows the marks of its cause behind the path, and ends with
/// its value where it has one.
proof fn lemma_reason_shape(item: FileInputView, verdict: VerdictView)
    requires
        !(verdict is Download),
        !(verdict is Strm),
    ensures
        marks_in(reason_of(outcome_of(item, verdict)), item.path) == marks(cause_of(verdict)),
        match value_of(verdict) {
            Some(value) => {
                let text = reason_of(outcome_of(item, verdict));
                &&& text.len() == item.path.len() + cause_of(verdict).len() + 4 + value.len()
                &&& text.subrange(text.len() - value.len(), text.len() as int) == value
            },
            None => true,
        },
{
    lemma_marks_of_causes();
    let path = item.path;
    let cause = cause_of(verdict);
    let text = reason_of(outcome_of(item, verdict));
    let at: int = path.len() as int + 2;
    assert(cause.len() >= 9);
    match value_of(verdict) {
        Some(value) => {
            assert(text == reason_with(path, cause, value));
            assert(text.subrange(text.len() - value.len(), text.len() as int) =~= value);
        },
        None => {
            assert(text == reason(path, cause));
        },
    }
    assert(text[at] == cause[0]);
    assert(text[at + 1] == cause[1]);
    assert(text[at + 5] == cause[5]);
    assert(text[at + 8] == cause[8]);
}

/// The outcome tells which rule fired: two verdicts that give one record
/// the same outcome are the same verdict. So a reason never reads as if
/// another rule had fired.
pub proof fn lemma_outcome_names_the_verdict(
    item: FileInputView,
    first: VerdictView,
    second: VerdictView,
)
    requires
        outcome_of(item, first) == outcome_of(item, second),
    ensures
        first == second,
{
    if first is Download || first is Strm || second is Download || second is Strm {
        assert(first == second);
    } else {
        lemma_marks_of_causes();
        lemma_reason_shape(item, first);
        lemma_reason_shape(item, second);
        assert(marks(cause_of(first)) == marks(cause_of(second)));
        assert(cause_of(first) == cause_of(second));
        assert(value_of(first) is Some == value_of(second) is Some);
        if value_of(first) is Some {
            assert(value_of(first)->0.len() == value_of(second)->0.len());
            assert(value_of(first) == value_of(second));
        }
    }
}

/// With an empty pointer-file blacklist no outcome cites a pointer-file
/// blacklist keyword.
pub proof fn lemma_empty_strm_blacklist_is_never_cited(
    config: ConfigView,
    item: FileInputView,
    keyword: Seq<char>,
)
    requires
        config.strm_generate_blacklist.len() == 0,
    ensures
        classify(config, item) != outcome_of(item, VerdictView::StrmBlacklisted(keyword)),
{
    let verdict = chain_verdict(config, item);
    if classify(config, item) == outcome_of(item, VerdictView::StrmBlacklisted(keyword)) {
        lemma_outcome_names_the_verdict(item, verdict, VerdictView::StrmBlacklisted(keyword));
    }
}

/// With an empty metadata whitelist no outcome is a skip for want of a
/// whitelist keyword.
pub proof fn lemma_empty_whitelist_is_never_cited(config: ConfigView, item: FileInputView)
    requires
        config.mediainfo_download_whitelist.len() == 0,
    ensures
        classify(config, item) != outcome_of(item, VerdictView::NotWhitelisted),
{
    let verdict = chain_verdict(config, item);
    if classify(config, item) == outcome_of(item, VerdictView::NotWhitelisted) {
        lemma_outcome_names_the_verdict(item, verdict, VerdictView::NotWhitelisted);
    }
}

/// A media file that comes as far as the blacklist rule, and whose name
/// holds a keyword of the pointer-file blacklist, is skipped, and the
/// keyword cited is one that stands in the name.
pub proof fn lemma_blacklisted_media_is_skipped(config: ConfigView, item: FileInputView, i: int)
    requires
        true_to_name(config, item, chain_verdict(config, item)),
        !item.is_dir,
        config.pan_media_dir.is_prefix_of(item.path),
        !(config.pan_transfer_enabled && in_transfer_path(config.pan_transfer_paths, item.path)),
        !is_mediainfo(config, name_facts(config, item.name)),
        config.rmt_mediaext_set.contains(suffix_of(item.name)),
        0 <= i < config.strm_generate_blacklist.len(),
        occurs_in(config.strm_generate_blacklist[i], item.name),
    ensures
        chain_verdict(config, item) is StrmBlacklisted,
        cites(
            config.strm_generate_blacklist,
            item.name,
            chain_verdict(config, item)->StrmBlacklisted_0,
        ),
        classify(config, item) is Skip,
{
}

/// A metadata file whose name holds a keyword of the metadata blacklist is
/// skipped: for want of a whitelist keyword, or citing a blacklist keyword
/// that stands in the name.
pub proof fn lemma_blacklisted_mediainfo_is_skipped(
    config: ConfigView,
    item: FileInputView,
    i: int,
)
    requires
        true_to_name(config, item, chain_verdict(config, item)),
        !item.is_dir,
        config.pan_media_dir.is_prefix_of(item.path),
        !(config.pan_transfer_enabled && in_transfer_path(config.pan_transfer_paths, item.path)),
        is_mediainfo(config, name_facts(config, item.name)),
        0 <= i < config.mediainfo_download_blacklist.len(),
        occurs_in(config.mediainfo_download_blacklist[i], item.name),
    ensures
        classify(config, item) is Skip,
        chain_verdict(config, item) is NotWhitelisted || (chain_verdict(config, item)
            is MediainfoBlacklisted && cites(
            config.mediainfo_download_blacklist,
            item.name,
            chain_verdict(config, item)->MediainfoBlacklisted_0,
        )),
{
}

/// An empty keyword list matches no name.
pub proof fn lemma_empty_list_matches_nothing(keywords: Seq<Seq<char>>, name: Seq<char>)
    requires
        keywords.len() == 0,
    ensures
        matched_keyword(keywords, name) is None,
{
}

} // verus!
