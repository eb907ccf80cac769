//! The processor: a configuration with its three compiled keyword lists,
//! applied to single records and to whole batches.

use vstd::prelude::*;
use vstd::string::*;
use rayon::iter::{IntoParallelRefIterator, ParallelIterator};
use crate::aggregate::{outcome_views, pack};
use crate::matcher::{keyword_hit, matchable, true_to_text, Matcher};
use crate::rules::{
    chain_verdict, classify, decide, decided, matched_keyword, render, true_to_name, verdict_of,
    NameFacts,
};
use crate::text::{contains_text, file_suffix, text_seq};
use crate::types::{
    Config, ConfigView, FileInput, PackedResult, ProcessingResult, ProcessingResultView,
    option_text,
};

verus! {

/// One of the three keyword lists of a configuration.
#[derive(Clone, Copy, Debug, PartialEq, Eq, Structural)]
pub enum KeywordList {
    StrmBlacklist,
    MediainfoWhitelist,
    MediainfoBlacklist,
}

/// A configuration that no processor can be built from: one of its keyword
/// lists does not compile.
#[derive(Clone, Debug)]
pub struct ConfigError {
    /// The first list, in the order of [`KeywordList`], that failed.
    pub list: KeywordList,
    /// What the pattern compiler said.
    pub message: String,
}

impl ConfigError {
    /// The error as one line of text.
    pub fn describe(&self) -> (r: String)
        ensures
            r@ == list_name(self.list) + ": "@ + self.message@,
    {
        let mut text = match self.list {
            KeywordList::StrmBlacklist => String::from_str("strm_generate_blacklist"),
            KeywordList::MediainfoWhitelist => String::from_str("mediainfo_download_whitelist"),
            KeywordList::MediainfoBlacklist => String::from_str("mediainfo_download_blacklist"),
        };
        text.append(": ");
        text.append(self.message.as_str());
        text
    }
}

/// The name of a keyword list, as the configuration spells it.
pub open spec fn list_name(list: KeywordList) -> Seq<char> {
    match list {
        KeywordList::StrmBlacklist => "strm_generate_blacklist"@,
        KeywordList::MediainfoWhitelist => "mediainfo_download_whitelist"@,
        KeywordList::MediainfoBlacklist => "mediainfo_download_blacklist"@,
    }
}

/// Whether all three keyword lists of a configuration compile.
pub open spec fn buildable(config: ConfigView) -> bool {
    &&& matchable(config.strm_generate_blacklist)
    &&& matchable(config.mediainfo_download_whitelist)
    &&& matchable(config.mediainfo_download_blacklist)
}

/// The first keyword list of a configuration that does not compile.
pub open spec fn failing_list(config: ConfigView) -> KeywordList {
    if !matchable(config.strm_generate_blacklist) {
        KeywordList::StrmBlacklist
    } else if !matchable(config.mediainfo_download_whitelist) {
        KeywordList::MediainfoWhitelist
    } else {
        KeywordList::MediainfoBlacklist
    }
}

/// The outcomes of a batch, record by record.
pub open spec fn batch_outcomes(config: ConfigView, batch: Seq<FileInput>) -> Seq<ProcessingResultView> {
    Seq::new(batch.len(), |i: int| classify(config, batch[i]@))
}

/// A configuration and its compiled keyword lists. Nothing in it changes
/// after construction, so one processor may serve any number of batches.
pub struct Processor {
    config: Config,
    strm_blacklist_automaton: Matcher,
    mediainfo_whitelist_automaton: Matcher,
    mediainfo_blacklist_automaton: Matcher,
}

impl Processor {
    #[verifier::type_invariant]
    spec fn matchers_follow_config(self) -> bool {
        &&& self.strm_blacklist_automaton.keywords() == self.config@.strm_generate_blacklist
        &&& self.mediainfo_whitelist_automaton.keywords()
            == self.config@.mediainfo_download_whitelist
        &&& self.mediainfo_blacklist_automaton.keywords()
            == self.config@.mediainfo_download_blacklist
    }

    /// The rules this processor applies.
    pub closed spec fn rules(&self) -> ConfigView {
        self.config@
    }

    /// Compiles the three keyword lists of a configuration, in the order
    /// pointer-file blacklist, metadata whitelist, metadata blacklist, and
    /// stops at the first that fails. Empty lists never fail.
    pub fn new(config: Config) -> (r: Result<Processor, ConfigError>)
        ensures
            r is Ok == buildable(config@),
            r matches Ok(processor) ==> processor.rules() == config@,
            r matches Err(error) ==> error.list == failing_list(config@),
    {
        let strm_blacklist_automaton = match Matcher::new(&config.strm_generate_blacklist) {
            Ok(matcher) => matcher,
            Err(error) => {
                return Err(
                    ConfigError { list: KeywordList::StrmBlacklist, message: error.message },
                );
            },
        };
        let mediainfo_whitelist_automaton = match Matcher::new(
            &config.mediainfo_download_whitelist,
        ) {
            Ok(matcher) => matcher,
            Err(error) => {
                return Err(
                    ConfigError {
                        list: KeywordList::MediainfoWhitelist,
                        message: error.message,
                    },
                );
            },
        };
        let mediainfo_blacklist_automaton = match Matcher::new(
            &config.mediainfo_download_blacklist,
        ) {
            Ok(matcher) => matcher,
            Err(error) => {
                return Err(
                    ConfigError {
                        list: KeywordList::MediainfoBlacklist,
                        message: error.message,
                    },
                );
            },
        };
        Ok(
            Processor {
                config,
                strm_blacklist_automaton,
                mediainfo_whitelist_automaton,
                mediainfo_blacklist_automaton,
            },
        )
    }

    /// The configuration this processor was built from.
    pub fn config(&self) -> (r: &Config)
        ensures
            r@ == self.rules(),
    {
        &self.config
    }

    /// Decides the outcome of one record. Keyword lists are searched only
    /// where the rule chain can come to ask for them, and what the chain
    /// makes of a search is true to the name.
    pub fn process_item(&self, item: &FileInput) -> (r: ProcessingResult)
        ensures
            r@ == classify(self.rules(), item@),
            true_to_name(self.rules(), item@, chain_verdict(self.rules(), item@)),
    {
        proof {
            use_type_invariant(self);
        }
        let name = item.name.as_str();
        let suffix = file_suffix(name);
        let mediainfo = self.config.auto_download_mediainfo && contains_text(
            &self.config.download_mediaext_set,
            &suffix,
        );
        let facts = if mediainfo {
            let whitelist_hit = self.mediainfo_whitelist_automaton.find(name).is_some();
            let mediainfo_blacklist_hit = keyword_found(
                &self.mediainfo_blacklist_automaton,
                &self.config.mediainfo_download_blacklist,
                name,
            );
            NameFacts { suffix, whitelist_hit, mediainfo_blacklist_hit, strm_blacklist_hit: None }
        } else if contains_text(&self.config.rmt_mediaext_set, &suffix) {
            let strm_blacklist_hit = keyword_found(
                &self.strm_blacklist_automaton,
                &self.config.strm_generate_blacklist,
                name,
            );
            NameFacts {
                suffix,
                whitelist_hit: false,
                mediainfo_blacklist_hit: None,
                strm_blacklist_hit,
            }
        } else {
            NameFacts {
                suffix,
                whitelist_hit: false,
                mediainfo_blacklist_hit: None,
                strm_blacklist_hit: None,
            }
        };
        assert(verdict_of(self.config@, item@, facts@) == chain_verdict(self.config@, item@));
        let verdict = decide(&self.config, item, &facts);
        render(item, verdict)
    }

    /// Hands the records of a batch to rayon's thread pool, one call of
    /// [`Processor::process_item`] each, through `par_iter`, `map` and
    /// `collect`. Collecting an indexed parallel iterator into a `Vec` keeps
    /// the order of the input, so what stands at each position is what
    /// `process_item` returns for the record at that position.
    #[verifier::external_body]
    fn classify_all(&self, batch: &Vec<FileInput>) -> (r: Vec<ProcessingResult>)
        ensures
            r@.len() == batch@.len(),
            forall|i: int|
                0 <= i < batch@.len() ==> decided(self.rules(), batch@[i]@, (#[trigger] r@[i])@),
    {
        batch.par_iter().map(|item| self.process_item(item)).collect()
    }

    /// Classifies every record of a batch, in parallel, and partitions the
    /// outcomes by kind, each kind in the order of the batch. No record is
    /// lost and none is counted twice.
    pub fn process_batch_rust(&self, batch: Vec<FileInput>) -> (r: PackedResult)
        ensures
            r@ == pack(batch_outcomes(self.rules(), batch@)),
            r@.total() == batch@.len(),
            forall|i: int|
                0 <= i < batch@.len() ==> true_to_name(
                    self.rules(),
                    (#[trigger] batch@[i])@,
                    chain_verdict(self.rules(), batch@[i]@),
                ),
    {
        let results = self.classify_all(&batch);
        assert(outcome_views(results@) =~= batch_outcomes(self.rules(), batch@));
        assert forall|i: int| 0 <= i < batch@.len() implies true_to_name(
            self.rules(),
            (#[trigger] batch@[i])@,
            chain_verdict(self.rules(), batch@[i]@),
        ) by {
            assert(decided(self.rules(), batch@[i]@, results@[i]@));
        }
        PackedResult::from_results(results)
    }
}

/// The outcome is a function of the rules and the record alone: processors
/// with equal rules give equal records the same kind of outcome, the same
/// payload and the same reason text, however often they are asked and
/// however the work is spread over threads.
pub proof fn lemma_classification_is_deterministic(
    first: Processor,
    second: Processor,
    record: FileInput,
    again: FileInput,
)
    requires
        first.rules() == second.rules(),
        record@ == again@,
    ensures
        classify(first.rules(), record@) == classify(second.rules(), again@),
{
}

/// Searches a name and returns the keyword that matched, if any.
fn keyword_found(matcher: &Matcher, keywords: &Vec<String>, name: &str) -> (r: Option<String>)
    requires
        matcher.keywords() == text_seq(keywords@),
    ensures
        option_text(r) == matched_keyword(text_seq(keywords@), name@),
        true_to_text(text_seq(keywords@), name@, keyword_hit(text_seq(keywords@), name@)),
{
    match matcher.find(name) {
        Some(i) => Some(keywords[i].clone()),
        None => None,
    }
}

} // verus!
