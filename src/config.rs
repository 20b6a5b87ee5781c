//! The configuration: catalog and transcription settings, and the sources.
use vstd::prelude::*;

use crate::source::Source;

verus! {

pub const DEFAULT_REQUEST_DELAY: u64 = 5;

pub const DEFAULT_POSTPROCESSING_PROMPT: &'static str = "\
You are editing the transcript for a podcast or video.
You must NEVER modify the content of the transcript.
NEVER summarize the transcript or shorten it.
ALWAYS retain all content.
You must NEVER translate the transcript into any other language.
You MUST ALWAYS produce the original language.
NEVER change what anyone said.
You are responsible for post-processing the transcript to make it more readable.
This includes fixing punctuation, capitalization, and spelling mistakes.
You MAY also add MINOR additional information to the transcript, \
such as the names of speakers, as they speak, if known.
You SHALL NOT add any information that is not present in the transcript.
You SHALL group sentences into paragraphs if and when necessary.
IF the transcript has multiple people, then you shall group sentences into \
paragraphs by speaker.
You SHALL insert a blank line between paragraphs.";

pub const DEFAULT_POSTPROCESSING_MODEL: &'static str = "gpt-4o-mini";

pub const DEFAULT_WHISPER_MODEL: &'static str = "whisper-1";

/// The whole configuration of the tool.
pub struct LqcliConfig {
    /// Settings specific to the LingQ API.
    pub lingq: LingqConfig,
    /// Settings for OpenAI.
    pub openai: OpenaiConfig,
    /// The configured sources, in the order they were declared.
    pub sources: Vec<Source>,
}

/// Settings of the lesson catalog's API.
pub struct LingqConfig {
    /// The API key, sent with every request.
    pub api_key: String,
    /// Seconds between two requests to the catalog, so as not to hammer it.
    pub request_delay: u64,
}

/// Settings of transcription and post-processing.
pub struct OpenaiConfig {
    pub api_key: String,
    /// The prompt that post-processing gives the model; a source may
    /// override it.
    pub postprocessing_prompt: String,
    /// The model that rewrites transcripts.
    pub postprocessing_model: String,
    /// The model that transcribes audio.
    pub whisper_model: String,
}

pub fn default_request_delay() -> (r: u64)
    ensures
        r == DEFAULT_REQUEST_DELAY,
{
    DEFAULT_REQUEST_DELAY
}

pub fn default_postprocessing_prompt() -> (r: String)
    ensures
        r@ == DEFAULT_POSTPROCESSING_PROMPT@,
{
    DEFAULT_POSTPROCESSING_PROMPT.to_owned()
}

pub fn default_postprocessing_model() -> (r: String)
    ensures
        r@ == DEFAULT_POSTPROCESSING_MODEL@,
{
    DEFAULT_POSTPROCESSING_MODEL.to_owned()
}

pub fn default_whisper_model() -> (r: String)
    ensures
        r@ == DEFAULT_WHISPER_MODEL@,
{
    DEFAULT_WHISPER_MODEL.to_owned()
}

/// The texts of a sequence of strings.
pub open spec fn texts(strings: Seq<String>) -> Seq<Seq<char>> {
    strings.map_values(|text: String| text@)
}

/// Whether some text occurs in both sequences.
pub open spec fn any_shared(own: Seq<Seq<char>>, wanted: Seq<Seq<char>>) -> bool {
    exists|i: int, j: int| 0 <= i < own.len() && 0 <= j < wanted.len() && own[i] == wanted[j]
}

/// Whether a tag filter selects a source: an empty filter selects every
/// source, any other filter those that carry one of its tags.
pub open spec fn is_selected(source: Source, wanted: Seq<Seq<char>>) -> bool {
    wanted.len() == 0 || match source.tags.0 {
        Some(own) => any_shared(texts(own@), wanted),
        None => false,
    }
}

/// The sources that a tag filter selects, in their configured order.
pub open spec fn selection(sources: Seq<Source>, wanted: Seq<Seq<char>>) -> Seq<Source> {
    sources.filter(|source: Source| is_selected(source, wanted))
}

/// The sources that a sequence of references points to.
pub open spec fn referents<'a>(refs: Seq<&'a Source>) -> Seq<Source> {
    refs.map_values(|source: &'a Source| *source)
}

/// An empty tag filter selects every configured source, in configured order.
pub proof fn lemma_empty_filter_selects_all(sources: Seq<Source>)
    ensures
        selection(sources, Seq::empty()) == sources,
    decreases sources.len(),
{
    reveal(Seq::filter);
    if sources.len() > 0 {
        lemma_empty_filter_selects_all(sources.drop_last());
        assert(sources.drop_last().push(sources.last()) =~= sources);
    }
}

/// Under a non-empty tag filter, a configured source is selected exactly when
/// one of its own tags is in the filter; so a source without tags is never
/// selected.
pub proof fn lemma_tag_filter_selects_shared(
    sources: Seq<Source>,
    wanted: Seq<Seq<char>>,
    source: Source,
)
    requires
        wanted.len() > 0,
        sources.contains(source),
    ensures
        selection(sources, wanted).contains(source) <==> (exists|tag: Seq<char>|
            source.tags.names().contains(tag) && wanted.contains(tag)),
        source.tags.0 is None ==> !selection(sources, wanted).contains(source),
{
    let pred = |s: Source| is_selected(s, wanted);
    broadcast use Seq::lemma_filter_pred, Seq::lemma_filter_contains;

    let k = choose|k: int| 0 <= k < sources.len() && sources[k] == source;
    if selection(sources, wanted).contains(source) {
        let m = choose|m: int|
            0 <= m < selection(sources, wanted).len() && selection(sources, wanted)[m] == source;
        assert(pred(sources.filter(pred)[m]));
    } else {
        assert(!pred(sources[k]));
    }
    match source.tags.0 {
        Some(own) => {
            if is_selected(source, wanted) {
                let (i, j) = choose|i: int, j: int|
                    0 <= i < texts(own@).len() && 0 <= j < wanted.len() && texts(own@)[i]
                        == wanted[j];
                let tag = wanted[j];
                assert(own.deep_view()[i] == tag);
                assert(source.tags.names().contains(tag));
                assert(wanted.contains(tag));
            }
            if exists|tag: Seq<char>| source.tags.names().contains(tag) && wanted.contains(tag) {
                let tag = choose|tag: Seq<char>|
                    source.tags.names().contains(tag) && wanted.contains(tag);
                let i = choose|i: int| 0 <= i < own.deep_view().len() && own.deep_view()[i] == tag;
                let j = choose|j: int| 0 <= j < wanted.len() && wanted[j] == tag;
                assert(texts(own@)[i] == wanted[j]);
            }
        },
        None => {},
    }
}

fn shares_tag(own: &Vec<String>, wanted: &[String]) -> (r: bool)
    ensures
        r == any_shared(texts(own@), texts(wanted@)),
{
    let mut i: usize = 0;
    while i < own.len()
        invariant
            i <= own.len(),
            forall|k: int, j: int|
                0 <= k < i && 0 <= j < wanted@.len() ==> own@[k]@ != wanted@[j]@,
        decreases own.len() - i,
    {
        let mut j: usize = 0;
        while j < wanted.len()
            invariant
                i < own.len(),
                j <= wanted@.len(),
                forall|k: int, l: int|
                    0 <= k < i && 0 <= l < wanted@.len() ==> own@[k]@ != wanted@[l]@,
                forall|l: int| 0 <= l < j ==> own@[i as int]@ != wanted@[l]@,
            decreases wanted@.len() - j,
        {
            if own[i] == wanted[j] {
                assert(texts(own@)[i as int] == texts(wanted@)[j as int]);
                return true;
            }
            j = j + 1;
        }
        i = i + 1;
    }
    proof {
        if any_shared(texts(own@), texts(wanted@)) {
            let (k, l) = choose|k: int, l: int|
                0 <= k < texts(own@).len() && 0 <= l < texts(wanted@).len() && texts(own@)[k]
                    == texts(wanted@)[l];
            assert(own@[k]@ == wanted@[l]@);
        }
    }
    false
}

impl LqcliConfig {
    /// The sources that carry one of `tags`, in their configured order; all
    /// sources where `tags` is empty.
    pub fn filtered_sources(&self, tags: &[String]) -> (r: Vec<&Source>)
        ensures
            referents(r@) == selection(self.sources@, texts(tags@)),
    {
        let ghost wanted = texts(tags@);
        let ghost pred = |source: Source| is_selected(source, wanted);
        let mut r: Vec<&Source> = Vec::new();
        let mut i: usize = 0;
        while i < self.sources.len()
            invariant
                i <= self.sources.len(),
                wanted == texts(tags@),
                pred == (|source: Source| is_selected(source, wanted)),
                referents(r@) == self.sources@.take(i as int).filter(pred),
            decreases self.sources.len() - i,
        {
            let source = &self.sources[i];
            let keep = tags.len() == 0 || match &source.tags.0 {
                Some(own) => shares_tag(own, tags),
                None => false,
            };
            proof {
                reveal(Seq::filter);
                assert(self.sources@.take(i + 1).drop_last() =~= self.sources@.take(i as int));
                assert(keep == pred(*source));
            }
            if keep {
                r.push(source);
            }
            i = i + 1;
            assert(referents(r@) =~= self.sources@.take(i as int).filter(pred));
        }
        assert(self.sources@.take(i as int) =~= self.sources@);
        r
    }
}

} // verus!
