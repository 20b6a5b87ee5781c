//! Sources, the items of their feeds, and how an item's audio link is found.
use vstd::prelude::*;

use crate::fetch::DownloadMethod;

verus! {

pub const DEFAULT_CONTENT_TYPE: ContentType = ContentType::Syndication;

pub const DEFAULT_DOWNLOAD_METHOD: DownloadMethod = DownloadMethod::YtDlp;

pub const DEFAULT_TRANSCRIPT_VIA: &'static str = "openai";

/// The tags of a source, by which sources are grouped; a source may have
/// none at all.
pub struct Tags(pub Option<Vec<String>>);

/// The texts in `parts`, with `separator` between each two of them.
pub open spec fn join_texts(parts: Seq<Seq<char>>, separator: Seq<char>) -> Seq<char>
    decreases parts.len(),
{
    if parts.len() == 0 {
        Seq::empty()
    } else if parts.len() == 1 {
        parts[0]
    } else {
        join_texts(parts.drop_last(), separator) + separator + parts.last()
    }
}

impl Tags {
    /// The tags as a set of texts; empty where the source has none.
    pub open spec fn names(self) -> Set<Seq<char>> {
        match self.0 {
            Some(tags) => tags.deep_view().to_set(),
            None => Set::empty(),
        }
    }

    /// The tags separated by commas, as a table shows them; empty where the
    /// source has none.
    pub fn joined(&self) -> (r: String)
        ensures
            r@ == match self.0 {
                Some(tags) => join_texts(tags.deep_view(), ", "@),
                None => Seq::empty(),
            },
    {
        let separator = ", ";
        let mut r = String::new();
        if let Some(tags) = &self.0 {
            let mut i: usize = 0;
            while i < tags.len()
                invariant
                    i <= tags.len(),
                    r@ == join_texts(tags.deep_view().take(i as int), separator@),
                decreases tags.len() - i,
            {
                let ghost before = tags.deep_view().take(i as int);
                if i > 0 {
                    r.append(separator);
                }
                r.append(tags[i].as_str());
                i = i + 1;
                proof {
                    let after = tags.deep_view().take(i as int);
                    assert(after.drop_last() =~= before);
                    assert(after.last() == tags@[i - 1]@);
                    if i == 1 {
                        assert(before.len() == 0);
                    }
                }
            }
            assert(tags.deep_view().take(i as int) =~= tags.deep_view());
        }
        r
    }
}

/// A configured origin of content.
pub struct Source {
    /// How the audio of this source's items is found.
    pub content_type: ContentType,
    /// How the audio behind a found link is downloaded.
    pub download_method: DownloadMethod,
    /// The URL of the feed or page to read.
    pub url: String,
    /// The name shown for the source.
    pub name: String,
    /// The prompt for post-processing this source's transcripts, where it
    /// differs from the configured default.
    pub postprocessing_prompt: Option<String>,
    /// The catalog course that this source's lessons go to.
    pub course_id: u64,
    /// The two-letter code of the content's language.
    pub language: String,
    pub tags: Tags,
    /// Where transcripts come from, such as "openai" or "lingq".
    pub transcript_via: String,
}

/// How the audio of a source's items is found.
#[derive(Clone, Copy, Debug, PartialEq, Eq, Structural)]
pub enum ContentType {
    /// The content comes from some kind of syndication feed (RSS or Atom):
    /// an RSS item's audio is its enclosure, an Atom entry's its first link.
    Syndication,
}

impl ContentType {
    /// The link that this content type finds for an item, if any.
    pub open spec fn link_for(self, item: SourceItemView) -> Option<Seq<char>> {
        match self {
            ContentType::Syndication => item.audio_link(),
        }
    }

    /// Finds an item's audio link; an item without one gives `None`.
    pub fn audio_link(&self, item: &SourceItem) -> (r: Option<String>)
        ensures
            r.deep_view() == self.link_for(item@),
    {
        match self {
            ContentType::Syndication => item.get_audio_link(),
        }
    }

    /// How the content type is shown to users.
    pub fn label(&self) -> (r: &'static str)
        ensures
            r@ == "Syndication Feed"@,
    {
        match self {
            ContentType::Syndication => "Syndication Feed",
        }
    }
}

pub fn default_content_type() -> (r: ContentType)
    ensures
        r == DEFAULT_CONTENT_TYPE,
{
    DEFAULT_CONTENT_TYPE
}

pub fn default_download_method() -> (r: DownloadMethod)
    ensures
        r == DEFAULT_DOWNLOAD_METHOD,
{
    DEFAULT_DOWNLOAD_METHOD
}

pub fn default_transcript_via() -> (r: String)
    ensures
        r@ == DEFAULT_TRANSCRIPT_VIA@,
{
    DEFAULT_TRANSCRIPT_VIA.to_owned()
}

/// An entry of an RSS channel, reduced to what the pipeline reads.
#[derive(Debug)]
pub struct RssItem {
    pub title: Option<String>,
    /// The URL of the item's media enclosure, if it has one.
    pub enclosure_url: Option<String>,
}

/// An entry of an Atom feed, reduced to what the pipeline reads.
#[derive(Debug)]
pub struct AtomEntry {
    pub title: String,
    /// The `href` of each of the entry's links, in document order.
    pub links: Vec<String>,
}

impl View for RssItem {
    type V = (Option<Seq<char>>, Option<Seq<char>>);

    open spec fn view(&self) -> Self::V {
        (self.title.deep_view(), self.enclosure_url.deep_view())
    }
}

impl View for AtomEntry {
    type V = (Seq<char>, Seq<Seq<char>>);

    open spec fn view(&self) -> Self::V {
        (self.title@, self.links.deep_view())
    }
}

/// A link to an audio file given by hand, with its title.
#[derive(Debug)]
pub struct StaticItem {
    pub url: String,
    pub title: String,
}

/// One candidate piece of content, tagged by where it came from.
#[derive(Debug)]
pub enum SourceItem {
    Rss(RssItem),
    Atom(AtomEntry),
    /// Just a static link to an audio file somewhere.
    Static(StaticItem),
}

/// What an item holds, as mathematical values.
#[allow(inconsistent_fields)]
pub enum SourceItemView {
    Rss { title: Option<Seq<char>>, enclosure_url: Option<Seq<char>> },
    Atom { title: Seq<char>, links: Seq<Seq<char>> },
    Static { url: Seq<char>, title: Seq<char> },
}

impl SourceItemView {
    /// The item's title, if it has one.
    pub open spec fn title(self) -> Option<Seq<char>> {
        match self {
            SourceItemView::Rss { title, .. } => title,
            SourceItemView::Atom { title, .. } => Some(title),
            SourceItemView::Static { title, .. } => Some(title),
        }
    }

    /// The item's audio link: an RSS item's enclosure, an Atom entry's first
    /// link, or the URL a static item was made with.
    pub open spec fn audio_link(self) -> Option<Seq<char>> {
        match self {
            SourceItemView::Rss { enclosure_url, .. } => enclosure_url,
            SourceItemView::Atom { links, .. } => if links.len() > 0 {
                Some(links[0])
            } else {
                None
            },
            SourceItemView::Static { url, .. } => Some(url),
        }
    }
}

impl View for SourceItem {
    type V = SourceItemView;

    open spec fn view(&self) -> SourceItemView {
        match self {
            SourceItem::Rss(item) => SourceItemView::Rss {
                title: item@.0,
                enclosure_url: item@.1,
            },
            SourceItem::Atom(entry) => SourceItemView::Atom { title: entry@.0, links: entry@.1 },
            SourceItem::Static(item) => SourceItemView::Static { url: item.url@, title: item.title@ },
        }
    }
}

/// The views of a sequence of items.
pub open spec fn item_views(items: Seq<SourceItem>) -> Seq<SourceItemView> {
    items.map_values(|item: SourceItem| item@)
}

fn clone_optional_text(text: &Option<String>) -> (r: Option<String>)
    ensures
        r.deep_view() == text.deep_view(),
{
    match text {
        Some(value) => Some(value.clone()),
        None => None,
    }
}

fn clone_texts(texts: &Vec<String>) -> (r: Vec<String>)
    ensures
        r.deep_view() == texts.deep_view(),
{
    let mut r: Vec<String> = Vec::new();
    let mut i: usize = 0;
    while i < texts.len()
        invariant
            i <= texts.len(),
            r@.len() == i,
            forall|j: int| 0 <= j < i ==> #[trigger] r@[j]@ == texts@[j]@,
        decreases texts.len() - i,
    {
        r.push(texts[i].clone());
        i = i + 1;
    }
    assert(r.deep_view() =~= texts.deep_view());
    r
}

impl RssItem {
    fn duplicate(&self) -> (r: RssItem)
        ensures
            r@ == self@,
    {
        RssItem {
            title: clone_optional_text(&self.title),
            enclosure_url: clone_optional_text(&self.enclosure_url),
        }
    }
}

impl AtomEntry {
    fn duplicate(&self) -> (r: AtomEntry)
        ensures
            r@ == self@,
    {
        AtomEntry { title: self.title.clone(), links: clone_texts(&self.links) }
    }
}

impl SourceItem {
    /// An item for a link given by hand.
    pub fn from_url_and_title(url: &str, title: &str) -> (r: Self)
        ensures
            r@ == (SourceItemView::Static { url: url@, title: title@ }),
    {
        SourceItem::Static(StaticItem { url: url.to_owned(), title: title.to_owned() })
    }

    /// The item's audio link, if it has one; never fails.
    pub fn get_audio_link(&self) -> (r: Option<String>)
        ensures
            r.deep_view() == self@.audio_link(),
    {
        match self {
            SourceItem::Rss(item) => clone_optional_text(&item.enclosure_url),
            SourceItem::Atom(entry) => if entry.links.len() > 0 {
                Some(entry.links[0].clone())
            } else {
                None
            },
            SourceItem::Static(item) => Some(item.url.clone()),
        }
    }

    /// The item's title, if it has one.
    pub fn title(&self) -> (r: Option<String>)
        ensures
            r.deep_view() == self@.title(),
    {
        match self {
            SourceItem::Rss(item) => clone_optional_text(&item.title),
            SourceItem::Atom(entry) => Some(entry.title.clone()),
            SourceItem::Static(item) => Some(item.title.clone()),
        }
    }
}

/// Why a source could not be read.
#[derive(Debug)]
pub enum SourceError {
    /// The feed or the catalog could not be reached.
    FetchError(String),
    /// The bytes fetched match no supported feed format.
    ParseError(String),
    /// The download tool failed, or its output could not be read.
    AudioDownloadError(String),
}

impl SourceError {
    /// A description of the error for users.
    pub fn message(&self) -> (r: String)
        ensures
            r@ == match self {
                SourceError::FetchError(detail) => "Fetch error: "@ + detail@,
                SourceError::ParseError(detail) => "Parse error: "@ + detail@,
                SourceError::AudioDownloadError(detail) => "Audio download error: "@ + detail@,
            },
    {
        match self {
            SourceError::FetchError(detail) => {
                let mut r = "Fetch error: ".to_owned();
                r.append(detail.as_str());
                r
            },
            SourceError::ParseError(detail) => {
                let mut r = "Parse error: ".to_owned();
                r.append(detail.as_str());
                r
            },
            SourceError::AudioDownloadError(detail) => {
                let mut r = "Audio download error: ".to_owned();
                r.append(detail.as_str());
                r
            },
        }
    }
}

/// The reason given when content is neither RSS nor Atom.
pub const UNPARSABLE_FEED: &'static str = "could not parse as any supported feed format";

/// The items, as titles and enclosure URLs, of the RSS channel that
/// `rss::Channel::read_from` decodes from `content`; `None` where it fails.
pub uninterp spec fn rss_items_of(content: Seq<u8>) -> Option<Seq<(Option<Seq<char>>, Option<Seq<char>>)>>;

/// The entries, as titles and link targets, of the Atom feed that
/// `atom_syndication::Feed::read_from` decodes from `content`; `None` where
/// it fails.
pub uninterp spec fn atom_entries_of(content: Seq<u8>) -> Option<Seq<(Seq<char>, Seq<Seq<char>>)>>;

/// The views of a sequence of RSS items.
pub open spec fn rss_views(items: Seq<RssItem>) -> Seq<(Option<Seq<char>>, Option<Seq<char>>)> {
    items.map_values(|item: RssItem| item@)
}

/// The views of a sequence of Atom entries.
pub open spec fn atom_views(entries: Seq<AtomEntry>) -> Seq<(Seq<char>, Seq<Seq<char>>)> {
    entries.map_values(|entry: AtomEntry| entry@)
}

/// The views of the items that an RSS decoding gave, if it succeeded.
pub open spec fn rss_items_view(r: Option<Vec<RssItem>>) -> Option<Seq<(Option<Seq<char>>, Option<Seq<char>>)>> {
    match r {
        Some(items) => Some(rss_views(items@)),
        None => None,
    }
}

/// The views of the entries that an Atom decoding gave, if it succeeded.
pub open spec fn atom_entries_view(r: Option<Vec<AtomEntry>>) -> Option<Seq<(Seq<char>, Seq<Seq<char>>)>> {
    match r {
        Some(entries) => Some(atom_views(entries@)),
        None => None,
    }
}

/// Relies on `rss::Channel::read_from`: decodes an RSS document, whose items
/// are kept in document order with their title and enclosure URL.
#[verifier::external_body]
fn read_rss(content: &[u8]) -> (r: Option<Vec<RssItem>>)
    ensures
        rss_items_view(r) == rss_items_of(content@),
{
    rss::Channel::read_from(content).ok().map(|channel| {
        channel.items.iter().map(|item| RssItem {
            title: item.title.clone(),
            enclosure_url: item.enclosure.as_ref().map(|enclosure| enclosure.url.clone()),
        }).collect()
    })
}

/// Relies on `atom_syndication::Feed::read_from`: decodes an Atom document,
/// whose entries are kept in document order with their title and the `href`
/// of each link.
#[verifier::external_body]
fn read_atom(content: &[u8]) -> (r: Option<Vec<AtomEntry>>)
    ensures
        atom_entries_view(r) == atom_entries_of(content@),
{
    atom_syndication::Feed::read_from(content).ok().map(|feed| {
        feed.entries().iter().map(|entry| AtomEntry {
            title: entry.title().value.clone(),
            links: entry.links().iter().map(|link| link.href().to_string()).collect(),
        }).collect()
    })
}

/// The entries decoded from one fetch of a source, tagged by the format that
/// decoded them.
#[derive(Debug)]
pub enum Feed {
    Rss(Vec<RssItem>),
    Atom(Vec<AtomEntry>),
}

/// Whether `r` is the feed given by what each format decoded: RSS where it
/// decoded, else Atom where it decoded, else a parse error.
pub open spec fn decodes_to(
    rss: Option<Seq<(Option<Seq<char>>, Option<Seq<char>>)>>,
    atom: Option<Seq<(Seq<char>, Seq<Seq<char>>)>>,
    r: Result<Feed, SourceError>,
) -> bool {
    match rss {
        Some(items) => r matches Ok(Feed::Rss(v)) && rss_views(v@) == items,
        None => match atom {
            Some(entries) => r matches Ok(Feed::Atom(v)) && atom_views(v@) == entries,
            None => r matches Err(SourceError::ParseError(reason)) && reason@ == UNPARSABLE_FEED@,
        },
    }
}

/// What parsing `content` gives: RSS where it decodes as RSS, else Atom
/// where it decodes as Atom, else a parse error.
pub open spec fn parse_outcome(content: Seq<u8>, r: Result<Feed, SourceError>) -> bool {
    decodes_to(rss_items_of(content), atom_entries_of(content), r)
}

impl View for Feed {
    type V = Seq<SourceItemView>;

    /// The feed's entries as items, in feed order.
    open spec fn view(&self) -> Seq<SourceItemView> {
        match self {
            Feed::Rss(items) => items@.map_values(|item: RssItem| SourceItem::Rss(item)@),
            Feed::Atom(entries) => entries@.map_values(|entry: AtomEntry| SourceItem::Atom(entry)@),
        }
    }
}

/// The titles of a sequence of items, in order.
pub open spec fn titles(items: Seq<SourceItemView>) -> Seq<Option<Seq<char>>> {
    items.map_values(|item: SourceItemView| item.title())
}

/// The audio links of a sequence of items, in order.
pub open spec fn audio_links(items: Seq<SourceItemView>) -> Seq<Option<Seq<char>>> {
    items.map_values(|item: SourceItemView| item.audio_link())
}

/// Parsing depends on the content alone: two parses of the same bytes both
/// succeed or both fail, and give the same items, hence the same titles and
/// links in the same order.
pub proof fn lemma_parse_repeatable(
    content: Seq<u8>,
    first: Result<Feed, SourceError>,
    second: Result<Feed, SourceError>,
)
    requires
        parse_outcome(content, first),
        parse_outcome(content, second),
    ensures
        first is Ok <==> second is Ok,
        first is Ok ==> first->Ok_0@ == second->Ok_0@,
        first is Ok ==> titles(first->Ok_0@) == titles(second->Ok_0@),
        first is Ok ==> audio_links(first->Ok_0@) == audio_links(second->Ok_0@),
{
    match (first, second) {
        (Ok(Feed::Rss(a)), Ok(Feed::Rss(b))) => {
            assert(rss_views(a@) == rss_views(b@));
            assert(a@.len() == b@.len());
            assert forall|k: int| 0 <= k < a@.len() implies a@[k]@ == b@[k]@ by {
                assert(rss_views(a@)[k] == a@[k]@);
                assert(rss_views(b@)[k] == b@[k]@);
            }
            assert(first->Ok_0@ =~= second->Ok_0@);
        },
        (Ok(Feed::Atom(a)), Ok(Feed::Atom(b))) => {
            assert(atom_views(a@) == atom_views(b@));
            assert(a@.len() == b@.len());
            assert forall|k: int| 0 <= k < a@.len() implies a@[k]@ == b@[k]@ by {
                assert(atom_views(a@)[k] == a@[k]@);
                assert(atom_views(b@)[k] == b@[k]@);
            }
            assert(first->Ok_0@ =~= second->Ok_0@);
        },
        _ => {},
    }
}

impl Feed {
    /// The feed given by what each format decoded, RSS taking precedence.
    pub fn from_decoded(rss: Option<Vec<RssItem>>, atom: Option<Vec<AtomEntry>>) -> (r: Result<
        Feed,
        SourceError,
    >)
        ensures
            decodes_to(rss_items_view(rss), atom_entries_view(atom), r),
    {
        match rss {
            Some(items) => Ok(Feed::Rss(items)),
            None => match atom {
                Some(entries) => Ok(Feed::Atom(entries)),
                None => Err(SourceError::ParseError(UNPARSABLE_FEED.to_owned())),
            },
        }
    }

    /// Decodes fetched content, trying RSS first and Atom only where RSS
    /// fails.
    pub fn parse(content: &[u8]) -> (r: Result<Feed, SourceError>)
        ensures
            parse_outcome(content@, r),
    {
        match read_rss(content) {
            Some(items) => Feed::from_decoded(Some(items), None),
            None => Feed::from_decoded(None, read_atom(content)),
        }
    }

    /// The first `count` entries, in feed order; all of them where the feed
    /// has fewer.
    pub fn items(&self, count: usize) -> (r: Vec<SourceItem>)
        ensures
            r@.len() == if count < self@.len() { count as int } else { self@.len() as int },
            item_views(r@) == self@.take(r@.len() as int),
    {
        let mut r: Vec<SourceItem> = Vec::new();
        let mut i: usize = 0;
        match self {
            Feed::Rss(items) => {
                while i < count && i < items.len()
                    invariant
                        i <= items.len(),
                        i <= count,
                        r@.len() == i,
                        item_views(r@) == self@.take(i as int),
                        self@ == items@.map_values(|item: RssItem| SourceItem::Rss(item)@),
                    decreases items.len() - i,
                {
                    r.push(SourceItem::Rss(items[i].duplicate()));
                    i = i + 1;
                    assert(item_views(r@) =~= self@.take(i as int));
                }
            },
            Feed::Atom(entries) => {
                while i < count && i < entries.len()
                    invariant
                        i <= entries.len(),
                        i <= count,
                        r@.len() == i,
                        item_views(r@) == self@.take(i as int),
                        self@ == entries@.map_values(|entry: AtomEntry| SourceItem::Atom(entry)@),
                    decreases entries.len() - i,
                {
                    r.push(SourceItem::Atom(entries[i].duplicate()));
                    i = i + 1;
                    assert(item_views(r@) =~= self@.take(i as int));
                }
            },
        }
        r
    }
}

} // verus!
