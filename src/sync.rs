//! The decisions of a synchronisation run: which items of a source are new,
//! which are already published, and which cannot be used.
use vstd::prelude::*;

use crate::config::texts;
use crate::source::{item_views, ContentType, Feed, SourceError, SourceItem, SourceItemView};

verus! {

/// How many of a feed's first items a run looks at.
pub const RECENT_ITEMS: usize = 5;

/// What a run does with one item, as mathematical values.
pub enum ItemOutcomeView {
    MissingTitle,
    Duplicate(Seq<char>),
    MissingLink(Seq<char>),
    Linked(Seq<char>, Seq<char>),
}

/// What a run does with one item.
#[derive(Debug)]
pub enum ItemOutcome {
    /// The item has no title, so it cannot be published; it is skipped.
    MissingTitle,
    /// The catalog already holds a lesson of this title; it is skipped.
    Duplicate(String),
    /// The item is new but has no audio link; it is skipped.
    MissingLink(String),
    /// The item is new and its audio is at `link`; it is handed on.
    Linked { title: String, link: String },
}

impl View for ItemOutcome {
    type V = ItemOutcomeView;

    open spec fn view(&self) -> ItemOutcomeView {
        match self {
            ItemOutcome::MissingTitle => ItemOutcomeView::MissingTitle,
            ItemOutcome::Duplicate(title) => ItemOutcomeView::Duplicate(title@),
            ItemOutcome::MissingLink(title) => ItemOutcomeView::MissingLink(title@),
            ItemOutcome::Linked { title, link } => ItemOutcomeView::Linked(title@, link@),
        }
    }
}

/// What a run does with an item, given the titles the catalog held when the
/// source's run began: an untitled item fails, a known title is skipped, and
/// a new title is linked where the content type finds a link.
pub open spec fn classify(
    item: SourceItemView,
    content_type: ContentType,
    existing: Seq<Seq<char>>,
) -> ItemOutcomeView {
    match item.title() {
        None => ItemOutcomeView::MissingTitle,
        Some(title) => if existing.contains(title) {
            ItemOutcomeView::Duplicate(title)
        } else {
            match content_type.link_for(item) {
                Some(link) => ItemOutcomeView::Linked(title, link),
                None => ItemOutcomeView::MissingLink(title),
            }
        },
    }
}

/// Dedup depends on the item's title and the snapshot alone: an item whose
/// title is in the snapshot is skipped as a duplicate, and one whose title is
/// not is never taken for one.
pub proof fn lemma_dedup_by_snapshot(
    item: SourceItemView,
    content_type: ContentType,
    existing: Seq<Seq<char>>,
)
    ensures
        match item.title() {
            Some(title) => {
                &&& existing.contains(title) ==> classify(item, content_type, existing)
                    == ItemOutcomeView::Duplicate(title)
                &&& !existing.contains(title) ==> !(classify(
                    item,
                    content_type,
                    existing,
                ) is Duplicate)
            },
            None => !(classify(item, content_type, existing) is Duplicate),
        },
{
}

/// Where the catalog could not be read, the snapshot is empty and no item is
/// skipped as a duplicate.
pub proof fn lemma_unread_catalog_skips_nothing(item: SourceItemView, content_type: ContentType)
    ensures
        !(classify(item, content_type, Seq::empty()) is Duplicate),
{
}

/// Whether `title` is among the published titles: exact, case-sensitive
/// comparison.
pub fn is_duplicate(title: &String, existing: &Vec<String>) -> (r: bool)
    ensures
        r == texts(existing@).contains(title@),
{
    let mut i: usize = 0;
    while i < existing.len()
        invariant
            i <= existing.len(),
            forall|k: int| 0 <= k < i ==> existing@[k]@ != title@,
        decreases existing.len() - i,
    {
        if existing[i] == *title {
            assert(texts(existing@)[i as int] == title@);
            return true;
        }
        i = i + 1;
    }
    false
}

/// The dedup snapshot of a source: the titles the catalog returned, or none
/// where the catalog could not be read, so that the run goes on as though
/// nothing were published yet.
pub fn existing_titles(fetched: Result<Vec<String>, SourceError>) -> (r: Vec<String>)
    ensures
        texts(r@) == match fetched {
            Ok(titles) => texts(titles@),
            Err(_) => Seq::empty(),
        },
{
    match fetched {
        Ok(titles) => titles,
        Err(_) => {
            let r: Vec<String> = Vec::new();
            assert(texts(r@) =~= Seq::empty());
            r
        },
    }
}

/// Decides what to do with one item.
pub fn classify_item(
    item: &SourceItem,
    content_type: ContentType,
    existing: &Vec<String>,
) -> (r: ItemOutcome)
    ensures
        r@ == classify(item@, content_type, texts(existing@)),
{
    match item.title() {
        None => ItemOutcome::MissingTitle,
        Some(title) => {
            if is_duplicate(&title, existing) {
                ItemOutcome::Duplicate(title)
            } else {
                match content_type.audio_link(item) {
                    Some(link) => ItemOutcome::Linked { title, link },
                    None => ItemOutcome::MissingLink(title),
                }
            }
        },
    }
}

/// What a run did with one source.
#[derive(Debug)]
pub enum SourceReport {
    /// The feed could not be fetched or parsed; no item was looked at.
    FeedFailed(SourceError),
    /// The outcome of each of the feed's recent items, in feed order.
    Processed(Vec<ItemOutcome>),
}

/// Whether `outcomes` are those of the first `RECENT_ITEMS` items of `items`,
/// one for each, in order.
pub open spec fn plans_items(
    outcomes: Seq<ItemOutcome>,
    items: Seq<SourceItemView>,
    content_type: ContentType,
    existing: Seq<Seq<char>>,
) -> bool {
    &&& outcomes.len() == if items.len() < RECENT_ITEMS { items.len() as int } else {
        RECENT_ITEMS as int
    }
    &&& forall|i: int|
        0 <= i < outcomes.len() ==> #[trigger] outcomes[i]@ == classify(
            items[i],
            content_type,
            existing,
        )
}

/// Plans the run of one source from the titles its catalog course held when
/// the run began and from the result of resolving its feed: a feed that could
/// not be resolved ends the source's run, else each recent item is decided
/// against that snapshot alone.
pub fn plan_source(
    content_type: ContentType,
    existing: &Vec<String>,
    feed: Result<Feed, SourceError>,
) -> (r: SourceReport)
    ensures
        match feed {
            Err(e) => r == SourceReport::FeedFailed(e),
            Ok(f) => r matches SourceReport::Processed(outcomes) && plans_items(
                outcomes@,
                f@,
                content_type,
                texts(existing@),
            ),
        },
{
    match feed {
        Err(e) => SourceReport::FeedFailed(e),
        Ok(f) => {
            let items = f.items(RECENT_ITEMS);
            let mut outcomes: Vec<ItemOutcome> = Vec::new();
            let mut i: usize = 0;
            while i < items.len()
                invariant
                    i <= items.len(),
                    outcomes@.len() == i,
                    items@.len() <= f@.len(),
                    items@.len() == if RECENT_ITEMS < f@.len() { RECENT_ITEMS as int } else { f@.len() as int },
                    item_views(items@) == f@.take(items@.len() as int),
                    forall|k: int|
                        0 <= k < i ==> #[trigger] outcomes@[k]@ == classify(
                            f@[k],
                            content_type,
                            texts(existing@),
                        ),
                decreases items.len() - i,
            {
                let outcome = classify_item(&items[i], content_type, existing);
                assert(item_views(items@)[i as int] == f@[i as int]);
                outcomes.push(outcome);
                i = i + 1;
            }
            SourceReport::Processed(outcomes)
        },
    }
}

} // verus!
