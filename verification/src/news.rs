//! The news sentiment model: a feed of articles, each with topics and
//! per-ticker sentiment.  Every field is display-only text; the feed keeps
//! the order the source returned and is never re-sorted locally.

use vstd::prelude::*;

verus! {

/// One topic attached to a news item, with its relevance as decimal text.
#[derive(Clone, Debug)]
pub struct Topic {
    pub topic: String,
    pub relevance_score: String,
}

/// Per-ticker sentiment of a news item; all four fields arrive as text and
/// stay text, since they are displayed and never computed upon.
#[derive(Clone, Debug)]
pub struct TickerSentiment {
    pub ticker: String,
    pub relevance_score: String,
    pub ticker_sentiment_score: String,
    pub ticker_sentiment_label: String,
}

/// One news article entry with its sentiment metadata.  The overall
/// sentiment score is kept as the decimal text the source sent; it is
/// display-only and is never read numerically here.
#[derive(Clone, Debug)]
pub struct FeedItem {
    pub title: String,
    pub url: String,
    pub time_published: String,
    pub authors: Vec<String>,
    pub summary: String,
    pub banner_image: String,
    pub source: String,
    pub category_within_source: String,
    pub source_domain: String,
    pub topics: Vec<Topic>,
    pub overall_sentiment_score: String,
    pub overall_sentiment_label: String,
    pub ticker_sentiment: Vec<TickerSentiment>,
}

/// A news feed: the header strings and the ordered feed items, owned
/// exclusively.
#[derive(Clone, Debug)]
pub struct News {
    pub items: String,
    pub sentiment_score_definition: String,
    pub relevance_score_definition: String,
    pub feed: Vec<FeedItem>,
}

} // verus!
