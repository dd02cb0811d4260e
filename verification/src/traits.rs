//! A capability interface: one required operation whose meaning each
//! adopting type states for itself, and one operation with a default body.
//! Callers that accept "any type offering this capability" learn, from the
//! contract alone, that the concrete type's own override answers.

use vstd::prelude::*;

verus! {

/// A capability for producing a one-line summary.  `summary_spec` is the
/// meaning each adopting type gives to its override of `summarize`, so a
/// caller typed only by the capability still knows exactly which text the
/// concrete type answers with — never the default's.
pub trait Summary {
    /// The summary text this type promises to produce.
    spec fn summary_spec(&self) -> Seq<char>;

    /// The required operation: each adopting type's own summary.
    fn summarize(&self) -> (r: String)
        ensures
            r@ == self.summary_spec(),
    ;

    /// The operation with a default body, which answers a fixed phrase
    /// whenever the adopting type does not override it.
    fn summarize_default(&self) -> (r: String)
        default_ensures
            r@ == "(Read more...)"@,
    {
        String::from_str("(Read more...)")
    }
}

/// A news article, summarized by headline, author and location.
pub struct NewsArticle {
    pub headline: String,
    pub location: String,
    pub author: String,
    pub content: String,
}

impl Summary for NewsArticle {
    open spec fn summary_spec(&self) -> Seq<char> {
        self.headline@ + ", by "@ + self.author@ + " ("@ + self.location@ + ")"@
    }

    fn summarize(&self) -> (r: String) {
        let r = self.headline.clone();
        let r = r.concat(", by ");
        let r = r.concat(self.author.as_str());
        let r = r.concat(" (");
        let r = r.concat(self.location.as_str());
        let r = r.concat(")");
        r
    }
}

/// A short post, summarized by its author and text.
pub struct Tweet {
    pub username: String,
    pub content: String,
    pub reply: bool,
    pub retweet: bool,
}

impl Summary for Tweet {
    open spec fn summary_spec(&self) -> Seq<char> {
        self.username@ + ": "@ + self.content@
    }

    fn summarize(&self) -> (r: String) {
        let r = self.username.clone();
        let r = r.concat(": ");
        let r = r.concat(self.content.as_str());
        r
    }
}

/// Accepts any type offering the capability (inline constraint) and asks it
/// to summarize itself: the answer is the concrete type's own summary.
pub fn notify<T: Summary>(item: &T) -> (r: String)
    ensures
        r@ == item.summary_spec(),
{
    item.summarize()
}

/// The same acceptance written as an explicit bound; the answer is again
/// the concrete type's own summary, never the default phrase.
pub fn notify_trait_bound<T: Summary>(item: &T) -> (r: String)
    ensures
        r@ == item.summary_spec(),
{
    item.summarize()
}

/// Returns some type offering the capability without naming it in the
/// contract beyond its summary.
pub fn returns_summarizable() -> (t: Tweet)
    ensures
        t.summary_spec() == "horse_ebooks"@ + ": "@
            + "of course, as you probably already know, people"@,
{
    Tweet {
        username: String::from_str("horse_ebooks"),
        content: String::from_str("of course, as you probably already know, people"),
        reply: false,
        retweet: false,
    }
}

} // verus!
