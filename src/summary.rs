//! Things that can be summarized in a line, and announcements of them.
use vstd::prelude::*;
use vstd::string::StringExecFns;

verus! {

/// A type whose values have a one-line summary.
pub trait Summary {
    /// The summary, as text.
    spec fn summary_of(&self) -> Seq<char>;

    fn summerize(&self) -> (r: String)
        ensures
            r@ == self.summary_of(),
    ;
}

pub struct NewsArticle {
    pub headline: String,
    pub location: String,
    pub author: String,
    pub content: String,
}

pub struct Tweet {
    pub username: String,
    pub content: String,
    pub reply: bool,
    pub retweet: bool,
}

impl Summary for NewsArticle {
    /// `<headline>, by <author> (<location>)`.
    open spec fn summary_of(&self) -> Seq<char> {
        self.headline@ + ", by "@ + self.author@ + " ("@ + self.location@ + ")"@
    }

    fn summerize(&self) -> (r: String) {
        let mut r = self.headline.clone();
        r.append(", by ");
        r.append(self.author.as_str());
        r.append(" (");
        r.append(self.location.as_str());
        r.append(")");
        r
    }
}

impl Summary for Tweet {
    /// `<username>: <content>`.
    open spec fn summary_of(&self) -> Seq<char> {
        self.username@ + ": "@ + self.content@
    }

    fn summerize(&self) -> (r: String) {
        let mut r = self.username.clone();
        r.append(": ");
        r.append(self.content.as_str());
        r
    }
}

/// The announcement of `item`: `Breaking news! <summary>`.
pub fn notify<T: Summary>(item: &T) -> (r: String)
    ensures
        r@ == "Breaking news! "@ + item.summary_of(),
{
    let mut r = String::from_str("Breaking news! ");
    let s = item.summerize();
    r.append(s.as_str());
    r
}

} // verus!
