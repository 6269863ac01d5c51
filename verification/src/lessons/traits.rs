//! Traits lesson: shared behavior with a default method, and two types
//! implementing it.

use vstd::prelude::*;

verus! {

/// Behavior shared by summarizable items. `summarize` has a default
/// body; `summarize_author` must be provided, and its text is pinned by
/// the implementing type's `spec_summarize_author`.
pub trait Summary {
    /// What the implementing type's `summarize_author` returns.
    spec fn spec_summarize_author(&self) -> Seq<char>;

    /// A summary line; the default body is a fixed teaser.
    fn summarize(&self) -> (r: String)
        default_ensures
            r@ == "(Read more...)"@,
    {
        "(Read more...)".to_owned()
    }

    /// An attribution line.
    fn summarize_author(&self) -> (r: String)
        ensures
            r@ == self.spec_summarize_author(),
    ;
}

/// Rendering behavior, distinct from the standard formatting machinery.
pub trait Display {
    /// What the implementing type's `display` returns.
    spec fn spec_display(&self) -> Seq<char>;

    /// A display line.
    fn display(&self) -> (r: String)
        ensures
            r@ == self.spec_display(),
    ;
}

/// A news article with its provenance.
pub struct NewsArticle {
    pub headline: String,
    pub location: String,
    pub author: String,
    pub content: String,
}

/// A short post by one user.
pub struct Tweet {
    pub username: String,
    pub content: String,
    pub reply: bool,
    pub retweet: bool,
}

impl Summary for NewsArticle {
    open spec fn spec_summarize_author(&self) -> Seq<char> {
        "@"@ + self.author@
    }

    /// Headline, author, and location.
    fn summarize(&self) -> (r: String)
        ensures
            r@ == self.headline@ + ", by "@ + self.author@ + " ("@ + self.location@ + ")"@,
    {
        let mut r = self.headline.clone();
        r.append(", by ");
        r.append(self.author.as_str());
        r.append(" (");
        r.append(self.location.as_str());
        r.append(")");
        r
    }

    fn summarize_author(&self) -> (r: String) {
        let mut r = "@".to_owned();
        r.append(self.author.as_str());
        r
    }
}

impl Summary for Tweet {
    open spec fn spec_summarize_author(&self) -> Seq<char> {
        "@"@ + self.username@
    }

    /// User name and content.
    fn summarize(&self) -> (r: String)
        ensures
            r@ == self.username@ + ": "@ + self.content@,
    {
        let mut r = self.username.clone();
        r.append(": ");
        r.append(self.content.as_str());
        r
    }

    fn summarize_author(&self) -> (r: String) {
        let mut r = "@".to_owned();
        r.append(self.username.as_str());
        r
    }
}

impl Display for Tweet {
    open spec fn spec_display(&self) -> Seq<char> {
        "Tweet by "@ + self.username@ + ": "@ + self.content@
    }

    fn display(&self) -> (r: String) {
        let mut r = "Tweet by ".to_owned();
        r.append(self.username.as_str());
        r.append(": ");
        r.append(self.content.as_str());
        r
    }
}

/// A post that relies on the trait's default summary.
pub struct BlogPost {
    pub title: String,
    pub author: String,
}

impl Summary for BlogPost {
    open spec fn spec_summarize_author(&self) -> Seq<char> {
        "@"@ + self.author@
    }

    fn summarize_author(&self) -> (r: String) {
        let mut r = "@".to_owned();
        r.append(self.author.as_str());
        r
    }
}

/// A ready-made summarizable value.
pub fn returns_summarizable() -> (r: Tweet)
    ensures
        r.username@ == "horse_ebooks"@,
        r.content@ == "content"@,
        !r.reply,
        !r.retweet,
{
    Tweet {
        username: "horse_ebooks".to_owned(),
        content: "content".to_owned(),
        reply: false,
        retweet: false,
    }
}

} // verus!
