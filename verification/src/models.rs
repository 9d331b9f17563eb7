//! The documents of the reading list, the pages they arrive in, and the rules
//! by which a field that is missing or malformed on the wire is defaulted.

use crate::timestamp::{date_instant, datetime_instant, Instant, Timestamp};
use crate::timestamp::{valid_instant, MAX_EPOCH_SECONDS, MIN_EPOCH_SECONDS};
use vstd::prelude::*;
use vstd::string::*;

verus! {

/// `serde_json::Value`, carried through without being looked into.
#[verifier::external_type_specification]
#[verifier::external_body]
pub struct ExJsonValue(serde_json::Value);

/// The kind of a document.
#[derive(Clone, Copy, Debug, PartialEq, Eq, Structural)]
pub enum Category {
    Article,
    Email,
    Epub,
    Highlight,
    Note,
    Pdf,
    Rss,
    Tweet,
    Video,
}

/// Where a document sits in the reader.
#[derive(Clone, Copy, Debug, PartialEq, Eq, Structural)]
pub enum Location {
    Archive,
    Feed,
    Later,
    New,
    Shortlist,
}

/// Whether two texts hold the same characters.
pub(crate) fn same_text(a: &str, b: &str) -> (out: bool)
    ensures
        out == (a@ == b@),
{
    let n = a.unicode_len();
    if n != b.unicode_len() {
        return false;
    }
    let mut i: usize = 0;
    while i < n
        invariant
            i <= n,
            n == a@.len(),
            n == b@.len(),
            forall|j: int| 0 <= j < i ==> a@[j] == b@[j],
        decreases n - i,
    {
        if a.get_char(i) != b.get_char(i) {
            return false;
        }
        i += 1;
    }
    assert(a@ =~= b@);
    true
}

impl Category {
    /// The name of the kind on the wire and in the store.
    pub open spec fn spec_name(self) -> Seq<char> {
        match self {
            Category::Article => "article"@,
            Category::Email => "email"@,
            Category::Epub => "epub"@,
            Category::Highlight => "highlight"@,
            Category::Note => "note"@,
            Category::Pdf => "pdf"@,
            Category::Rss => "rss"@,
            Category::Tweet => "tweet"@,
            Category::Video => "video"@,
        }
    }

    /// The kind a name denotes, where it denotes one.
    pub open spec fn spec_from_name(name: Seq<char>) -> Option<Category> {
        if name == "article"@ {
            Some(Category::Article)
        } else if name == "email"@ {
            Some(Category::Email)
        } else if name == "epub"@ {
            Some(Category::Epub)
        } else if name == "highlight"@ {
            Some(Category::Highlight)
        } else if name == "note"@ {
            Some(Category::Note)
        } else if name == "pdf"@ {
            Some(Category::Pdf)
        } else if name == "rss"@ {
            Some(Category::Rss)
        } else if name == "tweet"@ {
            Some(Category::Tweet)
        } else if name == "video"@ {
            Some(Category::Video)
        } else {
            None
        }
    }

    /// The name of the kind on the wire and in the store: lower case.
    pub fn name(&self) -> (out: &'static str)
        ensures
            out@ == self.spec_name(),
    {
        match self {
            Category::Article => "article",
            Category::Email => "email",
            Category::Epub => "epub",
            Category::Highlight => "highlight",
            Category::Note => "note",
            Category::Pdf => "pdf",
            Category::Rss => "rss",
            Category::Tweet => "tweet",
            Category::Video => "video",
        }
    }

    /// The kind that `name` denotes. The enumeration is closed: any other
    /// name denotes none.
    pub fn from_name(name: &str) -> (out: Option<Category>)
        ensures
            out == Category::spec_from_name(name@),
    {
        if same_text(name, "article") {
            Some(Category::Article)
        } else if same_text(name, "email") {
            Some(Category::Email)
        } else if same_text(name, "epub") {
            Some(Category::Epub)
        } else if same_text(name, "highlight") {
            Some(Category::Highlight)
        } else if same_text(name, "note") {
            Some(Category::Note)
        } else if same_text(name, "pdf") {
            Some(Category::Pdf)
        } else if same_text(name, "rss") {
            Some(Category::Rss)
        } else if same_text(name, "tweet") {
            Some(Category::Tweet)
        } else if same_text(name, "video") {
            Some(Category::Video)
        } else {
            None
        }
    }

    /// Each kind is the one its own name denotes.
    pub proof fn lemma_name_round_trip(self)
        ensures
            Category::spec_from_name(self.spec_name()) == Some(self),
    {
        reveal_strlit("article");
        reveal_strlit("email");
        reveal_strlit("epub");
        reveal_strlit("highlight");
        reveal_strlit("note");
        reveal_strlit("pdf");
        reveal_strlit("rss");
        reveal_strlit("tweet");
        reveal_strlit("video");
        assert("article"@[0] == 'a' && "email"@[1] == 'm' && "epub"@[1] == 'p');
        assert("highlight"@[0] == 'h' && "note"@[0] == 'n' && "pdf"@[0] == 'p');
        assert("rss"@[0] == 'r' && "tweet"@[0] == 't' && "video"@[0] == 'v');
    }
}

impl Location {
    /// The name of the place on the wire and in the store.
    pub open spec fn spec_name(self) -> Seq<char> {
        match self {
            Location::Archive => "archive"@,
            Location::Feed => "feed"@,
            Location::Later => "later"@,
            Location::New => "new"@,
            Location::Shortlist => "shortlist"@,
        }
    }

    /// The place a name denotes, where it denotes one.
    pub open spec fn spec_from_name(name: Seq<char>) -> Option<Location> {
        if name == "archive"@ {
            Some(Location::Archive)
        } else if name == "feed"@ {
            Some(Location::Feed)
        } else if name == "later"@ {
            Some(Location::Later)
        } else if name == "new"@ {
            Some(Location::New)
        } else if name == "shortlist"@ {
            Some(Location::Shortlist)
        } else {
            None
        }
    }

    /// The name of the place on the wire and in the store: lower case.
    pub fn name(&self) -> (out: &'static str)
        ensures
            out@ == self.spec_name(),
    {
        match self {
            Location::Archive => "archive",
            Location::Feed => "feed",
            Location::Later => "later",
            Location::New => "new",
            Location::Shortlist => "shortlist",
        }
    }

    /// The place that `name` denotes. The enumeration is closed: any other
    /// name denotes none.
    pub fn from_name(name: &str) -> (out: Option<Location>)
        ensures
            out == Location::spec_from_name(name@),
    {
        if same_text(name, "archive") {
            Some(Location::Archive)
        } else if same_text(name, "feed") {
            Some(Location::Feed)
        } else if same_text(name, "later") {
            Some(Location::Later)
        } else if same_text(name, "new") {
            Some(Location::New)
        } else if same_text(name, "shortlist") {
            Some(Location::Shortlist)
        } else {
            None
        }
    }

    /// Each place is the one its own name denotes.
    pub proof fn lemma_name_round_trip(self)
        ensures
            Location::spec_from_name(self.spec_name()) == Some(self),
    {
        reveal_strlit("archive");
        reveal_strlit("feed");
        reveal_strlit("later");
        reveal_strlit("new");
        reveal_strlit("shortlist");
        assert("archive"@[0] == 'a' && "feed"@[0] == 'f' && "later"@[0] == 'l');
        assert("new"@[0] == 'n' && "shortlist"@[0] == 's');
    }
}

/// The view of an optional text.
pub open spec fn opt_text(s: Option<String>) -> Option<Seq<char>> {
    match s {
        Some(text) => Some(text@),
        None => None,
    }
}

/// The view of an optional timestamp.
pub open spec fn opt_instant(t: Option<Timestamp>) -> Option<Instant> {
    match t {
        Some(ts) => Some(ts@),
        None => None,
    }
}

/// One document of the reading list, as the service reports it.
#[derive(Clone, Debug, PartialEq)]
pub struct ReaderResult {
    pub author: Option<String>,
    pub category: Category,
    pub content: Option<String>,
    pub created_at: Timestamp,
    pub id: String,
    pub image_url: Option<String>,
    pub location: Option<Location>,
    pub notes: Option<String>,
    pub parent_id: Option<String>,
    pub published_date: Option<Timestamp>,
    /// The bits of the single-precision fraction read so far, kept as they
    /// arrived.
    pub reading_progress: u32,
    pub site_name: Option<String>,
    pub source: Option<String>,
    pub source_url: Option<String>,
    pub summary: Option<String>,
    /// The tags as the service structures them, kept as they arrived.
    pub tags: Option<serde_json::Value>,
    pub title: String,
    pub updated_at: Option<Timestamp>,
    pub readwise_url: Option<String>,
    pub word_count: i32,
}

/// The mathematical value of a [`ReaderResult`].
pub struct Document {
    pub author: Option<Seq<char>>,
    pub category: Category,
    pub content: Option<Seq<char>>,
    pub created_at: Instant,
    pub id: Seq<char>,
    pub image_url: Option<Seq<char>>,
    pub location: Option<Location>,
    pub notes: Option<Seq<char>>,
    pub parent_id: Option<Seq<char>>,
    pub published_date: Option<Instant>,
    pub reading_progress: u32,
    pub site_name: Option<Seq<char>>,
    pub source: Option<Seq<char>>,
    pub source_url: Option<Seq<char>>,
    pub summary: Option<Seq<char>>,
    pub tags: Option<serde_json::Value>,
    pub title: Seq<char>,
    pub updated_at: Option<Instant>,
    pub readwise_url: Option<Seq<char>>,
    pub word_count: i32,
}

impl View for ReaderResult {
    type V = Document;

    open spec fn view(&self) -> Document {
        Document {
            author: opt_text(self.author),
            category: self.category,
            content: opt_text(self.content),
            created_at: self.created_at@,
            id: self.id@,
            image_url: opt_text(self.image_url),
            location: self.location,
            notes: opt_text(self.notes),
            parent_id: opt_text(self.parent_id),
            published_date: opt_instant(self.published_date),
            reading_progress: self.reading_progress,
            site_name: opt_text(self.site_name),
            source: opt_text(self.source),
            source_url: opt_text(self.source_url),
            summary: opt_text(self.summary),
            tags: self.tags,
            title: self.title@,
            updated_at: opt_instant(self.updated_at),
            readwise_url: opt_text(self.readwise_url),
            word_count: self.word_count,
        }
    }
}

/// One page of the listing.
#[derive(Clone, Debug, PartialEq)]
pub struct ReaderResponse {
    /// How many documents the listing holds, as the service counts them.
    pub total_remaining: usize,
    /// Where the next page starts; absent on the last page.
    pub next_page_cursor: Option<String>,
    pub results: Vec<ReaderResult>,
}

/// The publication date of a document as it stands on the wire.
#[derive(Clone, Debug, PartialEq)]
pub enum PublishedDate {
    /// The field is null.
    Null,
    /// The field is a number; the value is absent where the number is no
    /// integer of 64 bits.
    Number(Option<i64>),
    /// The field is a text.
    Text(String),
    /// The field is of any other shape.
    Other,
}

/// The title a document without one is given.
pub open spec fn default_title() -> Seq<char> {
    "Untitled"@
}

/// The instant a publication date on the wire denotes. A number counts the
/// seconds since the Unix epoch; a text is a date and time, or else a date
/// only, taken at midnight UTC. Whatever denotes no instant is absent.
pub open spec fn published_instant(raw: PublishedDate) -> Option<Instant> {
    match raw {
        PublishedDate::Null => None,
        PublishedDate::Number(None) => None,
        PublishedDate::Number(Some(secs)) => if MIN_EPOCH_SECONDS <= secs <= MAX_EPOCH_SECONDS {
            Some(Instant { secs: secs as int, nanos: 0 })
        } else {
            None
        },
        PublishedDate::Text(text) => match datetime_instant(text@) {
            Some(instant) => Some(instant),
            None => date_instant(text@),
        },
        PublishedDate::Other => None,
    }
}

/// Whatever a publication date on the wire denotes is an instant, and only
/// a number or a text denotes one.
pub proof fn lemma_published_instant(raw: PublishedDate)
    ensures
        published_instant(raw) matches Some(instant) ==> valid_instant(
            instant.secs,
            instant.nanos,
        ),
        published_instant(raw) is Some ==> (raw is Number || raw is Text),
{
}

/// Decodes the publication date of a document. No value fails the record:
/// one that denotes no instant leaves the date absent.
pub fn deserialize_published_date(raw: &PublishedDate) -> (out: Option<Timestamp>)
    ensures
        opt_instant(out) == published_instant(*raw),
{
    match raw {
        PublishedDate::Null => None,
        PublishedDate::Number(None) => None,
        PublishedDate::Number(Some(secs)) => Timestamp::from_epoch_seconds(*secs),
        PublishedDate::Text(text) => {
            match Timestamp::parse_datetime(text.as_str()) {
                Some(instant) => Some(instant),
                None => Timestamp::parse_date(text.as_str()),
            }
        },
        PublishedDate::Other => None,
    }
}

/// Decodes the word count of a document: zero where the field is null.
pub fn deserialize_word_count(raw: Option<i32>) -> (out: i32)
    ensures
        out == match raw {
            Some(count) => count,
            None => 0,
        },
{
    match raw {
        Some(count) => count,
        None => 0,
    }
}

/// Decodes the title of a document: `Untitled` where the field is null.
pub fn deserialize_title(raw: Option<String>) -> (out: String)
    ensures
        out@ == match raw {
            Some(title) => title@,
            None => default_title(),
        },
{
    match raw {
        Some(title) => title,
        None => String::from_str("Untitled"),
    }
}

} // verus!
