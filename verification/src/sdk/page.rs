//! Following a paginated listing to its end.
//!
//! Ask for a page, keep the rows, follow the token until it is empty. A
//! server that returns the same token twice describes a cycle, and following
//! it would loop forever, so every token is checked against those already
//! handed out.
use crate::sdk::error::Error;
use vstd::prelude::*;

verus! {

/// How many to ask for per page. Large enough that one round trip usually
/// suffices, small enough that a huge tenant does not arrive in one message.
pub const PAGE_SIZE: i32 = 200;

/// The text `{:?}` renders a string as: quoted, with escapes.
pub uninterp spec fn debug_text(s: Seq<char>) -> Seq<char>;

/// `s` rendered with `std`'s `Debug` formatting for strings (`{:?}`).
///
/// The contract claims only that the rendering is a function of the text.
#[verifier::external_body]
pub(crate) fn debug_quoted(s: &str) -> (quoted: String)
    ensures
        quoted@ == debug_text(s@),
{
    format!("{:?}", s)
}

/// Whether `token` is among the tokens in `seen`.
pub open spec fn already_seen(seen: Seq<String>, token: Seq<char>) -> bool {
    exists|i: int| 0 <= i < seen.len() && #[trigger] seen[i]@ == token
}

/// No token appears twice.
pub open spec fn tokens_distinct(seen: Seq<String>) -> bool {
    forall|i: int, j: int|
        0 <= i < seen.len() && 0 <= j < seen.len() && i != j ==> #[trigger] seen[i]@
            != #[trigger] seen[j]@
}

/// What is reported when the server repeats `token`.
pub open spec fn repeated_token_message(token: Seq<char>) -> Seq<char> {
    "the server repeated page token "@ + debug_text(token)
        + ", which would loop forever; its pagination is not advancing"@
}

/// Refuse a page token the server has already handed out; otherwise record
/// it and hand it back.
pub fn advance(seen: &mut Vec<String>, token: String) -> (next: Result<String, Error>)
    ensures
        already_seen(old(seen)@, token@) ==> (next matches Err(Error::InvalidArgument { message })
            && message@ == repeated_token_message(token@) && final(seen)@ == old(seen)@),
        !already_seen(old(seen)@, token@) ==> (next matches Ok(t) && t@ == token@
            && final(seen)@ == old(seen)@.push(token)),
        tokens_distinct(old(seen)@) ==> tokens_distinct(final(seen)@),
{
    let n = seen.len();
    let mut i: usize = 0;
    while i < n
        invariant
            n == seen@.len(),
            i <= n,
            forall|j: int| 0 <= j < i ==> seen@[j]@ != token@,
        decreases n - i,
    {
        if seen[i] == token {
            let mut message = String::from_str("the server repeated page token ");
            let quoted = debug_quoted(token.as_str());
            message.append(quoted.as_str());
            message.append(", which would loop forever; its pagination is not advancing");
            return Err(Error::InvalidArgument { message });
        }
        i = i + 1;
    }
    let ghost before = seen@;
    seen.push(token.clone());
    proof {
        assert forall|a: int, b: int|
            tokens_distinct(before) && 0 <= a < seen@.len() && 0 <= b < seen@.len() && a != b
            implies #[trigger] seen@[a]@ != #[trigger] seen@[b]@ by {
            if a == n as int {
                assert(seen@[b] == before[b]);
            } else if b == n as int {
                assert(seen@[a] == before[a]);
            } else {
                assert(seen@[a] == before[a] && seen@[b] == before[b]);
            }
        }
    }
    Ok(token)
}

/// Where a listing stands: what it holds so far, and what to do next.
#[derive(Debug, Clone, PartialEq, Eq)]
pub enum Step {
    /// Ask for the page this token names.
    Fetch(String),
    /// The listing is complete.
    Done,
}

/// The rows of a paginated listing, gathered page by page.
///
/// The caller performs each request; this decides what the next one asks
/// for and when the sequence is over. An empty next-page token ends it; a
/// token the server has already handed out ends it with an error, through
/// [`advance`], since following it would ask for the same pages forever.
#[derive(Debug)]
pub struct Listing<T> {
    items: Vec<T>,
    token: String,
    seen: Vec<String>,
    done: bool,
}

impl<T> Listing<T> {
    /// The rows gathered so far, in the order the pages delivered them.
    pub closed spec fn rows(&self) -> Seq<T> {
        self.items@
    }

    /// The token the next request carries; empty for the first page.
    pub closed spec fn token(&self) -> Seq<char> {
        self.token@
    }

    /// Every next-page token followed so far, in the order they arrived.
    pub closed spec fn seen(&self) -> Seq<String> {
        self.seen@
    }

    /// Whether the listing is over: the last page arrived, or the server
    /// repeated a token.
    pub closed spec fn finished(&self) -> bool {
        self.done
    }

    /// A listing that has asked for nothing yet.
    pub fn new() -> (listing: Listing<T>)
        ensures
            listing.rows() == Seq::<T>::empty(),
            listing.token() == Seq::<char>::empty(),
            listing.seen() == Seq::<String>::empty(),
            !listing.finished(),
    {
        let listing = Listing {
            items: Vec::new(),
            token: String::new(),
            seen: Vec::new(),
            done: false,
        };
        assert(listing.items@ =~= Seq::<T>::empty());
        assert(listing.seen@ =~= Seq::<String>::empty());
        listing
    }

    /// The page token the next request carries.
    pub fn page_token(&self) -> (token: &str)
        ensures
            token@ == self.token(),
    {
        self.token.as_str()
    }

    /// Take in one page: its rows are kept after every earlier page's, and
    /// its next-page token says whether to ask again. A token that was
    /// already followed is refused and ends the listing.
    pub fn receive(&mut self, page: Vec<T>, next_page_token: String) -> (step: Result<
        Step,
        Error,
    >)
        requires
            !old(self).finished(),
        ensures
            final(self).rows() == old(self).rows() + page@,
            tokens_distinct(old(self).seen()) ==> tokens_distinct(final(self).seen()),
            next_page_token@.len() == 0 ==> (step == Ok::<Step, Error>(Step::Done)
                && final(self).finished() && final(self).seen() == old(self).seen()),
            next_page_token@.len() != 0 && already_seen(old(self).seen(), next_page_token@)
                ==> (step matches Err(Error::InvalidArgument { message }) && message@
                == repeated_token_message(next_page_token@) && final(self).finished()
                && final(self).seen() == old(self).seen()),
            next_page_token@.len() != 0 && !already_seen(old(self).seen(), next_page_token@)
                ==> (step matches Ok(Step::Fetch(t)) && t@ == next_page_token@
                && !final(self).finished() && final(self).token() == next_page_token@
                && final(self).seen() == old(self).seen().push(next_page_token)),
    {
        let mut page = page;
        self.items.append(&mut page);
        if next_page_token.as_str().is_empty() {
            self.done = true;
            return Ok(Step::Done);
        }
        match advance(&mut self.seen, next_page_token) {
            Ok(t) => {
                self.token = t.clone();
                Ok(Step::Fetch(t))
            },
            Err(e) => {
                self.done = true;
                Err(e)
            },
        }
    }

    /// Every row, once the listing is complete or abandoned.
    pub fn into_rows(self) -> (rows: Vec<T>)
        ensures
            rows@ == self.rows(),
    {
        self.items
    }
}

} // verus!
