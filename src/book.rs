//! A resolved catalog: its identifier, display name and chapters, oldest
//! first.

use vstd::prelude::*;
use vstd::string::*;

use crate::chapter::{Chapter, ChapterView};
use crate::error::ComicError;

verus! {

#[derive(Debug)]
pub struct Book {
    id: u32,
    name: String,
    chapter_list: Vec<Chapter>,
}

/// What a catalog holds.
pub struct BookView {
    pub id: u32,
    pub name: Seq<char>,
    pub chapters: Seq<ChapterView>,
}

/// The chapters of a catalog from its raw feed, which lists them newest
/// first: the first `total` entries, oldest first.
pub open spec fn chapters_from_feed(feed: Seq<ChapterView>, total: nat) -> Seq<ChapterView>
    recommends
        total <= feed.len(),
{
    Seq::new(total, |i: int| feed[total - 1 - i])
}

/// A catalog resolved from a feed with `n` counted episodes has exactly `n`
/// chapters, and its chapter at position `i` is the feed's entry at
/// `n - 1 - i`: the feed reversed.
pub proof fn lemma_catalog_reverses_feed(feed: Seq<ChapterView>, n: nat)
    requires
        n <= feed.len(),
    ensures
        chapters_from_feed(feed, n).len() == n,
        forall|i: int| 0 <= i < n ==> #[trigger] chapters_from_feed(feed, n)[i] == feed[n - 1 - i],
{
}

impl View for Book {
    type V = BookView;

    closed spec fn view(&self) -> BookView {
        BookView {
            id: self.id,
            name: self.name@,
            chapters: self.chapter_list@.map_values(|c: Chapter| c@),
        }
    }
}

impl Book {
    #[verifier::type_invariant]
    spec fn count_fits(&self) -> bool {
        self.chapter_list.len() <= u32::MAX
    }

    /// Builds the catalog `id` named `name` from a raw feed of episodes,
    /// newest first, of which the first `total` count. A feed that lists
    /// fewer than `total` episodes is malformed.
    pub fn from_feed(id: u32, name: String, total: u32, feed: Vec<Chapter>) -> (r: Result<
        Book,
        ComicError,
    >)
        ensures
            r is Err <==> feed@.len() < total,
            r is Err ==> r->Err_0 is GetBookFailed,
            r is Ok ==> {
                let b = r->Ok_0@;
                &&& b.id == id
                &&& b.name == name@
                &&& b.chapters == chapters_from_feed(
                    feed@.map_values(|c: Chapter| c@),
                    total as nat,
                )
            },
    {
        if feed.len() < total as usize {
            return Err(
                ComicError::GetBookFailed(
                    String::from_str("the episode list is shorter than its total"),
                ),
            );
        }
        let ghost raw = feed@;
        let mut rest = feed;
        rest.truncate(total as usize);
        let mut list: Vec<Chapter> = Vec::new();
        while rest.len() > 0
            invariant
                total <= raw.len(),
                rest@ == raw.subrange(0, rest.len() as int),
                list.len() + rest.len() == total,
                forall|k: int| 0 <= k < list.len() ==> #[trigger] list@[k] == raw[total - 1 - k],
            decreases rest.len(),
        {
            let c = rest.pop().unwrap();
            list.push(c);
        }
        let b = Book { id, name, chapter_list: list };
        assert(b@.chapters =~= chapters_from_feed(raw.map_values(|c: Chapter| c@), total as nat));
        Ok(b)
    }

    pub fn id(&self) -> (r: u32)
        ensures
            r == self@.id,
    {
        self.id
    }

    pub fn name(&self) -> (r: &String)
        ensures
            r@ == self@.name,
    {
        &self.name
    }

    /// The number of chapters.
    pub fn get_total(&self) -> (r: u32)
        ensures
            r == self@.chapters.len(),
    {
        proof {
            use_type_invariant(self);
        }
        self.chapter_list.len() as u32
    }

    /// The chapter at position `id`, oldest first.
    pub fn get_chapter(&self, id: u32) -> (r: &Chapter)
        requires
            id < self@.chapters.len(),
        ensures
            r@ == self@.chapters[id as int],
    {
        &self.chapter_list[id as usize]
    }
}

} // verus!
