//! Chapter descriptors, the pairing of image paths with access tokens, and
//! the layout of a chapter's images on disk.

use vstd::prelude::*;
use vstd::string::*;

use crate::error::ComicError;
use crate::text::{dec, decimal, is_digit, lemma_dec_digits, lemma_dec_injective};

verus! {

/// One episode of a catalog: the identifier used for remote calls, the
/// ordinal (as text) used for naming, its title and whether it is locked.
#[derive(Debug)]
pub struct Chapter {
    id: u32,
    chapter_id: String,
    title: String,
    locked: bool,
}

/// What a chapter descriptor holds.
pub struct ChapterView {
    pub id: u32,
    pub chapter_id: Seq<char>,
    pub title: Seq<char>,
    pub locked: bool,
}

impl View for Chapter {
    type V = ChapterView;

    closed spec fn view(&self) -> ChapterView {
        ChapterView {
            id: self.id,
            chapter_id: self.chapter_id@,
            title: self.title@,
            locked: self.locked,
        }
    }
}

/// The name of the directory that holds a chapter's images:
/// `{ordinal}-{title}`.
pub open spec fn chapter_dir_name(c: ChapterView) -> Seq<char> {
    c.chapter_id + seq!['-'] + c.title
}

/// The name of the image at 1-based position `seq` of chapter `id`:
/// `{id}-{seq}.png`.
pub open spec fn image_file_name(id: u32, seq: nat) -> Seq<char> {
    dec(id as nat) + seq!['-'] + dec(seq) + seq!['.', 'p', 'n', 'g']
}

/// A fetchable image address: the absolute address with its access token
/// appended as a query credential.
pub open spec fn signed_url(url: Seq<char>, token: Seq<char>) -> Seq<char> {
    url + seq!['?', 't', 'o', 'k', 'e', 'n', '='] + token
}

/// One image to fetch: its address, and the directory (relative to the
/// output base) and file name it is written to.
#[derive(Debug)]
pub struct ImageTask {
    pub url: String,
    pub dir: String,
    pub file: String,
}

/// One entry of a token-issuance response.
#[derive(Debug)]
pub struct ImageToken {
    pub url: String,
    pub token: String,
}

impl Chapter {
    pub fn new(id: u32, chapter_id: String, title: String, locked: bool) -> (r: Chapter)
        ensures
            r@ == (ChapterView { id, chapter_id: chapter_id@, title: title@, locked }),
    {
        Chapter { id, chapter_id, title, locked }
    }

    pub fn get_id(&self) -> (r: u32)
        ensures
            r == self@.id,
    {
        self.id
    }

    /// The ordinal that names the chapter.
    pub fn get_chapter_id(&self) -> (r: &str)
        ensures
            r@ == self@.chapter_id,
    {
        self.chapter_id.as_str()
    }

    pub fn get_title(&self) -> (r: &str)
        ensures
            r@ == self@.title,
    {
        self.title.as_str()
    }

    pub fn get_locked(&self) -> (r: bool)
        ensures
            r == self@.locked,
    {
        self.locked
    }

    /// The directory, relative to the output base, that holds the images.
    pub fn dir_name(&self) -> (r: String)
        ensures
            r@ == chapter_dir_name(self@),
    {
        let mut s = self.chapter_id.clone();
        proof {
            reveal_strlit("-");
        }
        s.append("-");
        s.append(self.title.as_str());
        s
    }

    /// The file name of the image at 1-based position `seq`.
    pub fn file_name(&self, seq: u64) -> (r: String)
        ensures
            r@ == image_file_name(self@.id, seq as nat),
    {
        let mut s = decimal(self.id as u64);
        proof {
            reveal_strlit("-");
            reveal_strlit(".png");
        }
        s.append("-");
        let n = decimal(seq);
        s.append(n.as_str());
        s.append(".png");
        assert(s@ =~= image_file_name(self@.id, seq as nat));
        s
    }

    /// Where each resolved image goes: the image at position `i` of `urls`
    /// is written under sequence number `i + 1`, whatever order the fetches
    /// complete in.
    pub fn download_plan(&self, urls: &Vec<String>) -> (r: Vec<ImageTask>)
        requires
            urls.len() < u64::MAX,
        ensures
            r.len() == urls.len(),
            forall|i: int|
                0 <= i < r.len() ==> {
                    &&& (#[trigger] r[i]).url@ == urls[i]@
                    &&& r[i].dir@ == chapter_dir_name(self@)
                    &&& r[i].file@ == image_file_name(self@.id, (i + 1) as nat)
                },
    {
        let mut plan: Vec<ImageTask> = Vec::new();
        let mut i: usize = 0;
        while i < urls.len()
            invariant
                i <= urls.len(),
                urls.len() < u64::MAX,
                plan.len() == i,
                forall|k: int|
                    0 <= k < i ==> {
                        &&& (#[trigger] plan[k]).url@ == urls[k]@
                        &&& plan[k].dir@ == chapter_dir_name(self@)
                        &&& plan[k].file@ == image_file_name(self@.id, (k + 1) as nat)
                    },
            decreases urls.len() - i,
        {
            let task = ImageTask {
                url: urls[i].clone(),
                dir: self.dir_name(),
                file: self.file_name(i as u64 + 1),
            };
            plan.push(task);
            i = i + 1;
        }
        plan
    }
}

/// Pairs each relative image path with the entry issued for it, in the
/// order of `paths`. The issuance response is taken to be aligned index for
/// index with the submitted paths; a response of another length is refused.
pub fn sign_image_urls(paths: &Vec<String>, tokens: &Vec<ImageToken>) -> (r: Result<
    Vec<String>,
    ComicError,
>)
    ensures
        r is Err <==> tokens.len() != paths.len(),
        r is Err ==> r->Err_0 is GetListFailed,
        r is Ok ==> {
            let v = r->Ok_0;
            &&& v.len() == paths.len()
            &&& forall|i: int|
                0 <= i < v.len() ==> (#[trigger] v[i])@ == signed_url(tokens[i].url@, tokens[i].token@)
        },
{
    if tokens.len() != paths.len() {
        return Err(
            ComicError::GetListFailed(
                String::from_str("token response does not match the image path list"),
            ),
        );
    }
    let mut out: Vec<String> = Vec::new();
    let mut i: usize = 0;
    while i < tokens.len()
        invariant
            i <= tokens.len(),
            out.len() == i,
            forall|k: int|
                0 <= k < i ==> (#[trigger] out[k])@ == signed_url(tokens[k].url@, tokens[k].token@),
        decreases tokens.len() - i,
    {
        let mut s = tokens[i].url.clone();
        proof {
            reveal_strlit("?token=");
        }
        s.append("?token=");
        s.append(tokens[i].token.as_str());
        assert(s@ =~= signed_url(tokens[i as int].url@, tokens[i as int].token@));
        out.push(s);
        i = i + 1;
    }
    Ok(out)
}

/// What follows the fetch of the image at position `done` of `total`:
/// a failure ends the chapter with that failure; otherwise the next
/// position is fetched, or the chapter is complete.
pub fn next_fetch(total: usize, done: usize, outcome: Result<(), ComicError>) -> (r: Result<
    Option<usize>,
    ComicError,
>)
    requires
        done < total,
    ensures
        outcome is Err ==> r == Err::<Option<usize>, ComicError>(outcome->Err_0),
        outcome is Ok ==> r == Ok::<Option<usize>, ComicError>(
            if done + 1 < total {
                Some((done + 1) as usize)
            } else {
                None
            },
        ),
{
    match outcome {
        Err(e) => Err(e),
        Ok(()) => {
            if done + 1 < total {
                Ok(Some(done + 1))
            } else {
                Ok(None)
            }
        },
    }
}

/// Images of chapters with different identifiers never share a file name,
/// whatever their positions; so two chapters downloaded into one base
/// directory cannot write the same path.
pub proof fn lemma_image_names_disjoint(a: ChapterView, b: ChapterView, i: nat, j: nat)
    requires
        a.id != b.id,
    ensures
        image_file_name(a.id, i) != image_file_name(b.id, j),
{
    let sa = image_file_name(a.id, i);
    let sb = image_file_name(b.id, j);
    let da = dec(a.id as nat);
    let db = dec(b.id as nat);
    lemma_dec_digits(a.id as nat);
    lemma_dec_digits(b.id as nat);
    if sa == sb {
        if da.len() < db.len() {
            assert(sa[da.len() as int] == '-');
            assert(sb[da.len() as int] == db[da.len() as int]);
            assert(is_digit(db[da.len() as int]));
        } else if db.len() < da.len() {
            assert(sb[db.len() as int] == '-');
            assert(sa[db.len() as int] == da[db.len() as int]);
            assert(is_digit(da[db.len() as int]));
        } else {
            assert(da =~= sa.subrange(0, da.len() as int));
            assert(db =~= sb.subrange(0, db.len() as int));
            lemma_dec_injective(a.id as nat, b.id as nat);
        }
    }
}

/// Two plans for one chapter and one resolved list agree at every position,
/// whatever order their fetches later complete in: the file of each
/// position is fixed by the position alone.
pub proof fn lemma_plans_agree(c: ChapterView, urls: Seq<String>, p: Seq<ImageTask>, q: Seq<ImageTask>)
    requires
        p.len() == urls.len(),
        q.len() == urls.len(),
        forall|i: int|
            0 <= i < p.len() ==> {
                &&& (#[trigger] p[i]).url@ == urls[i]@
                &&& p[i].dir@ == chapter_dir_name(c)
                &&& p[i].file@ == image_file_name(c.id, (i + 1) as nat)
            },
        forall|i: int|
            0 <= i < q.len() ==> {
                &&& (#[trigger] q[i]).url@ == urls[i]@
                &&& q[i].dir@ == chapter_dir_name(c)
                &&& q[i].file@ == image_file_name(c.id, (i + 1) as nat)
            },
    ensures
        forall|i: int|
            0 <= i < p.len() ==> {
                &&& (#[trigger] p[i]).url@ == q[i].url@
                &&& p[i].dir@ == q[i].dir@
                &&& p[i].file@ == q[i].file@
            },
{
}

/// Plans of chapters with different identifiers never share a file name:
/// two chapters downloaded into one base directory write disjoint paths.
pub proof fn lemma_plans_disjoint(
    a: ChapterView,
    b: ChapterView,
    pa: Seq<ImageTask>,
    pb: Seq<ImageTask>,
)
    requires
        a.id != b.id,
        forall|i: int| 0 <= i < pa.len() ==> (#[trigger] pa[i]).file@ == image_file_name(a.id, (i + 1) as nat),
        forall|j: int| 0 <= j < pb.len() ==> (#[trigger] pb[j]).file@ == image_file_name(b.id, (j + 1) as nat),
    ensures
        forall|i: int, j: int|
            0 <= i < pa.len() && 0 <= j < pb.len() ==> (#[trigger] pa[i]).file@ != (#[trigger] pb[j]).file@,
{
    assert forall|i: int, j: int| 0 <= i < pa.len() && 0 <= j < pb.len() implies (#[trigger] pa[i]).file@
        != (#[trigger] pb[j]).file@ by {
        lemma_image_names_disjoint(a, b, (i + 1) as nat, (j + 1) as nat);
    }
}

} // verus!
