//! The crawl itself: the cursor, the boundaries and names of each chunk,
//! the catalog filter, and the metadata that closes a chunk.

use vstd::prelude::*;
use vstd::string::*;
use crate::post::{AssetRequest, ScrapedPost};
use crate::stamp::{folder_pattern, stamp_text, Timestamp};
use crate::text::{decimal, push_decimal};

verus! {

/// The text `chunks`, the directory under which every chunk directory lies.
pub open spec fn root_dir_text() -> Seq<char> {
    seq!['c', 'h', 'u', 'n', 'k', 's']
}

/// The name of a chunk directory: `chunks/chunk_`, the calendar text of
/// the start time, `_`, the first identifier, `-`, the identifier at which
/// the chunk ends.
pub open spec fn dir_name(stamp: Seq<char>, start_id: nat, end_id: nat) -> Seq<char> {
    root_dir_text() + seq!['/', 'c', 'h', 'u', 'n', 'k', '_'] + stamp + seq!['_'] + decimal(
        start_id,
    ) + seq!['-'] + decimal(end_id)
}

/// The catalog filter for everything at or below the cursor: `id:<=` and
/// the cursor in decimal.
pub open spec fn filter_text(cursor: nat) -> Seq<char> {
    seq!['i', 'd', ':', '<', '='] + decimal(cursor)
}

/// The path of a chunk's metadata file: the chunk directory, then
/// `/meta.json`.
pub open spec fn meta_path_text(dir: Seq<char>) -> Seq<char> {
    dir + seq!['/', 'm', 'e', 't', 'a', '.', 'j', 's', 'o', 'n']
}

/// The directory under which every chunk directory lies.
pub fn root_dir() -> (r: &'static str)
    ensures
        r@ == root_dir_text(),
{
    proof {
        reveal_strlit("chunks");
    }
    let r: &'static str = "chunks";
    assert(r@ =~= root_dir_text());
    r
}

/// Builds the name of a chunk directory.
pub fn chunk_dir_name(stamp: &str, start_id: u64, end_id: u64) -> (r: String)
    ensures
        r@ == dir_name(stamp@, start_id as nat, end_id as nat),
{
    proof {
        reveal_strlit("/chunk_");
        reveal_strlit("_");
        reveal_strlit("-");
    }
    let mut r = String::from_str(root_dir());
    r.append("/chunk_");
    r.append(stamp);
    r.append("_");
    push_decimal(&mut r, start_id);
    r.append("-");
    push_decimal(&mut r, end_id);
    assert(r@ =~= dir_name(stamp@, start_id as nat, end_id as nat));
    r
}

/// Builds the catalog filter for a cursor.
pub fn search_filter(cursor: u64) -> (r: String)
    ensures
        r@ == filter_text(cursor as nat),
{
    proof {
        reveal_strlit("id:<=");
    }
    let mut r = String::from_str("id:<=");
    push_decimal(&mut r, cursor);
    assert(r@ =~= filter_text(cursor as nat));
    r
}

/// Builds the path of a chunk's metadata file.
pub fn meta_path(dir: &str) -> (r: String)
    ensures
        r@ == meta_path_text(dir@),
{
    proof {
        reveal_strlit("/meta.json");
    }
    let mut r = String::from_str(dir);
    r.append("/meta.json");
    assert(r@ =~= meta_path_text(dir@));
    r
}

/// How one iteration of the crawl ended.
#[derive(Debug, Clone, Copy, PartialEq, Eq, Structural)]
pub enum ChunkEnd {
    /// The chunk directory could not be had: nothing was queried.
    Skipped,
    /// The catalog was queried and the batch was worked through, whatever
    /// became of the single downloads and of the metadata file.
    Processed,
}

/// Why no chunk can be planned.
#[derive(Debug, Clone, Copy, PartialEq, Eq, Structural)]
pub enum PlanError {
    /// Every requested iteration has been made.
    Finished,
    /// The cursor is smaller than the chunk size.
    Underflow,
    /// The start time has no calendar text.
    NoCalendarTime,
}

/// What one iteration is to do.
#[derive(Debug, Clone, PartialEq, Eq)]
pub struct ChunkPlan {
    pub start_time: Timestamp,
    /// The cursor before the chunk: the highest identifier asked for.
    pub start_id: u64,
    /// The cursor after the chunk.
    pub end_id: u64,
    /// The chunk directory.
    pub dir: String,
    /// The filter to query the catalog with.
    pub filter: String,
    /// The most items to take from the catalog.
    pub take: u64,
}

/// The state of a crawl between two iterations.
#[derive(Debug, Clone, Copy, PartialEq, Eq, Structural)]
pub struct Crawl {
    /// The highest identifier not yet processed.
    pub cursor: u64,
    /// The width of a chunk in identifiers, and the most items per chunk.
    pub chunk_size: u64,
    /// The iterations still to make.
    pub remaining: u64,
}

impl ChunkPlan {
    /// Whether this is the plan of the next chunk of `crawl`, started at
    /// `start_time` whose calendar text is `stamp`.
    pub open spec fn describes(self, crawl: Crawl, start_time: Timestamp, stamp: Seq<char>) -> bool {
        &&& self.start_time == start_time
        &&& self.start_id == crawl.cursor
        &&& self.end_id == crawl.cursor - crawl.chunk_size
        &&& self.start_id - self.end_id == crawl.chunk_size
        &&& self.dir@ == dir_name(stamp, self.start_id as nat, self.end_id as nat)
        &&& self.filter@ == filter_text(crawl.cursor as nat)
        &&& self.take == crawl.chunk_size
    }
}

impl Crawl {
    /// The first obstacle to planning a chunk, if there is one, apart from
    /// the calendar.
    pub open spec fn obstacle(self) -> Option<PlanError> {
        if self.remaining == 0 {
            Some(PlanError::Finished)
        } else if self.cursor < self.chunk_size {
            Some(PlanError::Underflow)
        } else {
            None
        }
    }

    /// The state after an iteration that ended with `end`. A skipped chunk
    /// uses up its iteration and leaves the cursor; a processed one moves
    /// the cursor down by the chunk size. A finished crawl stays as it is,
    /// and so does one that is told of a processed chunk for which its
    /// cursor had no room.
    pub open spec fn after(self, end: ChunkEnd) -> Crawl {
        if self.remaining == 0 {
            self
        } else {
            match end {
                ChunkEnd::Skipped => Crawl { remaining: (self.remaining - 1) as u64, ..self },
                ChunkEnd::Processed => if self.cursor < self.chunk_size {
                    self
                } else {
                    Crawl {
                        cursor: (self.cursor - self.chunk_size) as u64,
                        remaining: (self.remaining - 1) as u64,
                        ..self
                    }
                },
            }
        }
    }

    /// The state after a run of iterations, the first of `ends` first.
    pub open spec fn after_all(self, ends: Seq<ChunkEnd>) -> Crawl
        decreases ends.len(),
    {
        if ends.len() == 0 {
            self
        } else {
            self.after_all(ends.drop_last()).after(ends.last())
        }
    }

    /// A crawl that starts at `cursor` and is to make `chunk_count`
    /// iterations of `chunk_size` identifiers each.
    pub fn new(cursor: u64, chunk_count: u64, chunk_size: u64) -> (r: Crawl)
        ensures
            r == (Crawl { cursor, chunk_size, remaining: chunk_count }),
    {
        Crawl { cursor, chunk_size, remaining: chunk_count }
    }

    /// Whether every requested iteration has been made.
    pub fn is_done(&self) -> (r: bool)
        ensures
            r == (self.remaining == 0),
    {
        self.remaining == 0
    }

    /// Plans the next chunk, given the calendar text of its start time.
    pub fn plan_with_stamp(&self, start_time: Timestamp, stamp: &str) -> (r: Result<
        ChunkPlan,
        PlanError,
    >)
        ensures
            match r {
                Ok(plan) => self.obstacle().is_none() && plan.describes(*self, start_time, stamp@),
                Err(e) => self.obstacle() == Some(e),
            },
    {
        if self.remaining == 0 {
            return Err(PlanError::Finished);
        }
        if self.cursor < self.chunk_size {
            return Err(PlanError::Underflow);
        }
        let start_id = self.cursor;
        let end_id = self.cursor - self.chunk_size;
        Ok(
            ChunkPlan {
                start_time,
                start_id,
                end_id,
                dir: chunk_dir_name(stamp, start_id, end_id),
                filter: search_filter(self.cursor),
                take: self.chunk_size,
            },
        )
    }

    /// Plans the next chunk. The calendar is asked only where nothing else
    /// stands in the way, and for a clock time it always answers.
    pub fn plan(&self, start_time: Timestamp) -> (r: Result<ChunkPlan, PlanError>)
        ensures
            match r {
                Ok(plan) => self.obstacle().is_none() && stamp_text(
                    start_time.secs,
                    start_time.nanos,
                    folder_pattern(),
                ).is_some() && plan.describes(
                    *self,
                    start_time,
                    stamp_text(start_time.secs, start_time.nanos, folder_pattern()).unwrap(),
                ),
                Err(e) => if self.obstacle().is_some() {
                    self.obstacle() == Some(e)
                } else {
                    e == PlanError::NoCalendarTime && stamp_text(
                        start_time.secs,
                        start_time.nanos,
                        folder_pattern(),
                    ).is_none()
                },
            },
            self.obstacle().is_none() && start_time.is_clock_time() ==> r.is_ok(),
    {
        if self.remaining == 0 {
            return Err(PlanError::Finished);
        }
        if self.cursor < self.chunk_size {
            return Err(PlanError::Underflow);
        }
        match start_time.folder_stamp() {
            Some(stamp) => self.plan_with_stamp(start_time, stamp.as_str()),
            None => Err(PlanError::NoCalendarTime),
        }
    }

    /// Closes an iteration.
    pub fn finish(&mut self, end: ChunkEnd)
        ensures
            *final(self) == old(self).after(end),
    {
        if self.remaining == 0 {
            return ;
        }
        match end {
            ChunkEnd::Skipped => {
                self.remaining = self.remaining - 1;
            },
            ChunkEnd::Processed => {
                if self.cursor >= self.chunk_size {
                    self.cursor = self.cursor - self.chunk_size;
                    self.remaining = self.remaining - 1;
                }
            },
        }
    }
}

/// How many of the iterations were processed, not skipped.
pub open spec fn processed_count(ends: Seq<ChunkEnd>) -> nat
    decreases ends.len(),
{
    if ends.len() == 0 {
        0
    } else {
        processed_count(ends.drop_last()) + if ends.last() == ChunkEnd::Processed {
            1nat
        } else {
            0nat
        }
    }
}

/// After any run of iterations that the crawl had room for, the cursor has
/// moved down by the chunk size once for each processed chunk and not at
/// all for a skipped one; one iteration is used up by each. Nothing else
/// enters: not how many items a chunk brought, nor how its downloads went.
pub proof fn cursor_after_run(crawl: Crawl, ends: Seq<ChunkEnd>)
    requires
        ends.len() <= crawl.remaining,
        processed_count(ends) * crawl.chunk_size <= crawl.cursor,
    ensures
        crawl.after_all(ends).cursor == crawl.cursor - processed_count(ends) * crawl.chunk_size,
        crawl.after_all(ends).remaining == crawl.remaining - ends.len(),
        crawl.after_all(ends).chunk_size == crawl.chunk_size,
    decreases ends.len(),
{
    let s = crawl.chunk_size as int;
    let m = processed_count(ends) as int;
    if ends.len() == 0 {
        assert(m * s == 0) by (nonlinear_arith)
            requires
                m == 0,
        ;
    } else {
        let before = ends.drop_last();
        let n = processed_count(before) as int;
        let step: int = if ends.last() == ChunkEnd::Processed {
            1
        } else {
            0
        };
        assert(m == n + step);
        assert(m * s == n * s + step * s && n * s <= m * s && step * s == if step == 1 {
            s
        } else {
            0
        }) by (nonlinear_arith)
            requires
                m == n + step,
                0 <= step <= 1,
                s >= 0,
                n >= 0,
        ;
        cursor_after_run(crawl, before);
        let mid = crawl.after_all(before);
        assert(crawl.after_all(ends) == mid.after(ends.last()));
        assert(mid.remaining > 0);
    }
}

/// Every chunk that is started spans exactly the chunk size, and ends
/// where the cursor stands once the chunk is processed.
pub proof fn chunk_spans_chunk_size(
    plan: ChunkPlan,
    crawl: Crawl,
    start_time: Timestamp,
    stamp: Seq<char>,
)
    requires
        plan.describes(crawl, start_time, stamp),
    ensures
        plan.start_id - plan.end_id == crawl.chunk_size,
        crawl.remaining > 0 ==> crawl.after(ChunkEnd::Processed).cursor == plan.end_id,
{
}

/// The record of one chunk, as it is stored beside the chunk's files.
#[derive(Debug, Clone, PartialEq, Eq)]
pub struct Metadata {
    pub start_time: Timestamp,
    pub finish_time: Timestamp,
    /// Inclusive.
    pub start_id: u64,
    /// Exclusive.
    pub end_id: u64,
    /// In the order in which the catalog returned them.
    pub posts: Vec<ScrapedPost>,
}

impl Metadata {
    /// Closes a chunk: the plan's times and bounds, and every post of the
    /// batch, in order, whether or not its file was fetched.
    pub fn assemble(plan: &ChunkPlan, finish_time: Timestamp, posts: Vec<ScrapedPost>) -> (r:
        Metadata)
        ensures
            r.start_time == plan.start_time,
            r.finish_time == finish_time,
            r.start_id == plan.start_id,
            r.end_id == plan.end_id,
            r.posts == posts,
            r.posts@.len() == posts@.len(),
    {
        Metadata {
            start_time: plan.start_time,
            finish_time,
            start_id: plan.start_id,
            end_id: plan.end_id,
            posts,
        }
    }
}

/// The downloads to attempt for a batch, one entry per post and in the
/// posts' order: `None` for a post without a URL.
pub fn asset_requests(posts: &Vec<ScrapedPost>, dir: &str) -> (r: Vec<Option<AssetRequest>>)
    ensures
        r@.len() == posts@.len(),
        forall|i: int|
            0 <= i < posts@.len() ==> ((#[trigger] r@[i]).is_some() == posts@[i].wants_asset()),
        forall|i: int|
            0 <= i < posts@.len() ==> ((#[trigger] r@[i]) matches Some(a) ==> a.url@
                == posts@[i].file.url.unwrap()@ && a.path@ == posts@[i].asset_path(dir@)),
{
    let mut out: Vec<Option<AssetRequest>> = Vec::new();
    let mut i: usize = 0;
    while i < posts.len()
        invariant
            i <= posts@.len(),
            out@.len() == i,
            forall|k: int|
                0 <= k < i ==> ((#[trigger] out@[k]).is_some() == posts@[k].wants_asset()),
            forall|k: int|
                0 <= k < i ==> ((#[trigger] out@[k]) matches Some(a) ==> a.url@
                    == posts@[k].file.url.unwrap()@ && a.path@ == posts@[k].asset_path(dir@)),
        decreases posts@.len() - i,
    {
        let request = posts[i].asset_request(dir);
        out.push(request);
        i = i + 1;
    }
    out
}

} // verus!
