use vstd::prelude::*;

use crate::cursor::NitterCursor;
use crate::error::NitterError;
use crate::query::{encoded, NitterQuery};
use crate::tweet::Tweet;

verus! {

/// What a caller chooses about one scrape.
#[derive(Clone, Copy, Debug)]
pub struct ScrapeConfig {
    /// Stop after this many items.
    pub limit: Option<usize>,
    /// Stop at the first queued post whose id is below this floor.
    pub min_id: Option<u128>,
    /// Move the pinned post to its place in time.
    pub reorder_pinned: bool,
    /// Leave retweets out.
    pub skip_retweets: bool,
}

/// How a stream stands, and once it has ended, why.
#[derive(Clone, Copy, Debug, PartialEq, Eq, Structural)]
pub enum StreamStatus {
    Running,
    NormalEnd,
    ProtectedEnd,
    SuspendedEnd,
    NotFoundEnd,
    OperationalFailureEnd,
}

/// What a stream asks of its driver next.
#[derive(Debug)]
pub enum StreamStep {
    /// The next post of the sequence.
    Emit(Tweet),
    /// The final item of a failed sequence.
    Fail(NitterError),
    /// Fetch the page at this URL and hand the parsed result to `feed_page`.
    Fetch(String),
    /// The sequence has ended; `status` says why.
    Done,
}

/// The abstract state of a stream.
pub struct ScraperView {
    pub config: ScrapeConfig,
    /// Instance URL followed by the query's path.
    pub base: Seq<char>,
    /// Query string of the first page.
    pub initial_query: Seq<char>,
    /// Posts read but not yet emitted, in page order.
    pub queue: Seq<Tweet>,
    /// The pinned post held back for its place in time.
    pub pinned: Option<Tweet>,
    pub cursor: NitterCursor,
    /// Items emitted so far, the final error included.
    pub emitted: nat,
    pub status: StreamStatus,
    /// An operational error not yet emitted.
    pub failed: Option<NitterError>,
}

/// A stream of posts: a state machine that a driver advances with
/// [`NitterScraper::next_step`], performing the fetches it asks for and handing
/// back each page with [`NitterScraper::feed_page`].
pub struct NitterScraper {
    config: ScrapeConfig,
    base: String,
    initial_query: String,
    queue: Vec<Tweet>,
    pinned: Option<Tweet>,
    cursor: NitterCursor,
    emitted: usize,
    status: StreamStatus,
    failed: Option<NitterError>,
}

impl View for NitterScraper {
    type V = ScraperView;

    closed spec fn view(&self) -> ScraperView {
        ScraperView {
            config: self.config,
            base: self.base@,
            initial_query: self.initial_query@,
            queue: self.queue@,
            pinned: self.pinned,
            cursor: self.cursor,
            emitted: self.emitted as nat,
            status: self.status,
            failed: self.failed,
        }
    }
}

/// `t` is at or above the configured id floor.
pub open spec fn above_floor(c: ScrapeConfig, t: Tweet) -> bool {
    c.min_id is Some ==> t.id >= c.min_id->0
}

/// `t` is one the configuration lets through at all.
pub open spec fn admitted(c: ScrapeConfig, t: Tweet) -> bool {
    c.skip_retweets ==> !t.retweet
}

pub open spec fn limit_reached(v: ScraperView) -> bool {
    v.config.limit is Some && v.emitted >= v.config.limit->0
}

/// Count after one more item; it stays at `usize::MAX` once there.
pub open spec fn bumped(n: nat) -> nat {
    if n < usize::MAX { n + 1 } else { n }
}

/// The stashed pinned post is later than the head of the queue.
pub open spec fn pinned_first(v: ScraperView) -> bool {
    v.queue.len() > 0 && v.pinned is Some && v.pinned->0.created_at_ts > v.queue[0].created_at_ts
}

/// The head of the queue may be emitted: it is not below the id floor.
pub open spec fn head_eligible(v: ScraperView) -> bool {
    v.queue.len() > 0 && above_floor(v.config, v.queue[0])
}

/// URL of the next page to fetch.
pub open spec fn next_url(v: ScraperView) -> Seq<char> {
    match v.cursor {
        NitterCursor::More(token) => v.base + token@,
        _ => if v.initial_query.len() == 0 {
            v.base
        } else {
            v.base + "?"@ + v.initial_query
        },
    }
}

impl ScraperView {
    /// The invariant of a stream.
    pub open spec fn wf(&self) -> bool {
        &&& self.pinned is Some ==> {
            &&& self.config.reorder_pinned
            &&& above_floor(self.config, self.pinned->0)
            &&& admitted(self.config, self.pinned->0)
        }
        &&& forall|i: int| 0 <= i < self.queue.len() ==> admitted(self.config, #[trigger] self.queue[i])
        &&& self.config.limit is Some ==> self.emitted <= self.config.limit->0
        &&& self.emitted <= usize::MAX
        &&& self.failed is Some ==> self.status == StreamStatus::OperationalFailureEnd
    }
}

/// Posts of `s` that the configuration lets through, in order.
pub open spec fn retained(s: Seq<Tweet>, skip_retweets: bool) -> Seq<Tweet>
    decreases s.len(),
{
    if s.len() == 0 {
        s
    } else if skip_retweets && s[0].retweet {
        retained(s.drop_first(), skip_retweets)
    } else {
        seq![s[0]] + retained(s.drop_first(), skip_retweets)
    }
}

/// `j` is the position of the first pinned post of `s`.
pub open spec fn first_pinned_at(s: Seq<Tweet>, j: int) -> bool {
    0 <= j < s.len() && s[j].pinned && forall|k: int| 0 <= k < j ==> !(#[trigger] s[k]).pinned
}

pub open spec fn no_pinned(s: Seq<Tweet>) -> bool {
    forall|k: int| 0 <= k < s.len() ==> !(#[trigger] s[k]).pinned
}

/// How the page `page` changes the queue and the stash: retweets dropped if
/// so configured; with reordering, the first pinned post leaves the page and
/// replaces the stash, unless it is below the id floor, when it is dropped;
/// the rest joins the queue.
pub open spec fn absorbed(v: ScraperView, page: Seq<Tweet>, queue: Seq<Tweet>, pinned: Option<Tweet>) -> bool {
    let kept = retained(page, v.config.skip_retweets);
    if v.config.reorder_pinned {
        if no_pinned(kept) {
            queue == v.queue + kept && pinned == v.pinned
        } else {
            exists|j: int| #![auto] first_pinned_at(kept, j) && queue == v.queue + kept.remove(j)
                && pinned == if above_floor(v.config, kept[j]) { Some(kept[j]) } else { v.pinned }
        }
    } else {
        queue == v.queue + kept && pinned == v.pinned
    }
}

proof fn lemma_retained_admitted(s: Seq<Tweet>, c: ScrapeConfig)
    ensures
        forall|i: int| 0 <= i < retained(s, c.skip_retweets).len()
            ==> admitted(c, #[trigger] retained(s, c.skip_retweets)[i]),
    decreases s.len(),
{
    if s.len() > 0 {
        lemma_retained_admitted(s.drop_first(), c);
        let r = retained(s.drop_first(), c.skip_retweets);
        if !(c.skip_retweets && s[0].retweet) {
            assert forall|i: int| 0 <= i < (seq![s[0]] + r).len() implies admitted(c, #[trigger] (seq![s[0]] + r)[i]) by {
                if i > 0 {
                    assert((seq![s[0]] + r)[i] == r[i - 1]);
                }
            }
        }
    }
}

/// Moves out of `page` the posts that the configuration lets through.
fn retain_posts(page: Vec<Tweet>, skip_retweets: bool) -> (r: Vec<Tweet>)
    ensures
        r@ == retained(page@, skip_retweets),
{
    let mut page = page;
    let ghost all = page@;
    let mut out: Vec<Tweet> = Vec::new();
    while page.len() > 0
        invariant
            out@ + retained(page@, skip_retweets) == retained(all, skip_retweets),
        decreases page.len(),
    {
        let ghost before = page@;
        let t = page.remove(0);
        assert(page@ == before.drop_first());
        if skip_retweets && t.retweet {
        } else {
            out.push(t);
            assert(out@ + retained(page@, skip_retweets) =~= out@.drop_last() + (seq![t]
                + retained(page@, skip_retweets)));
        }
    }
    assert(retained(page@, skip_retweets) == page@);
    assert(out@ + page@ =~= out@);
    out
}

/// Position of the first pinned post of `s`, if any.
fn find_pinned(s: &Vec<Tweet>) -> (r: Option<usize>)
    ensures
        r is None ==> no_pinned(s@),
        r is Some ==> first_pinned_at(s@, r->0 as int),
{
    let mut i: usize = 0;
    while i < s.len()
        invariant
            i <= s.len(),
            forall|k: int| 0 <= k < i ==> !(#[trigger] s@[k]).pinned,
        decreases s.len() - i,
    {
        if s[i].pinned {
            return Some(i);
        }
        i = i + 1;
    }
    None
}

/// What one step gives, as the abstract state sees it.
pub enum StepOut {
    Emitted(Tweet),
    Failed(NitterError),
    Fetching(Seq<char>),
    Finished,
}

pub open spec fn step_out(r: StreamStep) -> StepOut {
    match r {
        StreamStep::Emit(t) => StepOut::Emitted(t),
        StreamStep::Fail(e) => StepOut::Failed(e),
        StreamStep::Fetch(url) => StepOut::Fetching(url@),
        StreamStep::Done => StepOut::Finished,
    }
}

/// One step of a stream: the state after it, and what it gives.
pub open spec fn step(v: ScraperView) -> (ScraperView, StepOut) {
    if v.failed is Some && !limit_reached(v) {
        (
            ScraperView { failed: None, emitted: bumped(v.emitted), ..v },
            StepOut::Failed(v.failed->0),
        )
    } else if v.status != StreamStatus::Running {
        (v, StepOut::Finished)
    } else if limit_reached(v) {
        (ScraperView { status: StreamStatus::NormalEnd, ..v }, StepOut::Finished)
    } else if pinned_first(v) {
        (
            ScraperView { pinned: None, emitted: bumped(v.emitted), ..v },
            StepOut::Emitted(v.pinned->0),
        )
    } else if head_eligible(v) {
        (
            ScraperView { queue: v.queue.drop_first(), emitted: bumped(v.emitted), ..v },
            StepOut::Emitted(v.queue[0]),
        )
    } else if v.cursor is End {
        if v.pinned is Some {
            (
                ScraperView { pinned: None, emitted: bumped(v.emitted), ..v },
                StepOut::Emitted(v.pinned->0),
            )
        } else {
            (ScraperView { status: StreamStatus::NormalEnd, ..v }, StepOut::Finished)
        }
    } else {
        (v, StepOut::Fetching(next_url(v)))
    }
}

/// What `n` steps from `v` give, with no page handed in between.
pub open spec fn run(v: ScraperView, n: nat) -> Seq<StepOut>
    decreases n,
{
    if n == 0 {
        Seq::empty()
    } else {
        seq![step(v).1] + run(step(v).0, (n - 1) as nat)
    }
}

pub open spec fn emissions(s: Seq<Tweet>) -> Seq<StepOut> {
    s.map_values(|t: Tweet| StepOut::Emitted(t))
}

/// `k` is the position of the first post of `q` older than `ts`, or the
/// length of `q` where there is none.
pub open spec fn first_older_at(q: Seq<Tweet>, ts: i64, k: int) -> bool {
    &&& 0 <= k <= q.len()
    &&& forall|i: int| 0 <= i < k ==> (#[trigger] q[i]).created_at_ts >= ts
    &&& k < q.len() ==> q[k].created_at_ts < ts
}

/// A stream at its last page, with no stash, emits its queue in order and ends.
proof fn lemma_drain(v: ScraperView)
    requires
        v.status == StreamStatus::Running,
        v.failed is None,
        v.config.limit is None,
        v.cursor is End,
        v.pinned is None,
        forall|i: int| 0 <= i < v.queue.len() ==> above_floor(v.config, #[trigger] v.queue[i]),
    ensures
        run(v, v.queue.len() + 1) == emissions(v.queue) + seq![StepOut::Finished],
    decreases v.queue.len(),
{
    if v.queue.len() == 0 {
        assert(run(step(v).0, 0) == Seq::<StepOut>::empty());
        assert(emissions(v.queue) =~= Seq::<StepOut>::empty());
        assert(run(v, 1) =~= seq![StepOut::Finished]);
    } else {
        let w = step(v).0;
        assert(head_eligible(v));
        assert(w.queue == v.queue.drop_first());
        assert forall|i: int| 0 <= i < w.queue.len() implies above_floor(w.config, #[trigger] w.queue[i]) by {
            assert(w.queue[i] == v.queue[i + 1]);
        }
        lemma_drain(w);
        assert(run(v, v.queue.len() + 1) == seq![StepOut::Emitted(v.queue[0])] + run(w, w.queue.len() + 1));
        assert(emissions(v.queue) =~= seq![StepOut::Emitted(v.queue[0])] + emissions(w.queue));
        assert(run(v, v.queue.len() + 1) =~= emissions(v.queue) + seq![StepOut::Finished]);
    }
}

/// With reordering, a stream at its last page emits its stashed pinned post
/// just before the first queued post older than it, or after the whole queue
/// where none is older; every other post keeps its place, and the stream then
/// ends.
pub proof fn lemma_pinned_in_place(v: ScraperView, k: int)
    requires
        v.status == StreamStatus::Running,
        v.failed is None,
        v.config.limit is None,
        v.cursor is End,
        v.pinned is Some,
        forall|i: int| 0 <= i < v.queue.len() ==> above_floor(v.config, #[trigger] v.queue[i]),
        first_older_at(v.queue, v.pinned->0.created_at_ts, k),
    ensures
        run(v, v.queue.len() + 2) == emissions(v.queue.take(k)) + seq![StepOut::Emitted(v.pinned->0)]
            + emissions(v.queue.skip(k)) + seq![StepOut::Finished],
    decreases k,
{
    let p = v.pinned->0;
    let w = step(v).0;
    if k == 0 {
        assert(step(v).1 == StepOut::Emitted(p));
        assert(w.queue == v.queue && w.pinned is None);
        lemma_drain(w);
        assert(run(v, v.queue.len() + 2) == seq![StepOut::Emitted(p)] + run(w, w.queue.len() + 1));
        assert(v.queue.take(0) =~= Seq::<Tweet>::empty());
        assert(v.queue.skip(0) =~= v.queue);
        assert(emissions(v.queue.take(0)) =~= Seq::<StepOut>::empty());
        assert(run(v, v.queue.len() + 2) =~= emissions(v.queue.take(k)) + seq![StepOut::Emitted(p)]
            + emissions(v.queue.skip(k)) + seq![StepOut::Finished]);
    } else {
        assert(v.queue[0].created_at_ts >= p.created_at_ts);
        assert(!pinned_first(v));
        assert(head_eligible(v));
        assert(step(v).1 == StepOut::Emitted(v.queue[0]));
        assert(w.queue == v.queue.drop_first() && w.pinned == v.pinned);
        assert forall|i: int| 0 <= i < w.queue.len() implies above_floor(w.config, #[trigger] w.queue[i]) by {
            assert(w.queue[i] == v.queue[i + 1]);
        }
        assert forall|i: int| 0 <= i < k - 1 implies (#[trigger] w.queue[i]).created_at_ts >= p.created_at_ts by {
            assert(w.queue[i] == v.queue[i + 1]);
        }
        if k - 1 < w.queue.len() {
            assert(w.queue[k - 1] == v.queue[k]);
        }
        lemma_pinned_in_place(w, k - 1);
        assert(run(v, v.queue.len() + 2) == seq![StepOut::Emitted(v.queue[0])] + run(w, w.queue.len() + 2));
        assert(emissions(v.queue.take(k)) =~= seq![StepOut::Emitted(v.queue[0])] + emissions(w.queue.take(k - 1)));
        assert(v.queue.skip(k) =~= w.queue.skip(k - 1));
        assert(run(v, v.queue.len() + 2) =~= emissions(v.queue.take(k)) + seq![StepOut::Emitted(p)]
            + emissions(v.queue.skip(k)) + seq![StepOut::Finished]);
    }
}

proof fn lemma_retained_keeps_all(s: Seq<Tweet>)
    ensures
        retained(s, false) == s,
    decreases s.len(),
{
    if s.len() > 0 {
        lemma_retained_keeps_all(s.drop_first());
        assert(seq![s[0]] + s.drop_first() =~= s);
    }
}

/// With reordering on and no limit, id floor or retweet skipping, a fresh
/// stream handed a last page whose first post is pinned emits the page's
/// other posts in order, the pinned post just before the first of them that
/// is older than it (or after all of them where none is), and then ends.
pub proof fn lemma_pinned_page_in_place(v0: ScraperView, page: Seq<Tweet>, v1: ScraperView, k: int)
    requires
        v0.config.reorder_pinned,
        !v0.config.skip_retweets,
        v0.config.min_id is None,
        v0.config.limit is None,
        v0.status == StreamStatus::Running,
        v0.failed is None,
        v0.queue.len() == 0,
        v0.pinned is None,
        page.len() > 0,
        page[0].pinned,
        // `v1` is `v0` after `feed_page` with `Ok((page, End))`.
        v1.config == v0.config,
        v1.status == StreamStatus::Running,
        v1.failed is None,
        v1.cursor is End,
        absorbed(v0, page, v1.queue, v1.pinned),
        first_older_at(page.drop_first(), page[0].created_at_ts, k),
    ensures
        run(v1, page.len() + 1) == emissions(page.drop_first().take(k)) + seq![
            StepOut::Emitted(page[0]),
        ] + emissions(page.drop_first().skip(k)) + seq![StepOut::Finished],
{
    lemma_retained_keeps_all(page);
    assert(!no_pinned(page));
    let j = choose|j: int| #![auto] first_pinned_at(page, j) && v1.queue == v0.queue + page.remove(j)
        && v1.pinned == if above_floor(v0.config, page[j]) { Some(page[j]) } else { v0.pinned };
    if j > 0 {
        assert(!page[0].pinned);
    }
    assert(j == 0);
    assert(v1.queue =~= page.drop_first());
    assert(v1.pinned == Some(page[0]));
    lemma_pinned_in_place(v1, k);
}

/// How many items (posts or the final error) `outs` holds.
pub open spec fn items(outs: Seq<StepOut>) -> nat
    decreases outs.len(),
{
    if outs.len() == 0 {
        0
    } else {
        (if outs[0] is Emitted || outs[0] is Failed { 1nat } else { 0nat }) + items(outs.drop_first())
    }
}

/// One step keeps the invariant of a stream.
pub proof fn lemma_step_keeps_invariant(v: ScraperView)
    requires
        v.wf(),
    ensures
        step(v).0.wf(),
        step(v).0.config == v.config,
{
    let w = step(v).0;
    if !(v.failed is Some && !limit_reached(v)) && v.status == StreamStatus::Running
        && !limit_reached(v) && !pinned_first(v) && head_eligible(v) {
        assert forall|i: int| 0 <= i < w.queue.len() implies admitted(w.config, #[trigger] w.queue[i]) by {
            assert(w.queue[i] == v.queue[i + 1]);
        }
    }
}

/// However many steps a stream takes, the items it emits, with those it had
/// emitted before, never exceed its limit.
pub proof fn lemma_limit_bounds_run(v: ScraperView, n: nat)
    requires
        v.wf(),
        v.config.limit is Some,
    ensures
        items(run(v, n)) + v.emitted <= v.config.limit->0,
    decreases n,
{
    if n > 0 {
        let w = step(v).0;
        lemma_step_keeps_invariant(v);
        lemma_limit_bounds_run(w, (n - 1) as nat);
        let outs = run(v, n);
        assert(outs.drop_first() =~= run(w, (n - 1) as nat));
        if outs[0] is Emitted || outs[0] is Failed {
            assert(w.emitted == v.emitted + 1);
        } else {
            assert(w.emitted == v.emitted);
        }
    }
}

/// A stream ended by a protected, suspended or unknown account gives nothing
/// more: every further step finds it done, and none emits an item.
pub proof fn lemma_account_end_is_silent(v: ScraperView, n: nat)
    requires
        v.status == StreamStatus::ProtectedEnd || v.status == StreamStatus::SuspendedEnd
            || v.status == StreamStatus::NotFoundEnd,
        v.failed is None,
    ensures
        run(v, n) == Seq::new(n, |i: int| StepOut::Finished),
    decreases n,
{
    if n > 0 {
        assert(step(v) == (v, StepOut::Finished));
        lemma_account_end_is_silent(v, (n - 1) as nat);
        assert(run(v, n) =~= Seq::new(n, |i: int| StepOut::Finished));
    } else {
        assert(run(v, n) =~= Seq::new(n, |i: int| StepOut::Finished));
    }
}

/// How a page error ends a stream.
pub open spec fn ending(e: NitterError) -> StreamStatus {
    match e {
        NitterError::ProtectedAccount => StreamStatus::ProtectedEnd,
        NitterError::SuspendedAccount => StreamStatus::SuspendedEnd,
        NitterError::NotFound => StreamStatus::NotFoundEnd,
        _ => StreamStatus::OperationalFailureEnd,
    }
}

/// The cursor after a page that leaves `c`, from `current`: a stream at its
/// end stays there, and a page never sends a stream back to its start.
pub open spec fn advanced(current: NitterCursor, c: NitterCursor) -> NitterCursor {
    match current {
        NitterCursor::End => NitterCursor::End,
        _ => match c {
            NitterCursor::Initial => NitterCursor::End,
            _ => c,
        },
    }
}

impl NitterScraper {
    /// A fresh stream for `query` on the instance at `instance`.
    pub fn new(instance: &str, query: &NitterQuery, config: ScrapeConfig) -> (r: NitterScraper)
        ensures
            r@.wf(),
            r@.config == config,
            r@.base == instance@ + encoded(*query).0,
            r@.initial_query == encoded(*query).1,
            r@.queue.len() == 0,
            r@.pinned is None,
            r@.cursor is Initial,
            r@.emitted == 0,
            r@.status == StreamStatus::Running,
            r@.failed is None,
    {
        let (path, initial_query) = query.encode();
        NitterScraper {
            config,
            base: instance.to_string().concat(path.as_str()),
            initial_query,
            queue: Vec::new(),
            pinned: None,
            cursor: NitterCursor::Initial,
            emitted: 0,
            status: StreamStatus::Running,
            failed: None,
        }
    }

    /// How the stream stands; after `Done`, why it ended.
    pub fn status(&self) -> (r: StreamStatus)
        ensures
            r == self@.status,
    {
        self.status
    }

    /// Items emitted so far.
    pub fn emitted(&self) -> (r: usize)
        ensures
            r as nat == self@.emitted,
    {
        self.emitted
    }

    fn count_item(&mut self)
        requires
            old(self)@.wf(),
            !limit_reached(old(self)@),
        ensures
            final(self)@ == (ScraperView { emitted: bumped(old(self)@.emitted), ..old(self)@ }),
            final(self)@.wf(),
    {
        if self.emitted < usize::MAX {
            self.emitted = self.emitted + 1;
        }
    }

    fn url(&self) -> (r: String)
        ensures
            r@ == next_url(self@),
    {
        match &self.cursor {
            NitterCursor::More(token) => self.base.clone().concat(token.as_str()),
            _ => if self.initial_query.as_str().unicode_len() == 0 {
                self.base.clone()
            } else {
                self.base.clone().concat("?").concat(self.initial_query.as_str())
            },
        }
    }

    /// Advances the stream by one step.
    ///
    /// In order: an operational error not yet emitted is emitted; a stream
    /// that has ended, or has reached its limit, is done; a stashed pinned
    /// post later than the head of the queue is emitted; the head of the
    /// queue is emitted unless it is below the id floor; with no more pages,
    /// the stashed pinned post, if any, is emitted, else the stream is done;
    /// otherwise the next page is to be fetched.
    pub fn next_step(&mut self) -> (r: StreamStep)
        requires
            old(self)@.wf(),
        ensures
            final(self)@.wf(),
            final(self)@.config == old(self)@.config,
            final(self)@.base == old(self)@.base,
            final(self)@.initial_query == old(self)@.initial_query,
            final(self)@.cursor == old(self)@.cursor,
            // The step is the one `step` describes.
            (final(self)@, step_out(r)) == step(old(self)@),
            // Every post emitted is at or above the id floor.
            r is Emit ==> above_floor(old(self)@.config, r->Emit_0),
            // Retweets are never emitted when they are to be skipped.
            r is Emit ==> admitted(old(self)@.config, r->Emit_0),
            // Each item counts, and none is emitted once the limit is reached.
            r is Emit || r is Fail ==> !limit_reached(old(self)@)
                && final(self)@.emitted == bumped(old(self)@.emitted),
            !(r is Emit || r is Fail) ==> final(self)@.emitted == old(self)@.emitted,
            r is Done ==> final(self)@.status != StreamStatus::Running,
    {
        let limited = match self.config.limit {
            Some(l) => self.emitted >= l,
            None => false,
        };
        if !limited {
            if let Some(e) = self.failed.take() {
                self.count_item();
                return StreamStep::Fail(e);
            }
        }
        if self.status != StreamStatus::Running {
            return StreamStep::Done;
        }
        if limited {
            self.status = StreamStatus::NormalEnd;
            return StreamStep::Done;
        }
        if self.queue.len() > 0 {
            let later = match &self.pinned {
                Some(p) => p.created_at_ts > self.queue[0].created_at_ts,
                None => false,
            };
            if later {
                let p = self.pinned.take();
                self.count_item();
                return StreamStep::Emit(p.unwrap());
            }
            let eligible = match self.config.min_id {
                Some(m) => self.queue[0].id >= m,
                None => true,
            };
            if eligible {
                let t = self.queue.remove(0);
                self.count_item();
                return StreamStep::Emit(t);
            }
        }
        if let NitterCursor::End = self.cursor {
            if self.pinned.is_some() {
                let p = self.pinned.take();
                self.count_item();
                return StreamStep::Emit(p.unwrap());
            }
            self.status = StreamStatus::NormalEnd;
            return StreamStep::Done;
        }
        StreamStep::Fetch(self.url())
    }

    /// Hands the stream the outcome of the fetch it asked for.
    ///
    /// On a page: retweets are dropped if so configured; with reordering, the
    /// page's first pinned post goes to the stash, replacing what was there,
    /// unless it is below the id floor, when it is dropped; the other posts
    /// join the queue in page order, and the page's cursor becomes the
    /// stream's. A protected, suspended or unknown account ends the stream
    /// with no item; any other error is kept to be emitted as its final item.
    /// A stream that has ended takes nothing more.
    pub fn feed_page(&mut self, page: Result<(Vec<Tweet>, NitterCursor), NitterError>)
        requires
            old(self)@.wf(),
        ensures
            final(self)@.wf(),
            old(self)@.status != StreamStatus::Running ==> final(self)@ == old(self)@,
            // Pagination never moves back.
            final(self)@.cursor.rank() >= old(self)@.cursor.rank(),
            old(self)@.status == StreamStatus::Running ==> {
                &&& final(self)@.config == old(self)@.config
                &&& final(self)@.base == old(self)@.base
                &&& final(self)@.initial_query == old(self)@.initial_query
                &&& final(self)@.emitted == old(self)@.emitted
                &&& page is Err ==> {
                    &&& final(self)@.status == ending(page->Err_0)
                    &&& final(self)@.failed == if page->Err_0.is_account_state() {
                        None
                    } else {
                        Some(page->Err_0)
                    }
                    &&& final(self)@.queue == old(self)@.queue
                    &&& final(self)@.pinned == old(self)@.pinned
                }
                &&& page is Ok ==> {
                    &&& final(self)@.status == StreamStatus::Running
                    &&& final(self)@.failed is None
                    &&& final(self)@.cursor == advanced(old(self)@.cursor, (page->Ok_0).1)
                    &&& absorbed(old(self)@, (page->Ok_0).0@, final(self)@.queue, final(self)@.pinned)
                }
            },
    {
        if self.status != StreamStatus::Running {
            return;
        }
        match page {
            Err(e) => {
                match e {
                    NitterError::ProtectedAccount => self.status = StreamStatus::ProtectedEnd,
                    NitterError::SuspendedAccount => self.status = StreamStatus::SuspendedEnd,
                    NitterError::NotFound => self.status = StreamStatus::NotFoundEnd,
                    _ => {
                        self.status = StreamStatus::OperationalFailureEnd;
                        self.failed = Some(e);
                    },
                }
            },
            Ok((posts, cursor)) => {
                let ghost old_view = self@;
                assert(forall|i: int| 0 <= i < self.queue@.len() ==> admitted(self.config, #[trigger] self.queue@[i])) by {
                    assert(old_view.queue == self.queue@);
                    assert(old_view.config == self.config);
                }
                let mut kept = retain_posts(posts, self.config.skip_retweets);
                proof {
                    lemma_retained_admitted(posts@, self.config);
                }
                let ghost kept_all = kept@;
                assert(forall|i: int| 0 <= i < kept_all.len() ==> admitted(self.config, #[trigger] kept_all[i]));
                if self.config.reorder_pinned {
                    match find_pinned(&kept) {
                        Some(j) => {
                            let p = kept.remove(j);
                            let keep = match self.config.min_id {
                                Some(m) => p.id >= m,
                                None => true,
                            };
                            if keep {
                                self.pinned = Some(p);
                            }
                            assert(first_pinned_at(kept_all, j as int));
                            assert(p == kept_all[j as int]);
                            assert(admitted(self.config, p));
                            assert(forall|i: int| 0 <= i < kept@.len() ==> #[trigger] kept@[i]
                                == kept_all[if i < j { i } else { i + 1 }]);
                        },
                        None => {},
                    }
                }
                assert(forall|i: int| 0 <= i < kept@.len() ==> admitted(self.config, #[trigger] kept@[i]));
                let ghost kept_now = kept@;
                let ghost queue_before = self.queue@;
                self.queue.append(&mut kept);
                assert(self.queue@ == queue_before + kept_now);
                assert forall|i: int| 0 <= i < self.queue@.len() implies admitted(self.config, #[trigger] self.queue@[i]) by {
                    if i >= queue_before.len() {
                        assert(self.queue@[i] == kept_now[i - queue_before.len()]);
                    } else {
                        assert(self.queue@[i] == queue_before[i]);
                    }
                }
                let at_end = match self.cursor {
                    NitterCursor::End => true,
                    _ => false,
                };
                if !at_end {
                    self.cursor = match cursor {
                        NitterCursor::Initial => NitterCursor::End,
                        c => c,
                    };
                }
            },
        }
    }
}

} // verus!
