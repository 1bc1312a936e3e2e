//! Per-source feed scanning. Each tick fetches the source's feed and applies,
//! in order: the age filter (items at or before now minus the cutoff are
//! discarded, boundary exclusive), the dedup filter (identities already seen
//! are discarded), and the match filter (a pattern must match the title, or
//! the description when description matching is on). Each surviving item
//! becomes a candidate, in feed order, and its identity is remembered so it
//! is never emitted again within the same run.

use vstd::prelude::*;
use crate::config::ChannelConfig;
use crate::pattern::{re_match, re_valid, Pattern};
use crate::task::{clone_opt_string, Task};

verus! {

/// One item of a source's feed, as the opaque platform client reports it.
pub struct FeedItem {
    pub video_id: String,
    pub title: String,
    pub description: String,
    /// Publish time, seconds since the epoch.
    pub published: u64,
    pub thumbnail: String,
}

impl Clone for FeedItem {
    fn clone(&self) -> (res: Self)
        ensures
            res == *self,
    {
        FeedItem {
            video_id: self.video_id.clone(),
            title: self.title.clone(),
            description: self.description.clone(),
            published: self.published,
            thumbnail: self.thumbnail.clone(),
        }
    }
}

/// The age filter: an item survives exactly when it was published strictly
/// after (now − cutoff).
pub open spec fn fresh_enough(published: u64, now: u64, cutoff: u64) -> bool {
    published > now - cutoff
}

/// One pattern hits an item: the pattern is valid and matches the title, or
/// matches the description when description matching is on. An invalid
/// pattern hits nothing.
pub open spec fn pattern_hits(pat: Seq<char>, match_description: bool, title: Seq<char>, description: Seq<char>) -> bool {
    re_valid(pat) && (re_match(pat, title) || (match_description && re_match(pat, description)))
}

/// The match filter: some configured pattern hits the item.
pub open spec fn item_matches(filters: Seq<Pattern>, match_description: bool, item: FeedItem) -> bool {
    exists|i: int|
        0 <= i < filters.len() && pattern_hits(
            (#[trigger] filters[i]).raw@,
            match_description,
            item.title@,
            item.description@,
        )
}

/// All three filters: fresh, not yet seen, and matching.
pub open spec fn item_passes(
    cfg: ChannelConfig,
    seen: Set<Seq<char>>,
    now: u64,
    cutoff: u64,
    item: FeedItem,
) -> bool {
    &&& fresh_enough(item.published, now, cutoff)
    &&& !seen.contains(item.video_id@)
    &&& item_matches(cfg.filters@, cfg.match_description, item)
}

/// The source's picture for this tick: the cached one when present,
/// otherwise whatever the runtime lookup returned.
pub open spec fn effective_picture(cached: Option<String>, fetched: Option<String>) -> Option<
    String,
> {
    if cached is Some {
        cached
    } else {
        fetched
    }
}

/// The candidate a surviving feed item becomes.
pub open spec fn candidate_of(cfg: ChannelConfig, pic: Option<String>, item: FeedItem) -> Task {
    Task {
        title: item.title,
        video_id: item.video_id,
        video_picture: item.thumbnail,
        channel_name: cfg.name,
        channel_id: cfg.id,
        channel_picture: pic,
        output_directory: cfg.outpath,
    }
}

/// One tick over the feed, oldest-first in feed order: the candidates
/// emitted and the seen set afterwards. An emitted identity enters the seen
/// set at once, so a second item with the same identity in the same feed is
/// already deduplicated.
pub open spec fn tick_fold(
    cfg: ChannelConfig,
    seen: Set<Seq<char>>,
    now: u64,
    cutoff: u64,
    items: Seq<FeedItem>,
    pic: Option<String>,
) -> (Seq<Task>, Set<Seq<char>>)
    decreases items.len(),
{
    if items.len() == 0 {
        (Seq::<Task>::empty(), seen)
    } else {
        let item = items[0];
        if item_passes(cfg, seen, now, cutoff, item) {
            let rest = tick_fold(
                cfg,
                seen.insert(item.video_id@),
                now,
                cutoff,
                items.drop_first(),
                pic,
            );
            (seq![candidate_of(cfg, pic, item)] + rest.0, rest.1)
        } else {
            tick_fold(cfg, seen, now, cutoff, items.drop_first(), pic)
        }
    }
}

/// The candidates one tick emits.
pub open spec fn tick_candidates(
    cfg: ChannelConfig,
    seen: Set<Seq<char>>,
    now: u64,
    cutoff: u64,
    items: Seq<FeedItem>,
    pic: Option<String>,
) -> Seq<Task> {
    tick_fold(cfg, seen, now, cutoff, items, pic).0
}

/// The identities a source's scanner has already processed, owned
/// exclusively by that scanner for the process lifetime.
pub struct SeenSet {
    pub ids: Vec<String>,
}

impl SeenSet {
    /// The set of identities seen so far.
    pub open spec fn as_set(self) -> Set<Seq<char>> {
        Set::new(
            |id: Seq<char>|
                exists|k: int| 0 <= k < self.ids@.len() && (#[trigger] self.ids@[k])@ == id,
        )
    }

    pub fn new() -> (r: Self)
        ensures
            r.as_set() == Set::<Seq<char>>::empty(),
    {
        let r = SeenSet { ids: Vec::new() };
        proof {
            assert(r.as_set() =~= Set::<Seq<char>>::empty());
        }
        r
    }

    pub fn contains(&self, id: &String) -> (r: bool)
        ensures
            r == self.as_set().contains(id@),
    {
        let mut i: usize = 0;
        while i < self.ids.len()
            invariant
                i <= self.ids@.len(),
                forall|k: int| 0 <= k < i ==> (#[trigger] self.ids@[k])@ != id@,
            decreases self.ids@.len() - i,
        {
            if self.ids[i] == *id {
                return true;
            }
            i = i + 1;
        }
        false
    }

    pub fn insert(&mut self, id: String)
        ensures
            final(self).as_set() == old(self).as_set().insert(id@),
    {
        if !self.contains(&id) {
            let ghost pre = self.ids@;
            self.ids.push(id);
            proof {
                assert forall|x: Seq<char>|
                    self.as_set().contains(x) <==> old(self).as_set().insert(id@).contains(x) by {
                    if self.as_set().contains(x) {
                        let k = choose|k: int|
                            0 <= k < self.ids@.len() && (#[trigger] self.ids@[k])@ == x;
                        if k < pre.len() {
                            assert(pre[k]@ == x);
                        }
                    }
                    if old(self).as_set().contains(x) {
                        let k = choose|k: int| 0 <= k < pre.len() && (#[trigger] pre[k])@ == x;
                        assert(self.ids@[k]@ == x);
                    }
                    if x == id@ {
                        assert(self.ids@[pre.len() as int]@ == x);
                    }
                }
                assert(self.as_set() =~= old(self).as_set().insert(id@));
            }
        } else {
            proof {
                assert(self.as_set() =~= old(self).as_set().insert(id@));
            }
        }
    }
}

/// One source's scanner: its configuration snapshot and its seen set.
pub struct Scanner {
    pub config: ChannelConfig,
    pub seen: SeenSet,
}

/// What one tick does to a scanner: it emits exactly the fold's candidates,
/// remembers exactly the fold's identities, and caches the picture it used
/// whenever it emitted anything.
pub open spec fn tick_effect(
    pre: Scanner,
    post: Scanner,
    now: u64,
    cutoff: u64,
    items: Seq<FeedItem>,
    fetched_picture: Option<String>,
    out: Seq<Task>,
) -> bool {
    let pic = effective_picture(pre.config.picture_url, fetched_picture);
    let fold = tick_fold(pre.config, pre.seen.as_set(), now, cutoff, items, pic);
    &&& out == fold.0
    &&& post.seen.as_set() == fold.1
    &&& post.config == (if fold.0.len() > 0 {
        ChannelConfig { picture_url: pic, ..pre.config }
    } else {
        pre.config
    })
}

/// Whether some configured pattern hits this item.
fn matches_item(cfg: &ChannelConfig, item: &FeedItem) -> (r: bool)
    ensures
        r == item_matches(cfg.filters@, cfg.match_description, *item),
{
    let mut i: usize = 0;
    while i < cfg.filters.len()
        invariant
            i <= cfg.filters@.len(),
            forall|k: int|
                0 <= k < i ==> !pattern_hits(
                    (#[trigger] cfg.filters@[k]).raw@,
                    cfg.match_description,
                    item.title@,
                    item.description@,
                ),
        decreases cfg.filters@.len() - i,
    {
        let p = &cfg.filters[i];
        let hit = p.is_match(item.title.as_str()) || (cfg.match_description && p.is_match(
            item.description.as_str(),
        ));
        if hit {
            assert(pattern_hits(
                cfg.filters@[i as int].raw@,
                cfg.match_description,
                item.title@,
                item.description@,
            ));
            return true;
        }
        i = i + 1;
    }
    false
}

impl Scanner {
    pub fn new(config: ChannelConfig) -> (r: Self)
        ensures
            r.config == config,
            r.seen.as_set() == Set::<Seq<char>>::empty(),
    {
        Scanner { config, seen: SeenSet::new() }
    }

    /// One tick over this source's current feed. `fetched_picture` is what
    /// the runtime picture lookup returned, consulted only when the source
    /// has no cached picture; it is cached once anything is emitted.
    pub fn tick(
        &mut self,
        now: u64,
        cutoff: u64,
        items: &Vec<FeedItem>,
        fetched_picture: Option<String>,
    ) -> (r: Vec<Task>)
        ensures
            tick_effect(*old(self), *final(self), now, cutoff, items@, fetched_picture, r@),
    {
        let ghost cfg0 = self.config;
        let ghost seen0 = self.seen.as_set();
        let pic = match &self.config.picture_url {
            Some(p) => Some(p.clone()),
            None => fetched_picture,
        };
        let ghost pic0 = effective_picture(cfg0.picture_url, fetched_picture);
        assert(pic == pic0);
        let ghost full = tick_fold(cfg0, seen0, now, cutoff, items@, pic0);
        let mut out: Vec<Task> = Vec::new();
        let mut i: usize = 0;
        proof {
            assert(items@.skip(0) =~= items@);
            assert(out@ + full.0 =~= full.0);
        }
        while i < items.len()
            invariant
                i <= items@.len(),
                self.config == cfg0,
                pic == pic0,
                full == tick_fold(cfg0, seen0, now, cutoff, items@, pic0),
                ({
                    let rest = tick_fold(
                        cfg0,
                        self.seen.as_set(),
                        now,
                        cutoff,
                        items@.skip(i as int),
                        pic0,
                    );
                    full.0 == out@ + rest.0 && full.1 == rest.1
                }),
            decreases items@.len() - i,
        {
            let ghost seen_cur = self.seen.as_set();
            let ghost suffix = items@.skip(i as int);
            proof {
                assert(suffix.len() > 0);
                assert(suffix[0] == items@[i as int]);
                assert(suffix.drop_first() =~= items@.skip(i as int + 1));
            }
            let item = &items[i];
            let fresh = (item.published as u128) + (cutoff as u128) > (now as u128);
            let passes = fresh && !self.seen.contains(&item.video_id) && matches_item(
                &self.config,
                item,
            );
            assert(passes == item_passes(cfg0, seen_cur, now, cutoff, items@[i as int]));
            if passes {
                let candidate = Task {
                    title: item.title.clone(),
                    video_id: item.video_id.clone(),
                    video_picture: item.thumbnail.clone(),
                    channel_name: self.config.name.clone(),
                    channel_id: self.config.id.clone(),
                    channel_picture: clone_opt_string(&pic),
                    output_directory: self.config.outpath.clone(),
                };
                assert(candidate == candidate_of(cfg0, pic0, items@[i as int]));
                out.push(candidate);
                self.seen.insert(item.video_id.clone());
                proof {
                    let rest = tick_fold(cfg0, seen_cur, now, cutoff, suffix, pic0);
                    let rest2 = tick_fold(
                        cfg0,
                        self.seen.as_set(),
                        now,
                        cutoff,
                        items@.skip(i as int + 1),
                        pic0,
                    );
                    assert(rest.0 == seq![candidate_of(cfg0, pic0, items@[i as int])] + rest2.0);
                    assert(out@ + rest2.0 =~= (out@.drop_last() + rest.0));
                }
            }
            i = i + 1;
        }
        proof {
            assert(items@.skip(items@.len() as int) =~= Seq::<FeedItem>::empty());
            let rest = tick_fold(
                cfg0,
                self.seen.as_set(),
                now,
                cutoff,
                items@.skip(items@.len() as int),
                pic0,
            );
            assert(rest.0 =~= Seq::<Task>::empty());
            assert(full.0 =~= out@);
        }
        if out.len() > 0 {
            self.config.picture_url = pic;
        }
        out
    }
}

/// Every candidate a tick emits stems from a feed item that passed all three
/// filters: it was fresh, its identity was not yet seen when the scan reached
/// it, and it matched.
pub proof fn lemma_candidates_sound(
    cfg: ChannelConfig,
    seen: Set<Seq<char>>,
    now: u64,
    cutoff: u64,
    items: Seq<FeedItem>,
    pic: Option<String>,
)
    ensures
        forall|k: int|
            0 <= k < tick_candidates(cfg, seen, now, cutoff, items, pic).len() ==> exists|j: int|
                0 <= j < items.len() && #[trigger] tick_candidates(
                    cfg,
                    seen,
                    now,
                    cutoff,
                    items,
                    pic,
                )[k] == candidate_of(cfg, pic, #[trigger] items[j]) && fresh_enough(
                    items[j].published,
                    now,
                    cutoff,
                ) && !seen.contains(items[j].video_id@) && item_matches(
                    cfg.filters@,
                    cfg.match_description,
                    items[j],
                ),
    decreases items.len(),
{
    let out = tick_candidates(cfg, seen, now, cutoff, items, pic);
    if items.len() == 0 {
    } else {
        let item = items[0];
        let rest_items = items.drop_first();
        if item_passes(cfg, seen, now, cutoff, item) {
            let seen2 = seen.insert(item.video_id@);
            lemma_candidates_sound(cfg, seen2, now, cutoff, rest_items, pic);
            let rest = tick_candidates(cfg, seen2, now, cutoff, rest_items, pic);
            assert(out == seq![candidate_of(cfg, pic, item)] + rest);
            assert forall|k: int| 0 <= k < out.len() implies exists|j: int|
                0 <= j < items.len() && #[trigger] out[k] == candidate_of(
                    cfg,
                    pic,
                    #[trigger] items[j],
                ) && fresh_enough(items[j].published, now, cutoff) && !seen.contains(
                    items[j].video_id@,
                ) && item_matches(cfg.filters@, cfg.match_description, items[j]) by {
                if k == 0 {
                    assert(out[0] == candidate_of(cfg, pic, items[0]));
                } else {
                    let j2 = choose|j2: int|
                        0 <= j2 < rest_items.len() && #[trigger] rest[k - 1] == candidate_of(
                            cfg,
                            pic,
                            #[trigger] rest_items[j2],
                        ) && fresh_enough(rest_items[j2].published, now, cutoff)
                            && !seen2.contains(rest_items[j2].video_id@) && item_matches(
                            cfg.filters@,
                            cfg.match_description,
                            rest_items[j2],
                        );
                    assert(items[j2 + 1] == rest_items[j2]);
                    assert(!seen.contains(items[j2 + 1].video_id@));
                    assert(out[k] == candidate_of(cfg, pic, items[j2 + 1]));
                }
            }
        } else {
            lemma_candidates_sound(cfg, seen, now, cutoff, rest_items, pic);
            let rest = tick_candidates(cfg, seen, now, cutoff, rest_items, pic);
            assert(out == rest);
            assert forall|k: int| 0 <= k < out.len() implies exists|j: int|
                0 <= j < items.len() && #[trigger] out[k] == candidate_of(
                    cfg,
                    pic,
                    #[trigger] items[j],
                ) && fresh_enough(items[j].published, now, cutoff) && !seen.contains(
                    items[j].video_id@,
                ) && item_matches(cfg.filters@, cfg.match_description, items[j]) by {
                let j2 = choose|j2: int|
                    0 <= j2 < rest_items.len() && #[trigger] rest[k] == candidate_of(
                        cfg,
                        pic,
                        #[trigger] rest_items[j2],
                    ) && fresh_enough(rest_items[j2].published, now, cutoff) && !seen.contains(
                        rest_items[j2].video_id@,
                    ) && item_matches(cfg.filters@, cfg.match_description, rest_items[j2]);
                assert(items[j2 + 1] == rest_items[j2]);
                assert(out[k] == candidate_of(cfg, pic, items[j2 + 1]));
            }
        }
    }
}

/// One tick never emits two candidates with the same identity, even when
/// the feed lists an identity twice: an emitted identity is seen at once.
pub proof fn lemma_no_duplicate_candidates(
    cfg: ChannelConfig,
    seen: Set<Seq<char>>,
    now: u64,
    cutoff: u64,
    items: Seq<FeedItem>,
    pic: Option<String>,
)
    ensures
        forall|k1: int, k2: int|
            0 <= k1 < k2 < tick_candidates(cfg, seen, now, cutoff, items, pic).len()
                ==> (#[trigger] tick_candidates(cfg, seen, now, cutoff, items, pic)[k1]).video_id@
                != (#[trigger] tick_candidates(cfg, seen, now, cutoff, items, pic)[k2]).video_id@,
    decreases items.len(),
{
    let out = tick_candidates(cfg, seen, now, cutoff, items, pic);
    if items.len() == 0 {
    } else {
        let item = items[0];
        let rest_items = items.drop_first();
        if item_passes(cfg, seen, now, cutoff, item) {
            let seen2 = seen.insert(item.video_id@);
            lemma_no_duplicate_candidates(cfg, seen2, now, cutoff, rest_items, pic);
            lemma_seen_never_reemitted(cfg, seen2, now, cutoff, rest_items, pic, item.video_id@);
            let rest = tick_candidates(cfg, seen2, now, cutoff, rest_items, pic);
            assert(out == seq![candidate_of(cfg, pic, item)] + rest);
            assert forall|k1: int, k2: int| 0 <= k1 < k2 < out.len() implies (#[trigger] out[k1]).video_id@
                != (#[trigger] out[k2]).video_id@ by {
                if k1 == 0 {
                    assert(out[k2] == rest[k2 - 1]);
                    assert(rest[k2 - 1].video_id@ != item.video_id@);
                } else {
                    assert(out[k1] == rest[k1 - 1] && out[k2] == rest[k2 - 1]);
                }
            }
        } else {
            lemma_no_duplicate_candidates(cfg, seen, now, cutoff, rest_items, pic);
        }
    }
}

/// For all items published at or before (now − cutoff), the scanner never
/// emits a candidate for them: an identity whose every occurrence in the
/// feed is stale never appears among the tick's candidates.
pub proof fn lemma_stale_never_emitted(
    cfg: ChannelConfig,
    seen: Set<Seq<char>>,
    now: u64,
    cutoff: u64,
    items: Seq<FeedItem>,
    pic: Option<String>,
    id: Seq<char>,
)
    requires
        forall|j: int|
            0 <= j < items.len() && (#[trigger] items[j]).video_id@ == id ==> !fresh_enough(
                items[j].published,
                now,
                cutoff,
            ),
    ensures
        forall|k: int|
            0 <= k < tick_candidates(cfg, seen, now, cutoff, items, pic).len()
                ==> (#[trigger] tick_candidates(cfg, seen, now, cutoff, items, pic)[k]).video_id@
                != id,
{
    let out = tick_candidates(cfg, seen, now, cutoff, items, pic);
    lemma_candidates_sound(cfg, seen, now, cutoff, items, pic);
    assert forall|k: int| 0 <= k < out.len() implies (#[trigger] out[k]).video_id@ != id by {
        let j = choose|j: int|
            0 <= j < items.len() && #[trigger] out[k] == candidate_of(cfg, pic, #[trigger] items[j])
                && fresh_enough(items[j].published, now, cutoff) && !seen.contains(
                items[j].video_id@,
            ) && item_matches(cfg.filters@, cfg.match_description, items[j]);
        assert(out[k].video_id@ == items[j].video_id@);
    }
}

/// For all identities already in the source's seen set, the scanner never
/// re-emits a candidate for that identity.
pub proof fn lemma_seen_never_reemitted(
    cfg: ChannelConfig,
    seen: Set<Seq<char>>,
    now: u64,
    cutoff: u64,
    items: Seq<FeedItem>,
    pic: Option<String>,
    id: Seq<char>,
)
    requires
        seen.contains(id),
    ensures
        forall|k: int|
            0 <= k < tick_candidates(cfg, seen, now, cutoff, items, pic).len()
                ==> (#[trigger] tick_candidates(cfg, seen, now, cutoff, items, pic)[k]).video_id@
                != id,
{
    let out = tick_candidates(cfg, seen, now, cutoff, items, pic);
    lemma_candidates_sound(cfg, seen, now, cutoff, items, pic);
    assert forall|k: int| 0 <= k < out.len() implies (#[trigger] out[k]).video_id@ != id by {
        let j = choose|j: int|
            0 <= j < items.len() && #[trigger] out[k] == candidate_of(cfg, pic, #[trigger] items[j])
                && fresh_enough(items[j].published, now, cutoff) && !seen.contains(
                items[j].video_id@,
            ) && item_matches(cfg.filters@, cfg.match_description, items[j]);
        assert(out[k].video_id@ == items[j].video_id@);
    }
}

/// What one source's poll returned this cycle: the feed (None when the fetch
/// or parse failed) and what the runtime picture lookup returned.
pub struct PollInput {
    pub fetched: Option<Vec<FeedItem>>,
    pub fetched_picture: Option<String>,
}

/// The candidates one source contributes to a cycle: its tick's candidates,
/// or nothing when its fetch failed. It depends on that source's scanner and
/// input alone.
pub open spec fn source_candidates(sc: Scanner, input: PollInput, now: u64, cutoff: u64) -> Seq<
    Task,
> {
    match input.fetched {
        Some(items) => tick_candidates(
            sc.config,
            sc.seen.as_set(),
            now,
            cutoff,
            items@,
            effective_picture(sc.config.picture_url, input.fetched_picture),
        ),
        None => Seq::<Task>::empty(),
    }
}

/// The candidates of one whole cycle: each source's contribution, in source
/// order.
pub open spec fn cycle_candidates(
    scs: Seq<Scanner>,
    inputs: Seq<PollInput>,
    now: u64,
    cutoff: u64,
) -> Seq<Task>
    decreases scs.len(),
{
    if scs.len() == 0 || inputs.len() == 0 {
        Seq::<Task>::empty()
    } else {
        source_candidates(scs[0], inputs[0], now, cutoff) + cycle_candidates(
            scs.drop_first(),
            inputs.drop_first(),
            now,
            cutoff,
        )
    }
}

/// A cycle's candidates split around any one source: what comes before it,
/// its own contribution, and what comes after it.
pub proof fn lemma_cycle_split(
    scs: Seq<Scanner>,
    inputs: Seq<PollInput>,
    now: u64,
    cutoff: u64,
    a: int,
)
    requires
        scs.len() == inputs.len(),
        0 <= a < scs.len(),
    ensures
        cycle_candidates(scs, inputs, now, cutoff) == cycle_candidates(
            scs.take(a),
            inputs.take(a),
            now,
            cutoff,
        ) + source_candidates(scs[a], inputs[a], now, cutoff) + cycle_candidates(
            scs.skip(a + 1),
            inputs.skip(a + 1),
            now,
            cutoff,
        ),
    decreases a,
{
    if a == 0 {
        assert(scs.take(0) =~= Seq::<Scanner>::empty());
        assert(scs.drop_first() =~= scs.skip(1));
        assert(inputs.drop_first() =~= inputs.skip(1));
        assert(cycle_candidates(scs, inputs, now, cutoff) =~= cycle_candidates(
            scs.take(0),
            inputs.take(0),
            now,
            cutoff,
        ) + source_candidates(scs[0], inputs[0], now, cutoff) + cycle_candidates(
            scs.skip(1),
            inputs.skip(1),
            now,
            cutoff,
        ));
    } else {
        let dscs = scs.drop_first();
        let dinputs = inputs.drop_first();
        lemma_cycle_split(dscs, dinputs, now, cutoff, a - 1);
        assert(dscs.take(a - 1) =~= scs.take(a).drop_first());
        assert(dinputs.take(a - 1) =~= inputs.take(a).drop_first());
        assert(dscs[a - 1] == scs[a]);
        assert(dinputs[a - 1] == inputs[a]);
        assert(dscs.skip(a) =~= scs.skip(a + 1));
        assert(dinputs.skip(a) =~= inputs.skip(a + 1));
        assert(scs.take(a)[0] == scs[0]);
        assert(inputs.take(a)[0] == inputs[0]);
        assert(cycle_candidates(scs.take(a), inputs.take(a), now, cutoff)
            == source_candidates(scs[0], inputs[0], now, cutoff) + cycle_candidates(
            dscs.take(a - 1),
            dinputs.take(a - 1),
            now,
            cutoff,
        ));
        assert(cycle_candidates(scs, inputs, now, cutoff) =~= cycle_candidates(
            scs.take(a),
            inputs.take(a),
            now,
            cutoff,
        ) + source_candidates(scs[a], inputs[a], now, cutoff) + cycle_candidates(
            scs.skip(a + 1),
            inputs.skip(a + 1),
            now,
            cutoff,
        ));
    }
}

/// A fetch failure for one source never delays or drops candidates for the
/// other sources polled in the same cycle: every other source's contribution
/// is unchanged, and the cycle's output merely loses the failed source's own
/// block.
pub proof fn lemma_fetch_failure_isolated(
    scs: Seq<Scanner>,
    inputs: Seq<PollInput>,
    now: u64,
    cutoff: u64,
    a: int,
)
    requires
        scs.len() == inputs.len(),
        0 <= a < scs.len(),
    ensures
        ({
            let failed = inputs.update(
                a,
                (PollInput { fetched: None, fetched_picture: inputs[a].fetched_picture }),
            );
            &&& forall|b: int|
                0 <= b < scs.len() && b != a ==> source_candidates(
                    scs[b],
                    #[trigger] failed[b],
                    now,
                    cutoff,
                ) == source_candidates(scs[b], inputs[b], now, cutoff)
            &&& cycle_candidates(scs, failed, now, cutoff) == cycle_candidates(
                scs.take(a),
                inputs.take(a),
                now,
                cutoff,
            ) + cycle_candidates(scs.skip(a + 1), inputs.skip(a + 1), now, cutoff)
        }),
{
    let failed = inputs.update(
        a,
        (PollInput { fetched: None, fetched_picture: inputs[a].fetched_picture }),
    );
    lemma_cycle_split(scs, failed, now, cutoff, a);
    assert(failed.take(a) =~= inputs.take(a));
    assert(failed.skip(a + 1) =~= inputs.skip(a + 1));
    assert(source_candidates(scs[a], failed[a], now, cutoff) =~= Seq::<Task>::empty());
    assert(cycle_candidates(scs.take(a), inputs.take(a), now, cutoff) + source_candidates(
        scs[a],
        failed[a],
        now,
        cutoff,
    ) =~= cycle_candidates(scs.take(a), inputs.take(a), now, cutoff));
}

/// One polling cycle over every source: each source with a fetched feed
/// ticks, a source whose fetch failed is left untouched, and the cycle's
/// candidates are exactly each source's contribution in source order.
pub fn poll_cycle(
    scanners: &mut Vec<Scanner>,
    inputs: Vec<PollInput>,
    now: u64,
    cutoff: u64,
) -> (r: Vec<Task>)
    requires
        inputs@.len() == old(scanners)@.len(),
    ensures
        final(scanners)@.len() == old(scanners)@.len(),
        r@ == cycle_candidates(old(scanners)@, inputs@, now, cutoff),
        forall|k: int|
            0 <= k < old(scanners)@.len() ==> (match inputs@[k].fetched {
                Some(items) => tick_effect(
                    old(scanners)@[k],
                    #[trigger] final(scanners)@[k],
                    now,
                    cutoff,
                    items@,
                    inputs@[k].fetched_picture,
                    source_candidates(old(scanners)@[k], inputs@[k], now, cutoff),
                ),
                None => final(scanners)@[k] == old(scanners)@[k],
            }),
{
    let ghost scs0 = scanners@;
    let ghost inputs0 = inputs@;
    let mut rem = inputs;
    let mut out: Vec<Task> = Vec::new();
    let mut i: usize = 0;
    proof {
        assert(scs0.skip(0) =~= scs0);
        assert(inputs0.skip(0) =~= inputs0);
        assert(out@ + cycle_candidates(scs0, inputs0, now, cutoff) =~= cycle_candidates(
            scs0,
            inputs0,
            now,
            cutoff,
        ));
    }
    while i < scanners.len()
        invariant
            scanners@.len() == scs0.len(),
            inputs0.len() == scs0.len(),
            i <= scs0.len(),
            rem@ == inputs0.skip(i as int),
            forall|k: int| i <= k < scs0.len() ==> #[trigger] scanners@[k] == scs0[k],
            forall|k: int|
                0 <= k < i ==> (match inputs0[k].fetched {
                    Some(items) => tick_effect(
                        scs0[k],
                        #[trigger] scanners@[k],
                        now,
                        cutoff,
                        items@,
                        inputs0[k].fetched_picture,
                        source_candidates(scs0[k], inputs0[k], now, cutoff),
                    ),
                    None => scanners@[k] == scs0[k],
                }),
            out@ + cycle_candidates(scs0.skip(i as int), inputs0.skip(i as int), now, cutoff)
                == cycle_candidates(scs0, inputs0, now, cutoff),
        decreases scs0.len() - i,
    {
        proof {
            assert(scs0.skip(i as int)[0] == scs0[i as int]);
            assert(inputs0.skip(i as int)[0] == inputs0[i as int]);
            assert(scs0.skip(i as int).drop_first() =~= scs0.skip(i as int + 1));
            assert(inputs0.skip(i as int).drop_first() =~= inputs0.skip(i as int + 1));
        }
        let ghost out_pre = out@;
        let input = rem.remove(0);
        proof {
            assert(rem@ =~= inputs0.skip(i as int + 1));
            assert(input == inputs0[i as int]);
        }
        let ghost pre_remove = scanners@;
        let mut sc = scanners.remove(i);
        assert(sc == scs0[i as int]);
        let PollInput { fetched, fetched_picture } = input;
        match fetched {
            Some(items) => {
                let mut cands = sc.tick(now, cutoff, &items, fetched_picture);
                proof {
                    assert(cands@ == source_candidates(scs0[i as int], inputs0[i as int], now, cutoff));
                }
                out.append(&mut cands);
            },
            None => {},
        }
        scanners.insert(i, sc);
        proof {
            assert forall|k: int| 0 <= k < scs0.len() implies #[trigger] scanners@[k] == (if k
                == i as int {
                sc
            } else {
                pre_remove[k]
            }) by {
                if k < i as int {
                    assert(scanners@[k] == pre_remove.remove(i as int)[k]);
                } else if k > i as int {
                    assert(scanners@[k] == pre_remove.remove(i as int)[k - 1]);
                }
            }
            assert(out@ + cycle_candidates(
                scs0.skip(i as int + 1),
                inputs0.skip(i as int + 1),
                now,
                cutoff,
            ) =~= out_pre + cycle_candidates(scs0.skip(i as int), inputs0.skip(i as int), now, cutoff));
        }
        i = i + 1;
    }
    proof {
        assert(scs0.skip(scs0.len() as int) =~= Seq::<Scanner>::empty());
        assert(out@ =~= cycle_candidates(scs0, inputs0, now, cutoff));
    }
    out
}

} // verus!

