use vstd::prelude::*;
use crate::model::Track;
use crate::text::{trim, trimmed};

verus! {

/// A track that the Spotify search returned, reduced to what the client keeps:
/// its name, the name of its first artist, its URI and its duration.
#[derive(Debug)]
pub struct TrackHit {
    pub title: String,
    pub artist: String,
    pub uri: String,
    pub duration_sec: i64,
}

/// The characters of ` - `.
pub open spec fn dash_word() -> Seq<char> {
    seq![' ', '-', ' ']
}

/// The line shown for a search hit.
pub open spec fn hit_line(hit: TrackHit) -> Seq<char> {
    hit.title@ + dash_word() + hit.artist@
}

/// `t` is the track that `hit` becomes.
pub open spec fn is_track_of(t: Track, hit: TrackHit) -> bool {
    &&& t.format@ == hit_line(hit)
    &&& t.track_id@ == hit.uri@
    &&& t.title@ == hit.title@
    &&& t.artist@ == hit.artist@
    &&& t.duration_sec == hit.duration_sec
}

/// Makes a track of a search hit.
pub fn track_from_hit(hit: TrackHit) -> (t: Track)
    ensures
        is_track_of(t, hit),
{
    let mut format = hit.title.clone();
    format.append(" - ");
    format.append(hit.artist.as_str());
    proof {
        reveal_strlit(" - ");
        assert(format@ =~= hit_line(hit));
    }
    Track {
        format,
        track_id: hit.uri,
        title: hit.title,
        artist: hit.artist,
        duration_sec: hit.duration_sec,
    }
}

/// `i` is the first position of `results` whose track has id `id`.
pub open spec fn is_first_match(results: Seq<Track>, id: Seq<char>, i: int) -> bool {
    &&& 0 <= i < results.len()
    &&& results[i].track_id@ == id
    &&& forall|j: int| 0 <= j < i ==> (#[trigger] results[j]).track_id@ != id
}

/// `i` is the last position of `results` whose track has id `id`.
pub open spec fn is_last_match(results: Seq<Track>, id: Seq<char>, i: int) -> bool {
    &&& 0 <= i < results.len()
    &&& results[i].track_id@ == id
    &&& forall|j: int| i < j < results.len() ==> (#[trigger] results[j]).track_id@ != id
}

/// Some track of `results` has id `id`.
pub open spec fn has_match(results: Seq<Track>, id: Seq<char>) -> bool {
    exists|i: int| 0 <= i < results.len() && (#[trigger] results[i]).track_id@ == id
}

/// The selection after moving down: the track after the first one with the
/// selected id, wrapping round to the first; unchanged where no track has
/// the selected id.
pub open spec fn next_selection(results: Seq<Track>, id: Seq<char>) -> Seq<char> {
    if has_match(results, id) {
        let i = choose|i: int| is_first_match(results, id, i);
        results[if i + 1 < results.len() { i + 1 } else { 0 }].track_id@
    } else {
        id
    }
}

/// The selection after moving up: the track before the last one with the
/// selected id, wrapping round to the last; unchanged where no track has
/// the selected id.
pub open spec fn prev_selection(results: Seq<Track>, id: Seq<char>) -> Seq<char> {
    if has_match(results, id) {
        let i = choose|i: int| is_last_match(results, id, i);
        results[if i == 0 { results.len() - 1 } else { i - 1 }].track_id@
    } else {
        id
    }
}

pub(crate) proof fn lemma_first_match_unique(results: Seq<Track>, id: Seq<char>, i: int)
    requires
        is_first_match(results, id, i),
    ensures
        has_match(results, id),
        (choose|k: int| is_first_match(results, id, k)) == i,
{
    let k = choose|k: int| is_first_match(results, id, k);
    assert(is_first_match(results, id, k));
    if k < i {
        assert(results[k].track_id@ != id);
    }
    if i < k {
        assert(results[i].track_id@ != id);
    }
}

proof fn lemma_last_match_unique(results: Seq<Track>, id: Seq<char>, i: int)
    requires
        is_last_match(results, id, i),
    ensures
        has_match(results, id),
        (choose|k: int| is_last_match(results, id, k)) == i,
{
    let k = choose|k: int| is_last_match(results, id, k);
    assert(is_last_match(results, id, k));
    if k < i {
        assert(results[i].track_id@ != id);
    }
    if i < k {
        assert(results[k].track_id@ != id);
    }
}

/// The ids of `results` are pairwise distinct.
pub open spec fn distinct_ids(results: Seq<Track>) -> bool {
    forall|i: int, j: int|
        0 <= i < results.len() && 0 <= j < results.len() && i != j ==> (#[trigger] results[i]).track_id@
            != (#[trigger] results[j]).track_id@
}

/// Moving up undoes moving down, and moving down undoes moving up, when the
/// ids of the results are distinct and one of them is selected.
pub proof fn lemma_prev_undoes_next(results: Seq<Track>, id: Seq<char>)
    requires
        distinct_ids(results),
        has_match(results, id),
    ensures
        prev_selection(results, next_selection(results, id)) == id,
        next_selection(results, prev_selection(results, id)) == id,
{
    let n = results.len() as int;
    let i = choose|i: int| 0 <= i < results.len() && (#[trigger] results[i]).track_id@ == id;
    assert forall|k: int| 0 <= k < n && k != i implies (#[trigger] results[k]).track_id@ != id by {
        assert(results[k].track_id@ != results[i].track_id@);
    }
    assert(is_first_match(results, id, i));
    assert(is_last_match(results, id, i));
    lemma_first_match_unique(results, id, i);
    lemma_last_match_unique(results, id, i);
    let j = if i + 1 < n { i + 1 } else { 0 };
    let nid = results[j].track_id@;
    assert forall|k: int| 0 <= k < n && k != j implies (#[trigger] results[k]).track_id@ != nid by {
        assert(results[k].track_id@ != results[j].track_id@);
    }
    assert(is_last_match(results, nid, j));
    lemma_last_match_unique(results, nid, j);
    assert(next_selection(results, id) == nid);
    assert(prev_selection(results, nid) == id);
    let p = if i == 0 { n - 1 } else { i - 1 };
    let pid = results[p].track_id@;
    assert forall|k: int| 0 <= k < n && k != p implies (#[trigger] results[k]).track_id@ != pid by {
        assert(results[k].track_id@ != results[p].track_id@);
    }
    assert(is_first_match(results, pid, p));
    lemma_first_match_unique(results, pid, p);
    assert(prev_selection(results, id) == pid);
    assert(next_selection(results, pid) == id);
}

/// The selection after moving down `k` times.
pub open spec fn next_selection_times(results: Seq<Track>, id: Seq<char>, k: nat) -> Seq<char>
    decreases k,
{
    if k == 0 {
        id
    } else {
        next_selection(results, next_selection_times(results, id, (k - 1) as nat))
    }
}

proof fn lemma_next_steps(results: Seq<Track>, i: int, k: nat)
    requires
        distinct_ids(results),
        0 <= i < results.len(),
        k <= results.len(),
    ensures
        next_selection_times(results, results[i].track_id@, k) == results[if i + k < results.len() {
            i + k
        } else {
            i + k - results.len()
        }].track_id@,
    decreases k,
{
    let n = results.len() as int;
    if k > 0 {
        lemma_next_steps(results, i, (k - 1) as nat);
        let j = if i + k - 1 < n { i + k - 1 } else { i + k - 1 - n };
        let id = results[j].track_id@;
        assert forall|m: int| 0 <= m < n && m != j implies (#[trigger] results[m]).track_id@ != id by {
            assert(results[m].track_id@ != results[j].track_id@);
        }
        assert(is_first_match(results, id, j));
        lemma_first_match_unique(results, id, j);
    }
}

/// Moving down once per result comes back to the highlighted result, when
/// the ids of the results are distinct.
pub proof fn lemma_next_cycles(results: Seq<Track>, i: int)
    requires
        distinct_ids(results),
        0 <= i < results.len(),
    ensures
        next_selection_times(results, results[i].track_id@, results.len()) == results[i].track_id@,
{
    lemma_next_steps(results, i, results.len());
}

/// The search box, its results and the highlighted result.
#[derive(Debug)]
pub struct Search {
    /// The text typed into the search box.
    pub query: String,
    pub results: Vec<Track>,
    /// The id of the highlighted result.
    pub selected: String,
}

impl Search {
    /// An empty search box with no results and nothing highlighted.
    pub fn new() -> (s: Search)
        ensures
            s.query@.len() == 0,
            s.results@.len() == 0,
            s.selected@.len() == 0,
    {
        Search { query: String::new(), results: Vec::new(), selected: String::new() }
    }

    /// Highlights the next result; see `next_selection`.
    pub fn next_track(&mut self)
        ensures
            final(self).selected@ == next_selection(old(self).results@, old(self).selected@),
            final(self).results@ == old(self).results@,
            final(self).query == old(self).query,
    {
        let n = self.results.len();
        let mut i: usize = 0;
        while i < n
            invariant
                n == self.results@.len(),
                self.results@ == old(self).results@,
                self.selected == old(self).selected,
                self.query == old(self).query,
                i <= n,
                forall|j: int| 0 <= j < i ==> (#[trigger] self.results@[j]).track_id@ != self.selected@,
            decreases n - i,
        {
            if self.results[i].track_id == self.selected {
                proof {
                    lemma_first_match_unique(self.results@, self.selected@, i as int);
                }
                let next = if i + 1 < n { self.results[i + 1].track_id.clone() } else {
                    self.results[0].track_id.clone()
                };
                self.selected = next;
                return;
            }
            i = i + 1;
        }
    }

    /// Highlights the previous result; see `prev_selection`.
    pub fn prev_track(&mut self)
        ensures
            final(self).selected@ == prev_selection(old(self).results@, old(self).selected@),
            final(self).results@ == old(self).results@,
            final(self).query == old(self).query,
    {
        let n = self.results.len();
        let mut i: usize = n;
        while i > 0
            invariant
                n == self.results@.len(),
                self.results@ == old(self).results@,
                self.selected == old(self).selected,
                self.query == old(self).query,
                i <= n,
                forall|j: int| i <= j < n ==> (#[trigger] self.results@[j]).track_id@ != self.selected@,
            decreases i,
        {
            let k = i - 1;
            if self.results[k].track_id == self.selected {
                proof {
                    lemma_last_match_unique(self.results@, self.selected@, k as int);
                }
                let prev = if k > 0 { self.results[k - 1].track_id.clone() } else {
                    self.results[n - 1].track_id.clone()
                };
                self.selected = prev;
                return;
            }
            i = k;
        }
    }

    /// Highlights the result with the given id.
    pub fn select_track(&mut self, id: String)
        ensures
            final(self).selected == id,
            final(self).results@ == old(self).results@,
            final(self).query == old(self).query,
    {
        self.selected = id;
    }

    /// Replaces the text of the search box.
    pub fn set_new_query(&mut self, query: String)
        ensures
            final(self).query == query,
            final(self).results@ == old(self).results@,
            final(self).selected == old(self).selected,
    {
        self.query = query;
    }

    /// The query to send to Spotify: the text of the search box without its
    /// surrounding whitespace, or `None` where nothing else is left, in which
    /// case the results are cleared.
    pub fn begin_search(&mut self) -> (query: Option<String>)
        ensures
            query matches Some(q) ==> q@ == trim(old(self).query@) && q@.len() > 0,
            query is None <==> trim(old(self).query@).len() == 0,
            query is Some ==> final(self).results@ == old(self).results@,
            query is None ==> final(self).results@.len() == 0,
            final(self).query == old(self).query,
            final(self).selected == old(self).selected,
    {
        let q = trimmed(self.query.as_str());
        if q.unicode_len() == 0 {
            self.results = Vec::new();
            None
        } else {
            Some(q)
        }
    }

    /// Shows the tracks that a search returned, in their order, and
    /// highlights the first of them; the highlight stays where none came.
    pub fn set_results(&mut self, hits: Vec<TrackHit>)
        ensures
            final(self).results@.len() == hits@.len(),
            forall|i: int|
                0 <= i < hits@.len() ==> is_track_of(#[trigger] final(self).results@[i], hits@[i]),
            hits@.len() > 0 ==> final(self).selected@ == hits@[0].uri@,
            hits@.len() > 0 ==> has_match(final(self).results@, final(self).selected@),
            hits@.len() == 0 ==> final(self).selected == old(self).selected,
            final(self).query == old(self).query,
    {
        let mut results: Vec<Track> = Vec::new();
        let n = hits.len();
        let mut rest = hits;
        let ghost all = rest@;
        // Pop the hits from the back into `taken`, then pop those into order.
        let mut taken: Vec<Track> = Vec::new();
        while rest.len() > 0
            invariant
                rest@ == all.take(rest@.len() as int),
                rest@.len() + taken@.len() == n,
                n == all.len(),
                forall|k: int|
                    0 <= k < taken@.len() ==> is_track_of(
                        #[trigger] taken@[k],
                        all[n - 1 - k],
                    ),
            decreases rest@.len(),
        {
            let ghost before = rest@;
            let hit = rest.pop().unwrap();
            proof {
                assert(hit == all[before.len() - 1]);
                assert(rest@ =~= all.take(rest@.len() as int));
            }
            taken.push(track_from_hit(hit));
        }
        while taken.len() > 0
            invariant
                taken@.len() + results@.len() == n,
                n == all.len(),
                forall|k: int|
                    0 <= k < taken@.len() ==> is_track_of(
                        #[trigger] taken@[k],
                        all[n - 1 - k],
                    ),
                forall|k: int| 0 <= k < results@.len() ==> is_track_of(#[trigger] results@[k], all[k]),
            decreases taken@.len(),
        {
            let t = taken.pop().unwrap();
            results.push(t);
        }
        if results.len() > 0 {
            self.selected = results[0].track_id.clone();
            proof { assert(results@[0].track_id@ == self.selected@); }
        }
        self.results = results;
    }
}

} // verus!
