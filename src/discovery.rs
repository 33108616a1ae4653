use vstd::prelude::*;

verus! {

/// One entry of a listing of the session's output directory.
pub struct ChunkEntry {
    pub path: String,
    /// Creation time in milliseconds since the Unix epoch, when known.
    pub created_ms: Option<u64>,
}

pub open spec fn is_separator(c: char) -> bool {
    c == '/' || c == '\\'
}

/// The file name of `p` has the extension `wav`: `p` ends in ".wav" after a
/// non-empty stem.
pub open spec fn has_wav_extension(p: Seq<char>) -> bool {
    &&& p.len() > 4
    &&& p.subrange(p.len() - 4, p.len() as int) == seq!['.', 'w', 'a', 'v']
    &&& !is_separator(p[p.len() - 5])
}

/// `e` is a chunk file of a session that started at `start_ms`: a wav file
/// created at or after the start.
pub open spec fn is_session_chunk(e: ChunkEntry, start_ms: u64) -> bool {
    &&& has_wav_extension(e.path@)
    &&& e.created_ms is Some
    &&& e.created_ms->Some_0 >= start_ms
}

pub open spec fn paths(s: Seq<ChunkEntry>) -> Seq<Seq<char>> {
    s.map_values(|e: ChunkEntry| e.path@)
}

pub open spec fn created(e: ChunkEntry) -> int {
    match e.created_ms {
        Some(c) => c as int,
        None => 0,
    }
}

/// `e` stands in `listing` with the same path and creation time.
pub open spec fn listed(listing: Seq<ChunkEntry>, e: ChunkEntry) -> bool {
    exists|j: int|
        0 <= j < listing.len() && #[trigger] listing[j].path@ == e.path@ && listing[j].created_ms
            == e.created_ms
}

/// `out` is sorted by creation time, oldest first.
pub open spec fn sorted_by_creation(out: Seq<ChunkEntry>) -> bool {
    forall|i: int, k: int| 0 <= i < k < out.len() ==> created(out[i]) <= created(out[k])
}

/// What one poll of the directory does, for a session at `start` that had
/// dispatched `seen` and now reads `listing`: it hands out `out`, the session
/// chunks of the listing not dispatched before, each path once, oldest first,
/// and records them as dispatched.
pub open spec fn poll_result(
    start: u64,
    seen: Seq<Seq<char>>,
    listing: Seq<ChunkEntry>,
    out: Seq<ChunkEntry>,
    seen_after: Seq<Seq<char>>,
) -> bool {
    &&& forall|i: int| 0 <= i < out.len() ==> is_session_chunk(#[trigger] out[i], start)
    &&& forall|i: int| 0 <= i < out.len() ==> listed(listing, #[trigger] out[i])
    &&& forall|i: int| 0 <= i < out.len() ==> !seen.contains(#[trigger] out[i].path@)
    &&& forall|j: int|
        0 <= j < listing.len() && is_session_chunk(#[trigger] listing[j], start) && !seen.contains(
            listing[j].path@,
        ) ==> paths(out).contains(listing[j].path@)
    &&& paths(out).no_duplicates()
    &&& sorted_by_creation(out)
    &&& seen_after == seen + paths(out)
}

/// Discovery only hands out chunks created at or after the session start:
/// of the chunks created before it, none is ever dispatched.
pub proof fn lemma_nothing_before_start(
    start: u64,
    seen: Seq<Seq<char>>,
    listing: Seq<ChunkEntry>,
    out: Seq<ChunkEntry>,
    seen_after: Seq<Seq<char>>,
)
    requires
        poll_result(start, seen, listing, out, seen_after),
    ensures
        forall|i: int| 0 <= i < out.len() ==> (#[trigger] out[i]).created_ms is Some && start
            <= out[i].created_ms->Some_0,
{
    assert forall|i: int| 0 <= i < out.len() implies (#[trigger] out[i]).created_ms is Some && start
        <= out[i].created_ms->Some_0 by {
        assert(is_session_chunk(out[i], start));
    }
}

/// Within one session no chunk is dispatched twice: over two successive polls,
/// whatever order the listings come in, the paths handed out by both polls
/// together hold no repeat, and the record of dispatched paths stays free of
/// repeats.
pub proof fn lemma_no_path_dispatched_twice(
    start: u64,
    seen0: Seq<Seq<char>>,
    listing1: Seq<ChunkEntry>,
    out1: Seq<ChunkEntry>,
    seen1: Seq<Seq<char>>,
    listing2: Seq<ChunkEntry>,
    out2: Seq<ChunkEntry>,
    seen2: Seq<Seq<char>>,
)
    requires
        seen0.no_duplicates(),
        poll_result(start, seen0, listing1, out1, seen1),
        poll_result(start, seen1, listing2, out2, seen2),
    ensures
        (paths(out1) + paths(out2)).no_duplicates(),
        seen2 == seen0 + (paths(out1) + paths(out2)),
        seen2.no_duplicates(),
{
    let both = paths(out1) + paths(out2);
    let n1 = out1.len() as int;
    assert forall|a: int, b: int| 0 <= a < b < both.len() implies both[a] != both[b] by {
        if a < n1 && b >= n1 {
            assert(both[b] == out2[b - n1].path@);
            assert(seen1[seen0.len() + a] == both[a]);
            assert(seen1.contains(both[a]));
        } else if a >= n1 {
            assert(both[a] == paths(out2)[a - n1]);
            assert(both[b] == paths(out2)[b - n1]);
        } else {
            assert(both[a] == paths(out1)[a]);
            assert(both[b] == paths(out1)[b]);
        }
    }
    assert(seen2 =~= seen0 + both);
    assert forall|a: int, b: int| 0 <= a < b < seen2.len() implies seen2[a] != seen2[b] by {
        if a < seen0.len() && b >= seen0.len() {
            let bb = b - seen0.len();
            if bb < n1 {
                assert(both[bb] == out1[bb].path@);
            } else {
                assert(both[bb] == out2[bb - n1].path@);
                assert(seen1[a] == seen0[a]);
                assert(seen1.contains(seen0[a]));
            }
        } else if a >= seen0.len() {
            assert(seen2[a] == both[a - seen0.len()]);
            assert(seen2[b] == both[b - seen0.len()]);
        }
    }
}

/// Whether `p` names a wav file.
pub fn is_chunk_path(p: &str) -> (r: bool)
    ensures
        r == has_wav_extension(p@),
{
    let n = p.unicode_len();
    if n <= 4 {
        return false;
    }
    let a = p.get_char(n - 4);
    let b = p.get_char(n - 3);
    let c = p.get_char(n - 2);
    let d = p.get_char(n - 1);
    let s = p.get_char(n - 5);
    let r = a == '.' && b == 'w' && c == 'a' && d == 'v' && s != '/' && s != '\\';
    proof {
        let tail = p@.subrange(n - 4, n as int);
        assert(tail[0] == a && tail[1] == b && tail[2] == c && tail[3] == d);
        if r {
            assert(tail =~= seq!['.', 'w', 'a', 'v']);
        }
    }
    r
}

fn contains_string(v: &Vec<String>, p: &String) -> (r: bool)
    ensures
        r == v@.map_values(|s: String| s@).contains(p@),
{
    let ghost m = v@.map_values(|s: String| s@);
    let mut i: usize = 0;
    while i < v.len()
        invariant
            m == v@.map_values(|s: String| s@),
            i <= v.len(),
            forall|k: int| 0 <= k < i ==> m[k] != p@,
        decreases v.len() - i,
    {
        if v[i] == *p {
            assert(m[i as int] == p@);
            return true;
        }
        i = i + 1;
    }
    false
}

fn contains_entry_path(v: &Vec<ChunkEntry>, p: &String) -> (r: bool)
    ensures
        r == paths(v@).contains(p@),
{
    let mut i: usize = 0;
    while i < v.len()
        invariant
            i <= v.len(),
            forall|k: int| 0 <= k < i ==> paths(v@)[k] != p@,
        decreases v.len() - i,
    {
        if v[i].path == *p {
            assert(paths(v@)[i as int] == p@);
            return true;
        }
        i = i + 1;
    }
    false
}

/// The discovery state of one realtime session: when it started, the chunk
/// paths already handed to transcription, and whether it is still running.
pub struct RealtimeSession {
    start_ms: u64,
    processed: Vec<String>,
    active: bool,
}

impl RealtimeSession {
    pub closed spec fn start(&self) -> u64 {
        self.start_ms
    }

    /// The paths dispatched so far, in dispatch order.
    pub closed spec fn seen(&self) -> Seq<Seq<char>> {
        self.processed@.map_values(|s: String| s@)
    }

    pub closed spec fn running(&self) -> bool {
        self.active
    }

    /// No path was dispatched twice.
    pub open spec fn wf(&self) -> bool {
        self.seen().no_duplicates()
    }

    /// A fresh session started at `start_ms`: active, nothing processed yet.
    pub fn new(start_ms: u64) -> (r: Self)
        ensures
            r.wf(),
            r.start() == start_ms,
            r.seen().len() == 0,
            r.running(),
    {
        let r = RealtimeSession { start_ms, processed: Vec::new(), active: true };
        assert(r.seen().len() == 0);
        r
    }

    pub fn start_ms(&self) -> (r: u64)
        ensures
            r == self.start(),
    {
        self.start_ms
    }

    pub fn is_active(&self) -> (r: bool)
        ensures
            r == self.running(),
    {
        self.active
    }

    /// How many chunks were dispatched in this session.
    pub fn processed_count(&self) -> (r: usize)
        ensures
            r == self.seen().len(),
    {
        self.processed.len()
    }

    /// Whether the chunk at `path` was dispatched in this session.
    pub fn was_processed(&self, path: &String) -> (r: bool)
        ensures
            r == self.seen().contains(path@),
    {
        contains_string(&self.processed, path)
    }

    /// One pass of the discovery loop over a directory listing, given in any
    /// order: returns the chunks to dispatch now, sorted by creation time,
    /// and marks them as dispatched.
    pub fn poll(&mut self, listing: &Vec<ChunkEntry>) -> (out: Vec<ChunkEntry>)
        requires
            old(self).wf(),
        ensures
            final(self).wf(),
            final(self).start() == old(self).start(),
            final(self).running() == old(self).running(),
            poll_result(old(self).start(), old(self).seen(), listing@, out@, final(self).seen()),
    {
        let ghost seen0 = self.seen();
        let mut out: Vec<ChunkEntry> = Vec::new();
        let mut j: usize = 0;
        while j < listing.len()
            invariant
                self.seen() == seen0,
                self.start_ms == old(self).start(),
                seen0.no_duplicates(),
                j <= listing.len(),
                forall|i: int| 0 <= i < out@.len() ==> is_session_chunk(#[trigger] out@[i], self.start_ms),
                forall|i: int| 0 <= i < out@.len() ==> listed(listing@, #[trigger] out@[i]),
                forall|i: int| 0 <= i < out@.len() ==> !seen0.contains(#[trigger] out@[i].path@),
                forall|q: int|
                    0 <= q < j && is_session_chunk(#[trigger] listing@[q], self.start_ms) && !seen0.contains(
                        listing@[q].path@,
                    ) ==> paths(out@).contains(listing@[q].path@),
                paths(out@).no_duplicates(),
                sorted_by_creation(out@),
            decreases listing.len() - j,
        {
            let e = &listing[j];
            let fresh = match e.created_ms {
                Some(c) => c >= self.start_ms,
                None => false,
            };
            if fresh && is_chunk_path(e.path.as_str()) && !contains_string(&self.processed, &e.path)
                && !contains_entry_path(&out, &e.path) {
                let c = e.created_ms.unwrap();
                let mut k: usize = 0;
                while k < out.len() && out[k].created_ms.unwrap() <= c
                    invariant
                        k <= out@.len(),
                        forall|i: int| 0 <= i < out@.len() ==> (#[trigger] out@[i]).created_ms is Some,
                        forall|i: int| 0 <= i < k ==> created(#[trigger] out@[i]) <= c,
                    decreases out.len() - k,
                {
                    k = k + 1;
                }
                let ghost before = out@;
                let item = ChunkEntry { path: e.path.clone(), created_ms: e.created_ms };
                out.insert(k, item);
                proof {
                    assert(out@ == before.insert(k as int, item));
                    assert(listing@[j as int].path@ == item.path@);
                    assert(listed(listing@, item));
                    assert forall|i: int| 0 <= i < out@.len() implies is_session_chunk(#[trigger] out@[i], self.start_ms)
                        && listed(listing@, out@[i]) && !seen0.contains(out@[i].path@) by {
                        if i < k {
                            assert(out@[i] == before[i]);
                        } else if i > k {
                            assert(out@[i] == before[i - 1]);
                        }
                    }
                    assert forall|a: int, b: int| 0 <= a < b < out@.len() implies created(out@[a]) <= created(out@[b]) by {
                        if k < before.len() {
                            assert(created(before[k as int]) > c);
                        }
                        if a < k && b == k {
                        } else if a < k && b > k {
                            assert(out@[b] == before[b - 1]);
                        } else if a == k && b > k {
                            assert(out@[b] == before[b - 1]);
                            assert(created(before[k as int]) <= created(before[b - 1]) || b - 1 == k);
                        } else if a > k {
                            assert(out@[a] == before[a - 1]);
                            assert(out@[b] == before[b - 1]);
                        }
                    }
                    assert(paths(out@) =~= paths(before).insert(k as int, item.path@));
                    assert forall|a: int, b: int| 0 <= a < b < paths(out@).len() implies paths(out@)[a] != paths(out@)[b] by {
                        if a == k {
                            assert(paths(before)[b - 1] == paths(out@)[b]);
                        } else if b == k {
                            assert(paths(before)[a] == paths(out@)[a]);
                        } else {
                            let a0 = if a < k { a } else { a - 1 };
                            let b0 = if b < k { b } else { b - 1 };
                            assert(paths(before)[a0] == paths(out@)[a]);
                            assert(paths(before)[b0] == paths(out@)[b]);
                        }
                    }
                    assert forall|q: int|
                        0 <= q <= j && is_session_chunk(#[trigger] listing@[q], self.start_ms) && !seen0.contains(
                            listing@[q].path@,
                        ) implies paths(out@).contains(listing@[q].path@) by {
                        if q < j {
                            let w = choose|w: int| 0 <= w < paths(before).len() && paths(before)[w] == listing@[q].path@;
                            let w2 = if w < k { w } else { w + 1 };
                            assert(paths(out@)[w2] == listing@[q].path@);
                        } else {
                            assert(paths(out@)[k as int] == listing@[q].path@);
                        }
                    }
                }
            } else {
                proof {
                    assert forall|q: int|
                        0 <= q <= j && is_session_chunk(#[trigger] listing@[q], self.start_ms) && !seen0.contains(
                            listing@[q].path@,
                        ) implies paths(out@).contains(listing@[q].path@) by {
                        if q == j {
                            assert(e.created_ms is Some);
                        }
                    }
                }
            }
            j = j + 1;
        }
        let mut i: usize = 0;
        while i < out.len()
            invariant
                i <= out@.len(),
                self.start_ms == old(self).start(),
                self.active == old(self).running(),
                self.seen() == seen0 + paths(out@).take(i as int),
            decreases out.len() - i,
        {
            let p = out[i].path.clone();
            let ghost prev = self.processed@;
            self.processed.push(p);
            proof {
                assert(self.processed@ == prev.push(p));
                assert(self.seen() =~= prev.map_values(|s: String| s@).push(p@));
                assert(paths(out@).take(i + 1) =~= paths(out@).take(i as int).push(out@[i as int].path@));
                assert(self.seen() =~= seen0 + paths(out@).take(i + 1));
            }
            i = i + 1;
        }
        proof {
            assert(paths(out@).take(out@.len() as int) =~= paths(out@));
            let all = self.seen();
            assert forall|a: int, b: int| 0 <= a < b < all.len() implies all[a] != all[b] by {
                if b >= seen0.len() && a < seen0.len() {
                    assert(all[b] == out@[b - seen0.len()].path@);
                    assert(seen0.contains(all[a]));
                } else if a >= seen0.len() {
                    assert(all[a] == paths(out@)[a - seen0.len()]);
                    assert(all[b] == paths(out@)[b - seen0.len()]);
                }
            }
        }
        out
    }

    /// Clears the running flag; the discovery loop ends at its next check.
    pub fn stop(&mut self)
        ensures
            !final(self).running(),
            final(self).start() == old(self).start(),
            final(self).seen() == old(self).seen(),
    {
        self.active = false;
    }
}

} // verus!
