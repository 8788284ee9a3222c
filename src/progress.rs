//! Per-user playback progress: one offset per (user, media) pair.
use vstd::prelude::*;

verus! {

/// How far a user got in a media item, in seconds.
#[derive(Clone, Copy, Debug, PartialEq, Eq, Structural)]
pub struct Progress {
    pub user: i32,
    pub media_id: i32,
    pub delta: i32,
}

/// The key of a progress row.
pub open spec fn row_key(p: Progress) -> (i32, i32) {
    (p.user, p.media_id)
}

/// The offsets that a sequence of rows records, later rows winning.
pub open spec fn rows_map(rows: Seq<Progress>) -> Map<(i32, i32), i32>
    decreases rows.len(),
{
    if rows.len() == 0 {
        Map::empty()
    } else {
        rows_map(rows.drop_last()).insert(row_key(rows.last()), rows.last().delta)
    }
}

/// No two rows share a key.
pub open spec fn keys_unique(rows: Seq<Progress>) -> bool {
    forall|i: int, j: int|
        0 <= i < rows.len() && 0 <= j < rows.len() && i != j ==> row_key(#[trigger] rows[i])
            != row_key(#[trigger] rows[j])
}

/// The stored offset for `(user, media)`, `0` when nothing was stored.
pub open spec fn progress_value(m: Map<(i32, i32), i32>, user: i32, media: i32) -> i32 {
    if m.contains_key((user, media)) {
        m[(user, media)]
    } else {
        0
    }
}

/// The progress table: at most one row per (user, media) pair.
pub struct ProgressStore {
    rows: Vec<Progress>,
}

proof fn lemma_rows_map_index(rows: Seq<Progress>, i: int)
    requires
        keys_unique(rows),
        0 <= i < rows.len(),
    ensures
        rows_map(rows).contains_key(row_key(rows[i])),
        rows_map(rows)[row_key(rows[i])] == rows[i].delta,
    decreases rows.len(),
{
    if i < rows.len() - 1 {
        let init = rows.drop_last();
        assert(init[i] == rows[i]);
        assert(keys_unique(init)) by {
            assert forall|a: int, b: int|
                0 <= a < init.len() && 0 <= b < init.len() && a != b implies row_key(
                #[trigger] init[a],
            ) != row_key(#[trigger] init[b]) by {
                assert(init[a] == rows[a] && init[b] == rows[b]);
            }
        }
        lemma_rows_map_index(init, i);
        assert(row_key(rows[i]) != row_key(rows[rows.len() - 1]));
    }
}

proof fn lemma_rows_map_absent(rows: Seq<Progress>, k: (i32, i32))
    requires
        forall|i: int| 0 <= i < rows.len() ==> row_key(#[trigger] rows[i]) != k,
    ensures
        !rows_map(rows).contains_key(k),
    decreases rows.len(),
{
    if rows.len() > 0 {
        let init = rows.drop_last();
        assert forall|i: int| 0 <= i < init.len() implies row_key(#[trigger] init[i]) != k by {
            assert(init[i] == rows[i]);
        }
        lemma_rows_map_absent(init, k);
        assert(row_key(rows[rows.len() - 1]) != k);
    }
}

proof fn lemma_rows_map_update(rows: Seq<Progress>, i: int, p: Progress)
    requires
        keys_unique(rows),
        0 <= i < rows.len(),
        row_key(p) == row_key(rows[i]),
    ensures
        rows_map(rows.update(i, p)) == rows_map(rows).insert(row_key(p), p.delta),
    decreases rows.len(),
{
    let up = rows.update(i, p);
    let init = rows.drop_last();
    if i == rows.len() - 1 {
        assert(up.drop_last() =~= init);
        assert(rows_map(up) =~= rows_map(rows).insert(row_key(p), p.delta));
    } else {
        assert(up.drop_last() =~= init.update(i, p));
        assert(keys_unique(init)) by {
            assert forall|a: int, b: int|
                0 <= a < init.len() && 0 <= b < init.len() && a != b implies row_key(
                #[trigger] init[a],
            ) != row_key(#[trigger] init[b]) by {
                assert(init[a] == rows[a] && init[b] == rows[b]);
            }
        }
        assert(init[i] == rows[i]);
        lemma_rows_map_update(init, i, p);
        assert(row_key(rows[i]) != row_key(rows[rows.len() - 1]));
        assert(up.last() == rows.last());
        assert(rows_map(up) =~= rows_map(rows).insert(row_key(p), p.delta));
    }
}

impl View for ProgressStore {
    type V = Map<(i32, i32), i32>;

    closed spec fn view(&self) -> Map<(i32, i32), i32> {
        rows_map(self.rows@)
    }
}

impl ProgressStore {
    /// The rows have unique keys.
    pub closed spec fn wf(&self) -> bool {
        keys_unique(self.rows@)
    }

    /// An empty table.
    pub fn new() -> (r: ProgressStore)
        ensures
            r.wf(),
            r@ == Map::<(i32, i32), i32>::empty(),
    {
        ProgressStore { rows: Vec::new() }
    }

    fn find(&self, user: i32, media: i32) -> (r: Option<usize>)
        requires
            self.wf(),
        ensures
            match r {
                Some(i) => i < self.rows@.len() && row_key(self.rows@[i as int]) == (user, media),
                None => forall|i: int|
                    0 <= i < self.rows@.len() ==> row_key(#[trigger] self.rows@[i]) != (user, media),
            },
    {
        let mut i: usize = 0;
        while i < self.rows.len()
            invariant
                i <= self.rows@.len(),
                forall|j: int| 0 <= j < i ==> row_key(#[trigger] self.rows@[j]) != (user, media),
            decreases self.rows@.len() - i,
        {
            if self.rows[i].user == user && self.rows[i].media_id == media {
                return Some(i);
            }
            i = i + 1;
        }
        None
    }

    /// The offset stored for `user` in `media`, `0` when there is none.
    pub fn get_for_media_user(&self, user: i32, media: i32) -> (r: i32)
        requires
            self.wf(),
        ensures
            r == progress_value(self@, user, media),
    {
        match self.find(user, media) {
            Some(i) => {
                proof {
                    lemma_rows_map_index(self.rows@, i as int);
                }
                self.rows[i].delta
            },
            None => {
                proof {
                    lemma_rows_map_absent(self.rows@, (user, media));
                }
                0
            },
        }
    }

    /// Stores `offset` for `user` in `media`, replacing any earlier offset.
    pub fn set(&mut self, offset: i32, user: i32, media: i32)
        requires
            old(self).wf(),
        ensures
            final(self).wf(),
            final(self)@ == old(self)@.insert((user, media), offset),
    {
        let p = Progress { user, media_id: media, delta: offset };
        match self.find(user, media) {
            Some(i) => {
                proof {
                    lemma_rows_map_update(self.rows@, i as int, p);
                }
                self.rows.set(i, p);
                proof {
                    assert forall|a: int, b: int|
                        0 <= a < self.rows@.len() && 0 <= b < self.rows@.len() && a != b implies row_key(
                        #[trigger] self.rows@[a],
                    ) != row_key(#[trigger] self.rows@[b]) by {
                        assert(row_key(old(self).rows@[a]) != row_key(old(self).rows@[b]));
                    }
                }
            },
            None => {
                self.rows.push(p);
                proof {
                    assert(self.rows@.drop_last() =~= old(self).rows@);
                    assert forall|a: int, b: int|
                        0 <= a < self.rows@.len() && 0 <= b < self.rows@.len() && a != b implies row_key(
                        #[trigger] self.rows@[a],
                    ) != row_key(#[trigger] self.rows@[b]) by {
                        if a < old(self).rows@.len() && b < old(self).rows@.len() {
                            assert(row_key(old(self).rows@[a]) != row_key(old(self).rows@[b]));
                        } else if a < old(self).rows@.len() {
                            assert(row_key(old(self).rows@[a]) != (user, media));
                        } else {
                            assert(row_key(old(self).rows@[b]) != (user, media));
                        }
                    }
                }
            },
        }
    }
}

/// Recording the same offset twice leaves the table as recording it once, and
/// recording a new offset for the same user and item replaces the old one: the
/// table keeps one entry per pair either way.
pub proof fn lemma_record_progress_idempotent(
    store: ProgressStore,
    user: i32,
    media: i32,
    offset: i32,
    later: i32,
)
    requires
        store.wf(),
    ensures
        store@.insert((user, media), offset).insert((user, media), offset) == store@.insert(
            (user, media),
            offset,
        ),
        store@.insert((user, media), offset).insert((user, media), later) == store@.insert(
            (user, media),
            later,
        ),
        progress_value(store@.insert((user, media), offset).insert((user, media), later), user, media)
            == later,
{
    assert(store@.insert((user, media), offset).insert((user, media), offset) =~= store@.insert(
        (user, media),
        offset,
    ));
    assert(store@.insert((user, media), offset).insert((user, media), later) =~= store@.insert(
        (user, media),
        later,
    ));
}

} // verus!
