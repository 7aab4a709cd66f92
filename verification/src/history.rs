//! The history ledger: a bounded, ordered log of submitted lines.  Slot 0
//! always exists and holds the in-progress edit snapshot; newer submissions
//! enter at slot 1 and the oldest entries are evicted from the tail once
//! the configured bound is exceeded.  An index cursor walks the ledger for
//! up/down traversal, 0 meaning the live buffer.

use vstd::prelude::*;

use crate::text::{blank_chars, chars_of, is_blank};

verus! {

/// The committed lines plus the draft slot, and the traversal cursor.
pub struct HistoryLedger {
    pub entries: std::collections::VecDeque<String>,
    pub cursor: usize,
}

/// The ledger after the draft slot is refreshed: leaving the live buffer
/// (cursor 0) with a non-blank edit snapshots that edit into slot 0.
pub open spec fn spec_save_draft(
    entries: Seq<Seq<char>>,
    cursor: nat,
    live: Seq<char>,
) -> Seq<Seq<char>> {
    if cursor == 0 && !is_blank(live) {
        entries.update(0, live)
    } else {
        entries
    }
}

/// The ledger after a line is committed: the line enters at slot 1 and the
/// tail is evicted down to `size` prior entries (plus the draft slot).
pub open spec fn spec_commit(entries: Seq<Seq<char>>, line: Seq<char>, size: nat) -> Seq<
    Seq<char>,
> {
    let grown = entries.insert(1, line);
    if grown.len() <= size + 1 {
        grown
    } else {
        grown.subrange(0, size + 1 as int)
    }
}

/// Ledger and cursor after one step towards older entries, with the entry
/// that step loads; `None` when already at the oldest entry.
pub open spec fn spec_older(entries: Seq<Seq<char>>, cursor: nat, live: Seq<char>) -> (
    Seq<Seq<char>>,
    nat,
    Option<Seq<char>>,
) {
    if cursor + 1 < entries.len() {
        let saved = spec_save_draft(entries, cursor, live);
        (saved, cursor + 1, Some(saved[cursor + 1 as int]))
    } else {
        (entries, cursor, None)
    }
}

/// Ledger cursor after one step back towards the live slot, with the entry
/// that step loads; `None` when already at the live slot.
pub open spec fn spec_newer(entries: Seq<Seq<char>>, cursor: nat) -> (nat, Option<Seq<char>>) {
    if cursor > 0 {
        ((cursor - 1) as nat, Some(entries[cursor - 1]))
    } else {
        (cursor, None)
    }
}

impl View for HistoryLedger {
    type V = Seq<Seq<char>>;

    open spec fn view(&self) -> Seq<Seq<char>> {
        self.entries.deep_view()
    }
}

impl HistoryLedger {
    /// Slot 0 always exists and the cursor stays on an entry.
    pub open spec fn wf(self) -> bool {
        self@.len() >= 1 && self.cursor < self@.len()
    }

    /// A fresh ledger: only the (empty) draft slot.
    pub fn new() -> (r: HistoryLedger)
        ensures
            r.wf(),
            r@ =~= seq![Seq::<char>::empty()],
            r.cursor == 0,
    {
        let mut entries = std::collections::VecDeque::new();
        entries.push_back(String::new());
        let r = HistoryLedger { entries, cursor: 0 };
        proof {
            assert(r@ =~= seq![Seq::<char>::empty()]);
        }
        r
    }

    /// The number of entries, the draft slot included.
    pub fn len(&self) -> (r: usize)
        ensures
            r == self@.len(),
    {
        self.entries.len()
    }

    /// A copy of the entry at `i`.
    pub fn entry_at(&self, i: usize) -> (r: String)
        requires
            i < self@.len(),
        ensures
            r@ == self@[i as int],
    {
        self.entries[i].clone()
    }

    /// Snapshots a non-blank live edit into the draft slot before the
    /// cursor leaves it.
    pub fn save_draft(&mut self, live: &String)
        requires
            old(self).wf(),
        ensures
            final(self).wf(),
            final(self)@ == spec_save_draft(old(self)@, old(self).cursor as nat, live@),
            final(self).cursor == old(self).cursor,
    {
        if self.cursor == 0 {
            let live_chars = chars_of(live.as_str());
            if !blank_chars(&live_chars) {
                self.entries.remove(0);
                self.entries.push_front(live.clone());
                proof {
                    assert(self@ =~= old(self)@.update(0, live@));
                }
            }
        }
        proof {
            assert(final(self)@ =~= spec_save_draft(old(self)@, old(self).cursor as nat, live@));
        }
    }

    /// Commits a submitted line at slot 1 and evicts the oldest entries
    /// until at most `size` prior entries remain; traversal restarts at
    /// the live slot.
    pub fn commit(&mut self, line: String, size: usize)
        requires
            old(self).wf(),
        ensures
            final(self).wf(),
            final(self)@ == spec_commit(old(self)@, line@, size as nat),
            final(self).cursor == 0,
    {
        let ghost grown = old(self)@.insert(1, line@);
        self.entries.insert(1, line);
        proof {
            assert(self@ =~= grown);
        }
        while self.entries.len() - 1 > size
            invariant
                self@.len() >= 1,
                self@.len() <= grown.len(),
                self@.len() >= if grown.len() <= size + 1 {
                    grown.len() as int
                } else {
                    size + 1 as int
                },
                self@ =~= grown.subrange(0, self@.len() as int),
            decreases self@.len(),
        {
            let ghost before = self@;
            self.entries.pop_back();
            proof {
                assert(self@ =~= before.drop_last());
                assert(self@ =~= grown.subrange(0, self@.len() as int));
            }
        }
        self.cursor = 0;
        proof {
            if grown.len() <= size + 1 {
                assert(self@ =~= grown);
            } else {
                assert(self@ =~= grown.subrange(0, size + 1 as int));
            }
        }
    }

    /// Steps the cursor towards older entries, snapshotting the live edit
    /// first, and hands back the entry to load; `None` (and no change)
    /// when already at the oldest entry.
    pub fn older(&mut self, live: &String) -> (r: Option<String>)
        requires
            old(self).wf(),
        ensures
            final(self).wf(),
            (final(self)@, final(self).cursor as nat) == {
                let (e, c, _) = spec_older(old(self)@, old(self).cursor as nat, live@);
                (e, c)
            },
            match r {
                Some(s) => spec_older(old(self)@, old(self).cursor as nat, live@).2 == Some(s@),
                None => spec_older(old(self)@, old(self).cursor as nat, live@).2 is None,
            },
    {
        if self.cursor < self.entries.len() - 1 {
            self.save_draft(live);
            self.cursor = self.cursor + 1;
            Some(self.entries[self.cursor].clone())
        } else {
            None
        }
    }

    /// Steps the cursor back towards the live slot and hands back the
    /// entry to load; `None` (and no change) when already there.
    pub fn newer(&mut self) -> (r: Option<String>)
        requires
            old(self).wf(),
        ensures
            final(self).wf(),
            final(self)@ == old(self)@,
            final(self).cursor as nat == spec_newer(old(self)@, old(self).cursor as nat).0,
            match r {
                Some(s) => spec_newer(old(self)@, old(self).cursor as nat).1 == Some(s@),
                None => spec_newer(old(self)@, old(self).cursor as nat).1 is None,
            },
    {
        if self.cursor > 0 {
            self.cursor = self.cursor - 1;
            Some(self.entries[self.cursor].clone())
        } else {
            None
        }
    }
}

/// The ledger after committing every line of `lines`, in order.
pub open spec fn spec_commit_all(
    entries: Seq<Seq<char>>,
    lines: Seq<Seq<char>>,
    size: nat,
) -> Seq<Seq<char>>
    decreases lines.len(),
{
    if lines.len() == 0 {
        entries
    } else {
        spec_commit_all(spec_commit(entries, lines[0], size), lines.drop_first(), size)
    }
}

/// Shape of the ledger after a run of commits: the draft slot is kept, the
/// most recent lines sit right after it (newest first), older material is
/// pushed down, and nothing beyond `size` prior entries survives.
pub proof fn lemma_commit_all_shape(entries: Seq<Seq<char>>, lines: Seq<Seq<char>>, size: nat)
    requires
        1 <= entries.len() <= size + 1,
    ensures
        ({
            let r = spec_commit_all(entries, lines, size);
            let k = lines.len() as int;
            &&& r.len() == if entries.len() + k <= size + 1 {
                entries.len() + k as int
            } else {
                size + 1 as int
            }
            &&& r[0] == entries[0]
            &&& forall|j: int|
                1 <= j < r.len() ==> r[j] == (if j <= k {
                    lines[k - j]
                } else {
                    entries[j - k]
                })
        }),
    decreases lines.len(),
{
    if lines.len() == 0 {
    } else {
        let e1 = spec_commit(entries, lines[0], size);
        let grown = entries.insert(1, lines[0]);
        entries.insert_ensures(1, lines[0]);
        assert(e1.len() == if entries.len() + 1 <= size + 1 {
            entries.len() + 1 as int
        } else {
            size + 1 as int
        });
        assert(e1[0] == entries[0]);
        assert(e1.len() >= 2 ==> e1[1] == lines[0]);
        assert(forall|m: int| 2 <= m < e1.len() ==> e1[m] == entries[m - 1]);
        lemma_commit_all_shape(e1, lines.drop_first(), size);
        let r = spec_commit_all(entries, lines, size);
        let k = lines.len() as int;
        assert(r == spec_commit_all(e1, lines.drop_first(), size));
        assert forall|j: int| 1 <= j < r.len() implies r[j] == (if j <= k {
            lines[k - j]
        } else {
            entries[j - k]
        }) by {
            if j <= k - 1 {
                assert(lines.drop_first()[k - 1 - j] == lines[k - j]);
            } else if j == k {
                assert(r[j] == e1[1]);
            } else {
                assert(r[j] == e1[j - (k - 1)]);
            }
        }
    }
}

/// History eviction: committing at least `size` lines leaves exactly
/// `size` prior entries besides the draft slot, the most recent first;
/// everything older has been evicted from the tail.
pub proof fn lemma_history_eviction(entries: Seq<Seq<char>>, lines: Seq<Seq<char>>, size: nat)
    requires
        1 <= entries.len() <= size + 1,
        lines.len() >= size,
    ensures
        ({
            let r = spec_commit_all(entries, lines, size);
            &&& r.len() == size + 1
            &&& r[0] == entries[0]
            &&& forall|j: int| 1 <= j <= size ==> r[j] == lines[lines.len() - j]
        }),
{
    lemma_commit_all_shape(entries, lines, size);
}

/// The ledger and cursor after `n` steps towards older entries.
pub open spec fn spec_older_n(
    entries: Seq<Seq<char>>,
    cursor: nat,
    live: Seq<char>,
    n: nat,
) -> (Seq<Seq<char>>, nat)
    decreases n,
{
    if n == 0 {
        (entries, cursor)
    } else {
        let (e1, c1, _) = spec_older(entries, cursor, live);
        spec_older_n(e1, c1, live, (n - 1) as nat)
    }
}

/// The cursor after `n` steps back towards the live slot, with the entry
/// loaded by the last step that loaded one.
pub open spec fn spec_newer_n(entries: Seq<Seq<char>>, cursor: nat, n: nat) -> (
    nat,
    Option<Seq<char>>,
)
    decreases n,
{
    if n == 0 {
        (cursor, None)
    } else {
        let (c1, l1) = spec_newer(entries, cursor);
        if n == 1 {
            (c1, l1)
        } else {
            spec_newer_n(entries, c1, (n - 1) as nat)
        }
    }
}

/// Away from the live slot no draft is saved: `m` further older steps only
/// advance the cursor while entries remain.
proof fn lemma_older_n_from_inside(entries: Seq<Seq<char>>, cursor: nat, live: Seq<char>, m: nat)
    requires
        cursor >= 1,
        cursor + m <= entries.len() - 1,
    ensures
        spec_older_n(entries, cursor, live, m) == (entries, (cursor + m) as nat),
    decreases m,
{
    if m > 0 {
        lemma_older_n_from_inside(entries, cursor + 1, live, (m - 1) as nat)
    }
}

/// `c` newer steps from cursor `c` land on the live slot and load it.
proof fn lemma_newer_n_to_live(entries: Seq<Seq<char>>, c: nat)
    requires
        1 <= c < entries.len(),
    ensures
        spec_newer_n(entries, c, c) == (0nat, Some(entries[0])),
    decreases c,
{
    if c > 1 {
        lemma_newer_n_to_live(entries, (c - 1) as nat);
    }
}

/// History round trip: starting at the live slot with a non-blank edit,
/// walking `n` entries into history and then `n` steps back lands on the
/// live slot again and loads the exact pre-navigation edit.  (A blank edit
/// is never snapshotted into the draft slot, so it is not restored; blank
/// lives are excluded.)
pub proof fn lemma_history_round_trip(entries: Seq<Seq<char>>, live: Seq<char>, n: nat)
    requires
        entries.len() >= 1,
        !is_blank(live),
        1 <= n <= entries.len() - 1,
    ensures
        ({
            let (e1, c1) = spec_older_n(entries, 0, live, n);
            &&& e1 == entries.update(0, live)
            &&& c1 == n
            &&& spec_newer_n(e1, c1, n) == (0nat, Some(live))
        }),
{
    let saved = entries.update(0, live);
    assert(spec_older(entries, 0, live) == (saved, 1nat, Some(saved[1])));
    assert(spec_older_n(entries, 0, live, n) == spec_older_n(saved, 1, live, (n - 1) as nat));
    if n == 1 {
        assert(spec_older_n(saved, 1, live, 0) == (saved, 1nat));
    } else {
        lemma_older_n_from_inside(saved, 1, live, (n - 1) as nat);
    }
    let (e1, c1) = spec_older_n(entries, 0, live, n);
    assert(e1 == saved && c1 == n);
    lemma_newer_n_to_live(saved, n);
    assert(saved[0] == live);
}

} // verus!

