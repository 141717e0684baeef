use vstd::prelude::*;

verus! {

/// The singleton configuration record.
///
/// `amount` is the lifetime running total of all successful deposits. It is
/// monotonically non-decreasing and is never decremented by withdrawals: a
/// historical counter, not a live balance.
pub struct Config {
    /// The identity authorized for admin actions and withdrawal.
    pub owner: String,
    /// The single accepted denomination, fixed at creation from the first
    /// funds received; no operation ever changes it.
    pub denom: String,
    /// Gates deposits only; withdrawal is never gated by it.
    pub enabled: bool,
    /// Lifetime cumulative deposit total.
    pub amount: u128,
}

/// One depositor's record: its identity and its lifetime cumulative total.
pub struct HistoryEntry {
    pub address: String,
    pub amount: u128,
}

/// The per-depositor deposit history. An entry is created on an identity's
/// first deposit, grows with every later one, and is never removed.
///
/// Viewed as a map from identity to cumulative amount; each identity holds
/// at most one entry.
pub struct History {
    entries: Vec<HistoryEntry>,
}

/// No two entries record the same identity.
pub open spec fn unique_addresses(s: Seq<HistoryEntry>) -> bool {
    forall|i: int, j: int| 0 <= i < j < s.len() ==> s[i].address@ != s[j].address@
}

/// The map an entry sequence denotes: later entries shadow earlier ones,
/// which never happens under `unique_addresses`.
pub open spec fn entries_map(s: Seq<HistoryEntry>) -> Map<Seq<char>, u128>
    decreases s.len(),
{
    if s.len() == 0 {
        Map::empty()
    } else {
        entries_map(s.drop_last()).insert(s.last().address@, s.last().amount)
    }
}

/// The sum of all recorded amounts.
pub open spec fn sum_amounts(s: Seq<HistoryEntry>) -> int
    decreases s.len(),
{
    if s.len() == 0 {
        0
    } else {
        sum_amounts(s.drop_last()) + s.last().amount
    }
}

/// The amount stored under `k`, or zero when no entry exists.
pub open spec fn stored_or_zero(m: Map<Seq<char>, u128>, k: Seq<char>) -> u128 {
    if m.contains_key(k) {
        m[k]
    } else {
        0
    }
}

impl View for History {
    type V = Map<Seq<char>, u128>;

    closed spec fn view(&self) -> Map<Seq<char>, u128> {
        entries_map(self.entries@)
    }
}

proof fn lemma_sum_nonneg(s: Seq<HistoryEntry>)
    ensures
        sum_amounts(s) >= 0,
    decreases s.len(),
{
    if s.len() > 0 {
        lemma_sum_nonneg(s.drop_last());
    }
}

/// Any recorded amount is bounded by the sum of all recorded amounts.
proof fn lemma_value_le_sum(s: Seq<HistoryEntry>, k: Seq<char>)
    requires
        entries_map(s).contains_key(k),
    ensures
        entries_map(s)[k] <= sum_amounts(s),
    decreases s.len(),
{
    if s.len() > 0 {
        if s.last().address@ == k {
            lemma_sum_nonneg(s.drop_last());
        } else {
            lemma_value_le_sum(s.drop_last(), k);
            let e = s.last();
            assert(e.amount >= 0);
        }
    }
}

/// Under unique addresses, the map holds exactly each entry's amount.
proof fn lemma_entries_map_index(s: Seq<HistoryEntry>, i: int)
    requires
        unique_addresses(s),
        0 <= i < s.len(),
    ensures
        entries_map(s).contains_key(s[i].address@),
        entries_map(s)[s[i].address@] == s[i].amount,
    decreases s.len(),
{
    if i < s.len() - 1 {
        assert(unique_addresses(s.drop_last()));
        lemma_entries_map_index(s.drop_last(), i);
        assert(s.drop_last()[i] == s[i]);
        assert(s[i].address@ != s[s.len() - 1].address@);
    }
}

/// An identity recorded by no entry is absent from the map.
proof fn lemma_entries_map_absent(s: Seq<HistoryEntry>, k: Seq<char>)
    requires
        forall|i: int| 0 <= i < s.len() ==> s[i].address@ != k,
    ensures
        !entries_map(s).contains_key(k),
    decreases s.len(),
{
    if s.len() > 0 {
        assert(s[s.len() - 1].address@ != k);
        lemma_entries_map_absent(s.drop_last(), k);
    }
}

/// Replacing one entry with another of the same identity updates the map at
/// that identity alone.
proof fn lemma_entries_map_update(s: Seq<HistoryEntry>, i: int, e: HistoryEntry)
    requires
        unique_addresses(s),
        0 <= i < s.len(),
        e.address@ == s[i].address@,
    ensures
        entries_map(s.update(i, e)) == entries_map(s).insert(e.address@, e.amount),
    decreases s.len(),
{
    let t = s.update(i, e);
    if i == s.len() - 1 {
        assert(t.drop_last() =~= s.drop_last());
        assert(t.last() == e);
        assert(entries_map(t) =~= entries_map(s).insert(e.address@, e.amount));
    } else {
        assert(t.drop_last() =~= s.drop_last().update(i, e));
        assert(unique_addresses(s.drop_last()));
        lemma_entries_map_update(s.drop_last(), i, e);
        assert(t.last() == s.last());
        assert(s[i].address@ != s[s.len() - 1].address@);
        assert(entries_map(t) =~= entries_map(s).insert(e.address@, e.amount));
    }
}

/// Replacing one entry shifts the sum by the difference of the amounts.
proof fn lemma_sum_update(s: Seq<HistoryEntry>, i: int, e: HistoryEntry)
    requires
        0 <= i < s.len(),
    ensures
        sum_amounts(s.update(i, e)) == sum_amounts(s) - s[i].amount + e.amount,
    decreases s.len(),
{
    let t = s.update(i, e);
    if i == s.len() - 1 {
        assert(t.drop_last() =~= s.drop_last());
        assert(t.last() == e);
    } else {
        assert(t.drop_last() =~= s.drop_last().update(i, e));
        lemma_sum_update(s.drop_last(), i, e);
        assert(t.last() == s.last());
    }
}

impl History {
    /// Each identity holds at most one entry, so the map view is faithful.
    pub closed spec fn wf(&self) -> bool {
        unique_addresses(self.entries@)
    }

    /// The sum of every depositor's recorded amount.
    pub closed spec fn total(&self) -> int {
        sum_amounts(self.entries@)
    }

    /// An empty ledger: no identity has ever deposited.
    pub fn new() -> (h: History)
        ensures
            h.wf(),
            h@ == Map::<Seq<char>, u128>::empty(),
            h.total() == 0,
    {
        History { entries: Vec::new() }
    }

    /// The cumulative amount `address` has ever deposited, or `None` when it
    /// has never deposited.
    pub fn get(&self, address: &String) -> (r: Option<u128>)
        requires
            self.wf(),
        ensures
            self@.contains_key(address@) ==> r == Some(self@[address@]),
            !self@.contains_key(address@) ==> r is None,
    {
        let n = self.entries.len();
        let mut i: usize = 0;
        while i < n
            invariant
                n == self.entries.len(),
                i <= n,
                self.wf(),
                forall|j: int| 0 <= j < i ==> self.entries@[j].address@ != address@,
            decreases n - i,
        {
            if self.entries[i].address == *address {
                proof {
                    lemma_entries_map_index(self.entries@, i as int);
                }
                return Some(self.entries[i].amount);
            }
            i += 1;
        }
        proof {
            lemma_entries_map_absent(self.entries@, address@);
        }
        None
    }

    /// Add `amount` to the entry of `address`, creating an entry of value
    /// `amount` when none exists.
    pub fn record_deposit(&mut self, address: String, amount: u128)
        requires
            old(self).wf(),
            stored_or_zero(old(self)@, address@) + amount <= u128::MAX,
        ensures
            final(self).wf(),
            final(self)@ == old(self)@.insert(
                address@,
                (stored_or_zero(old(self)@, address@) + amount) as u128,
            ),
            final(self).total() == old(self).total() + amount,
    {
        let n = self.entries.len();
        let mut i: usize = 0;
        while i < n
            invariant
                n == self.entries.len(),
                i <= n,
                self.wf(),
                *self == *old(self),
                stored_or_zero(self@, address@) + amount <= u128::MAX,
                forall|j: int| 0 <= j < i ==> self.entries@[j].address@ != address@,
            decreases n - i,
        {
            if self.entries[i].address == address {
                proof {
                    lemma_entries_map_index(self.entries@, i as int);
                }
                let updated = self.entries[i].amount + amount;
                let ghost s = self.entries@;
                let e = HistoryEntry { address, amount: updated };
                self.entries.set(i, e);
                proof {
                    lemma_entries_map_update(s, i as int, self.entries@[i as int]);
                    lemma_sum_update(s, i as int, self.entries@[i as int]);
                    assert(unique_addresses(self.entries@));
                }
                return;
            }
            i += 1;
        }
        proof {
            lemma_entries_map_absent(self.entries@, address@);
        }
        let ghost s = self.entries@;
        self.entries.push(HistoryEntry { address, amount });
        proof {
            assert(self.entries@.drop_last() =~= s);
            assert(forall|j: int| 0 <= j < s.len() ==> s[j] == self.entries@[j]);
            assert(unique_addresses(self.entries@));
        }
    }
}

/// The whole ledger state an operation works on: the configuration record
/// and the deposit history, loaded together and saved together, so that
/// each operation is all-or-nothing.
pub struct State {
    pub config: Config,
    pub history: History,
}

impl State {
    /// The standing invariant: the history is a well-formed map, and the
    /// cumulative counter equals the sum of all history entries. Deposits
    /// update both atomically, and nothing else touches either.
    pub open spec fn wf(&self) -> bool {
        &&& self.history.wf()
        &&& self.config.amount as int == self.history.total()
    }
}

/// No single depositor's recorded lifetime total ever exceeds the
/// contract's cumulative deposit counter.
pub proof fn lemma_history_within_cumulative(s: State, k: Seq<char>)
    requires
        s.wf(),
        s.history@.contains_key(k),
    ensures
        s.history@[k] <= s.config.amount,
{
    lemma_value_le_sum(s.history.entries@, k);
}

} // verus!
