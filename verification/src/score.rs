//! The score book: cumulative correct-answer counts per display name,
//! with a ranking ordered by descending count.

use vstd::prelude::*;

verus! {

broadcast use vstd::seq_lib::group_to_multiset_ensures;

/// One participant's tally.
pub struct ScoreEntry {
    pub name: String,
    pub count: u32,
}

/// The mathematical value of a tally: the display name and the count.
#[verifier::ext_equal]
pub ghost struct EntryV {
    pub name: Seq<char>,
    pub count: u32,
}

impl View for ScoreEntry {
    type V = EntryV;

    open spec fn view(&self) -> EntryV {
        EntryV { name: self.name@, count: self.count }
    }
}

impl DeepView for ScoreEntry {
    type V = EntryV;

    open spec fn deep_view(&self) -> EntryV {
        self.view()
    }
}

impl Clone for ScoreEntry {
    fn clone(&self) -> (e: Self)
        ensures
            e@ == self@,
    {
        ScoreEntry { name: self.name.clone(), count: self.count }
    }
}

/// No display name occurs twice.
pub open spec fn unique_names(s: Seq<EntryV>) -> bool {
    forall|i: int, j: int|
        0 <= i < j < s.len() ==> (#[trigger] s[i].name) != (#[trigger] s[j].name)
}

/// Some entry carries this name.
pub open spec fn has_name(s: Seq<EntryV>, name: Seq<char>) -> bool {
    exists|i: int| 0 <= i < s.len() && (#[trigger] s[i].name) == name
}

/// The count recorded for a name; zero when the name is absent.
pub open spec fn count_of(s: Seq<EntryV>, name: Seq<char>) -> nat
    decreases s.len(),
{
    if s.len() == 0 {
        0
    } else if s[0].name == name {
        s[0].count as nat
    } else {
        count_of(s.drop_first(), name)
    }
}

/// The book after one more correct answer for `name`: the first entry with
/// that name is bumped by one, or a fresh entry at one is appended.
pub open spec fn credit_spec(s: Seq<EntryV>, name: Seq<char>) -> Seq<EntryV>
    decreases s.len(),
{
    if s.len() == 0 {
        seq![EntryV { name, count: 1 }]
    } else if s[0].name == name {
        seq![EntryV { name, count: (s[0].count + 1) as u32 }] + s.drop_first()
    } else {
        seq![s[0]] + credit_spec(s.drop_first(), name)
    }
}

proof fn lemma_credit_skip(s: Seq<EntryV>, name: Seq<char>, i: int)
    requires
        0 <= i <= s.len(),
        forall|j: int| 0 <= j < i ==> (#[trigger] s[j].name) != name,
    ensures
        credit_spec(s, name) =~= s.take(i) + credit_spec(s.skip(i), name),
    decreases i,
{
    if i == 0 {
        assert(s.skip(0) =~= s);
        assert(s.take(0) + credit_spec(s, name) =~= credit_spec(s, name));
    } else {
        lemma_credit_skip(s.drop_first(), name, i - 1);
        assert(s.drop_first().take(i - 1) =~= s.take(i).drop_first());
        assert(s.drop_first().skip(i - 1) =~= s.skip(i));
        assert(credit_spec(s, name) =~= seq![s[0]] + credit_spec(s.drop_first(), name));
        assert(seq![s[0]] + (s.drop_first().take(i - 1) + credit_spec(s.skip(i), name)) =~= s.take(
            i,
        ) + credit_spec(s.skip(i), name));
    }
}

proof fn lemma_count_of_skip(s: Seq<EntryV>, name: Seq<char>, i: int)
    requires
        0 <= i <= s.len(),
        forall|j: int| 0 <= j < i ==> (#[trigger] s[j].name) != name,
    ensures
        count_of(s, name) == count_of(s.skip(i), name),
    decreases i,
{
    if i == 0 {
        assert(s.skip(0) =~= s);
    } else {
        lemma_count_of_skip(s.drop_first(), name, i - 1);
        assert(s.drop_first().skip(i - 1) =~= s.skip(i));
    }
}

/// Crediting a name raises exactly its own count by one.
pub proof fn lemma_credit_count(s: Seq<EntryV>, name: Seq<char>)
    requires
        count_of(s, name) < u32::MAX,
    ensures
        count_of(credit_spec(s, name), name) == count_of(s, name) + 1,
    decreases s.len(),
{
    if s.len() == 0 {
        let t = credit_spec(s, name);
        assert(t[0].name == name);
        assert(count_of(t, name) == 1);
    } else if s[0].name == name {
        let t = credit_spec(s, name);
        assert(t[0] == EntryV { name, count: (s[0].count + 1) as u32 });
        assert(count_of(t, name) == t[0].count as nat);
    } else {
        lemma_credit_count(s.drop_first(), name);
        assert(credit_spec(s, name).drop_first() =~= credit_spec(s.drop_first(), name));
    }
}

/// Crediting a name leaves every other count alone.
pub proof fn lemma_credit_other(s: Seq<EntryV>, name: Seq<char>, other: Seq<char>)
    requires
        other != name,
    ensures
        count_of(credit_spec(s, name), other) == count_of(s, other),
    decreases s.len(),
{
    let t = credit_spec(s, name);
    if s.len() == 0 {
        assert(t[0].name == name);
        assert(count_of(t, other) == count_of(t.drop_first(), other));
        assert(t.drop_first() =~= Seq::<EntryV>::empty());
    } else if s[0].name == name {
        assert(t[0].name == name);
        assert(count_of(t, other) == count_of(t.drop_first(), other));
        assert(t.drop_first() =~= s.drop_first());
    } else {
        lemma_credit_other(s.drop_first(), name, other);
        assert(t[0] == s[0]);
        assert(t.drop_first() =~= credit_spec(s.drop_first(), name));
        if s[0].name == other {
            assert(count_of(t, other) == t[0].count as nat);
        } else {
            assert(count_of(t, other) == count_of(t.drop_first(), other));
        }
    }
}

proof fn lemma_credit_names(s: Seq<EntryV>, name: Seq<char>, i: int)
    requires
        0 <= i < credit_spec(s, name).len(),
    ensures
        credit_spec(s, name).len() == if has_name(s, name) {
            s.len()
        } else {
            s.len() + 1
        },
        credit_spec(s, name)[i].name == if i < s.len() {
            s[i].name
        } else {
            name
        },
    decreases s.len(),
{
    if s.len() == 0 {
    } else if s[0].name == name {
        assert(has_name(s, name));
    } else {
        if i > 0 {
            lemma_credit_names(s.drop_first(), name, i - 1);
            assert(credit_spec(s, name)[i] == credit_spec(s.drop_first(), name)[i - 1]);
        } else {
            if 0 < credit_spec(s.drop_first(), name).len() {
                lemma_credit_names(s.drop_first(), name, 0);
            }
        }
        if has_name(s.drop_first(), name) {
            assert(has_name(s, name)) by {
                let w = choose|k: int|
                    0 <= k < s.drop_first().len() && (#[trigger] s.drop_first()[k].name) == name;
                assert(s[w + 1].name == name);
            };
        }
        if has_name(s, name) {
            let w = choose|k: int| 0 <= k < s.len() && (#[trigger] s[k].name) == name;
            assert(s.drop_first()[w - 1].name == name);
            assert(has_name(s.drop_first(), name));
        }
    }
}

/// Crediting keeps the display names unique.
pub proof fn lemma_credit_unique(s: Seq<EntryV>, name: Seq<char>)
    requires
        unique_names(s),
    ensures
        unique_names(credit_spec(s, name)),
{
    let t = credit_spec(s, name);
    if t.len() > 0 {
        lemma_credit_names(s, name, 0);
        assert forall|i: int, j: int| 0 <= i < j < t.len() implies (#[trigger] t[i].name) != (
        #[trigger] t[j].name) by {
            lemma_credit_names(s, name, i);
            lemma_credit_names(s, name, j);
            if j >= s.len() {
                assert(!has_name(s, name));
                assert(t[j].name == name);
                assert(t[i].name == s[i].name);
            }
        }
    }
}

/// Where a fresh entry lands in a descending ranking: before the first
/// entry whose count is strictly smaller.
pub open spec fn insert_pos(s: Seq<EntryV>, c: u32) -> int
    decreases s.len(),
{
    if s.len() == 0 {
        0
    } else if c > s[0].count {
        0
    } else {
        1 + insert_pos(s.drop_first(), c)
    }
}

pub proof fn lemma_insert_pos_bounds(s: Seq<EntryV>, c: u32)
    ensures
        0 <= insert_pos(s, c) <= s.len(),
        forall|k: int| 0 <= k < insert_pos(s, c) ==> (#[trigger] s[k].count) >= c,
        insert_pos(s, c) < s.len() ==> s[insert_pos(s, c)].count < c,
    decreases s.len(),
{
    if s.len() == 0 || c > s[0].count {
    } else {
        lemma_insert_pos_bounds(s.drop_first(), c);
        assert forall|k: int| 0 <= k < insert_pos(s, c) implies (#[trigger] s[k].count) >= c by {
            if k > 0 {
                assert(s.drop_first()[k - 1].count >= c);
            }
        }
    }
}

proof fn lemma_insert_pos_eq(s: Seq<EntryV>, c: u32, j: int)
    requires
        0 <= j <= s.len(),
        forall|k: int| 0 <= k < j ==> (#[trigger] s[k].count) >= c,
        j < s.len() ==> s[j].count < c,
    ensures
        insert_pos(s, c) == j,
    decreases j,
{
    if j == 0 {
    } else {
        lemma_insert_pos_eq(s.drop_first(), c, j - 1);
    }
}

/// One entry placed into a descending ranking.
pub open spec fn insert_desc(s: Seq<EntryV>, e: EntryV) -> Seq<EntryV> {
    s.insert(insert_pos(s, e.count), e)
}

/// The descending ranking of a score book, built entry by entry. An entry
/// never moves ahead of an earlier entry with the same count, so ties keep
/// their book order.
pub open spec fn sort_desc(s: Seq<EntryV>) -> Seq<EntryV>
    decreases s.len(),
{
    if s.len() == 0 {
        Seq::empty()
    } else {
        insert_desc(sort_desc(s.drop_last()), s.last())
    }
}

/// Counts never increase along the sequence.
pub open spec fn sorted_desc(s: Seq<EntryV>) -> bool {
    forall|i: int, j: int|
        0 <= i < j < s.len() ==> (#[trigger] s[i].count) >= (#[trigger] s[j].count)
}

proof fn lemma_insert_desc_sorted(s: Seq<EntryV>, e: EntryV)
    requires
        sorted_desc(s),
    ensures
        sorted_desc(insert_desc(s, e)),
{
    let p = insert_pos(s, e.count);
    lemma_insert_pos_bounds(s, e.count);
    let t = insert_desc(s, e);
    assert forall|i: int, j: int| 0 <= i < j < t.len() implies (#[trigger] t[i].count) >= (
    #[trigger] t[j].count) by {
        if i < p {
            assert(t[i] == s[i]);
        } else if i == p {
            assert(t[i] == e);
        } else {
            assert(t[i] == s[i - 1]);
        }
        if j < p {
            assert(t[j] == s[j]);
        } else if j == p {
            assert(t[j] == e);
        } else {
            assert(t[j] == s[j - 1]);
        }
    }
}

proof fn lemma_insert_desc_multiset(s: Seq<EntryV>, e: EntryV)
    ensures
        insert_desc(s, e).to_multiset() =~= s.to_multiset().insert(e),
{
    lemma_insert_pos_bounds(s, e.count);
}

/// The ranking is ordered by descending count.
pub proof fn lemma_sort_desc_sorted(s: Seq<EntryV>)
    ensures
        sorted_desc(sort_desc(s)),
    decreases s.len(),
{
    if s.len() > 0 {
        lemma_sort_desc_sorted(s.drop_last());
        lemma_insert_desc_sorted(sort_desc(s.drop_last()), s.last());
    }
}

/// The ranking is a permutation of the book.
pub proof fn lemma_sort_desc_permutes(s: Seq<EntryV>)
    ensures
        sort_desc(s).to_multiset() =~= s.to_multiset(),
    decreases s.len(),
{
    if s.len() > 0 {
        lemma_sort_desc_permutes(s.drop_last());
        lemma_insert_desc_multiset(sort_desc(s.drop_last()), s.last());
        assert(s.drop_last().push(s.last()) =~= s);
    }
}

/// Correct-answer counts per display name. Entries appear on a first
/// correct answer, are never decremented, and vanish only on `clear`.
pub struct ScoreBook {
    entries: Vec<ScoreEntry>,
}

impl View for ScoreBook {
    type V = Seq<EntryV>;

    closed spec fn view(&self) -> Seq<EntryV> {
        self.entries.deep_view()
    }
}

impl ScoreBook {
    pub open spec fn wf(&self) -> bool {
        unique_names(self@)
    }

    pub fn new() -> (book: Self)
        ensures
            book.wf(),
            book@ =~= Seq::<EntryV>::empty(),
    {
        ScoreBook { entries: Vec::new() }
    }

    pub fn len(&self) -> (n: usize)
        ensures
            n == self@.len(),
    {
        self.entries.len()
    }

    /// One more correct answer for `name`: bumps its entry, or opens one at 1.
    pub fn credit(&mut self, name: &String)
        requires
            old(self).wf(),
            count_of(old(self)@, name@) < u32::MAX,
        ensures
            final(self).wf(),
            final(self)@ =~= credit_spec(old(self)@, name@),
            count_of(final(self)@, name@) == count_of(old(self)@, name@) + 1,
            forall|other: Seq<char>|
                other != name@ ==> count_of(final(self)@, other) == count_of(old(self)@, other),
    {
        let ghost s = self.entries.deep_view();
        let n = self.entries.len();
        let mut i: usize = 0;
        while i < n
            invariant
                n == s.len(),
                i <= n,
                s == old(self)@,
                s == self.entries.deep_view(),
                unique_names(s),
                count_of(s, name@) < u32::MAX,
                forall|j: int| 0 <= j < i ==> (#[trigger] s[j].name) != name@,
            decreases n - i,
        {
            if self.entries[i].name == *name {
                proof {
                    lemma_credit_skip(s, name@, i as int);
                    lemma_count_of_skip(s, name@, i as int);
                    assert(s.skip(i as int)[0] == s[i as int]);
                    assert(count_of(s.skip(i as int), name@) == s[i as int].count as nat);
                }
                let bumped = ScoreEntry {
                    name: self.entries[i].name.clone(),
                    count: self.entries[i].count + 1,
                };
                self.entries.set(i, bumped);
                proof {
                    assert(credit_spec(s.skip(i as int), name@) =~= seq![
                        EntryV { name: name@, count: (s[i as int].count + 1) as u32 },
                    ] + s.skip(i as int).drop_first());
                    assert(self.entries.deep_view() =~= s.take(i as int) + credit_spec(
                        s.skip(i as int),
                        name@,
                    ));
                    assert(self.entries.deep_view() =~= credit_spec(s, name@));
                    lemma_credit_count(s, name@);
                    lemma_credit_unique(s, name@);
                    assert forall|other: Seq<char>| other != name@ implies count_of(
                        credit_spec(s, name@),
                        other,
                    ) == count_of(s, other) by {
                        lemma_credit_other(s, name@, other);
                    }
                }
                return ;
            }
            i += 1;
        }
        proof {
            lemma_credit_skip(s, name@, n as int);
            assert(s.skip(n as int) =~= Seq::<EntryV>::empty());
        }
        self.entries.push(ScoreEntry { name: name.clone(), count: 1 });
        proof {
            assert(self.entries.deep_view() =~= s.take(n as int) + seq![
                EntryV { name: name@, count: 1 },
            ]);
            assert(self.entries.deep_view() =~= credit_spec(s, name@));
            lemma_credit_count(s, name@);
            lemma_credit_unique(s, name@);
            assert forall|other: Seq<char>| other != name@ implies count_of(
                credit_spec(s, name@),
                other,
            ) == count_of(s, other) by {
                lemma_credit_other(s, name@, other);
            }
        }
    }

    /// The entries ordered by descending count; ties keep their book order.
    pub fn ranked(&self) -> (r: Vec<ScoreEntry>)
        ensures
            r.deep_view() =~= sort_desc(self@),
    {
        let mut r: Vec<ScoreEntry> = Vec::new();
        let mut i: usize = 0;
        let n = self.entries.len();
        while i < n
            invariant
                n == self@.len(),
                i <= n,
                self@ == self.entries.deep_view(),
                r.deep_view() =~= sort_desc(self@.take(i as int)),
            decreases n - i,
        {
            let e = self.entries[i].clone();
            let ghost sorted = r.deep_view();
            let mut j: usize = 0;
            while j < r.len() && r[j].count >= e.count
                invariant
                    sorted == r.deep_view(),
                    sorted.len() == r.len(),
                    j <= r.len(),
                    forall|k: int| 0 <= k < j ==> (#[trigger] sorted[k].count) >= e@.count,
                decreases r.len() - j,
            {
                j += 1;
            }
            proof {
                lemma_insert_pos_eq(sorted, e@.count, j as int);
            }
            r.insert(j, e);
            proof {
                assert(r.deep_view() =~= insert_desc(sorted, e@));
                assert(self@.take(i + 1).drop_last() =~= self@.take(i as int));
                assert(self@.take(i + 1).last() == self@[i as int]);
            }
            i += 1;
        }
        proof {
            assert(self@.take(n as int) =~= self@);
        }
        r
    }

    /// The count recorded for a name; zero when the name is absent.
    pub fn get(&self, name: &String) -> (c: u32)
        ensures
            c as nat == count_of(self@, name@),
    {
        let ghost s = self.entries.deep_view();
        let n = self.entries.len();
        let mut i: usize = 0;
        while i < n
            invariant
                n == s.len(),
                i <= n,
                s == self@,
                s == self.entries.deep_view(),
                forall|j: int| 0 <= j < i ==> (#[trigger] s[j].name) != name@,
            decreases n - i,
        {
            if self.entries[i].name == *name {
                proof {
                    lemma_count_of_skip(s, name@, i as int);
                    assert(s.skip(i as int)[0] == s[i as int]);
                }
                return self.entries[i].count;
            }
            i += 1;
        }
        proof {
            lemma_count_of_skip(s, name@, n as int);
            assert(s.skip(n as int) =~= Seq::<EntryV>::empty());
        }
        0
    }

    /// Removes every entry.
    pub fn clear(&mut self)
        ensures
            final(self).wf(),
            final(self)@ =~= Seq::<EntryV>::empty(),
    {
        self.entries.clear();
    }
}

} // verus!
