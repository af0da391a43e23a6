//! Which known account to recommend: the one that the most similar users
//! have.

use crate::common::views;
use vstd::prelude::*;

verus! {

/// How often the id occurs among the ids.
pub open spec fn occurrences(ids: Seq<Seq<char>>, id: Seq<char>) -> nat
    decreases ids.len(),
{
    if ids.len() == 0 {
        0
    } else {
        occurrences(ids.drop_last(), id) + if ids.last() == id {
            1nat
        } else {
            0nat
        }
    }
}

/// The ids of the known accounts of all similar users, one user after the
/// other. A user whose accounts could not be read has none.
pub open spec fn known_ids(lists: Seq<Option<Vec<String>>>) -> Seq<Seq<char>>
    decreases lists.len(),
{
    if lists.len() == 0 {
        Seq::empty()
    } else {
        known_ids(lists.drop_last()) + match lists.last() {
            Some(ids) => views(ids@),
            None => Seq::empty(),
        }
    }
}

/// A count as it is kept: the number itself, and the largest number that can
/// be kept where it is larger.
pub open spec fn capped(n: nat) -> u64 {
    if n > u64::MAX {
        u64::MAX
    } else {
        n as u64
    }
}

/// Whether the table has an entry for the id.
pub open spec fn has_entry(table: Seq<(String, u64)>, id: Seq<char>) -> bool {
    exists|i: int| 0 <= i < table.len() && (#[trigger] table[i]).0@ == id
}

/// Whether the table tells how often each id occurs among the ids: one entry
/// for each id that occurs, with the number of its occurrences.
pub open spec fn tallies(table: Seq<(String, u64)>, ids: Seq<Seq<char>>) -> bool {
    &&& forall|i: int, j: int|
        0 <= i < j < table.len() ==> (#[trigger] table[i]).0@ != (#[trigger] table[j]).0@
    &&& forall|i: int|
        0 <= i < table.len() ==> occurrences(ids, (#[trigger] table[i]).0@) > 0 && table[i].1
            == capped(occurrences(ids, table[i].0@))
    &&& forall|id: Seq<char>| occurrences(ids, id) > 0 ==> #[trigger] has_entry(table, id)
}

proof fn lemma_occurrences_push(ids: Seq<Seq<char>>, next: Seq<char>, id: Seq<char>)
    ensures
        occurrences(ids.push(next), id) == occurrences(ids, id) + if next == id {
            1nat
        } else {
            0nat
        },
{
    assert(ids.push(next).drop_last() =~= ids);
}

fn position_of(table: &Vec<(String, u64)>, id: &String) -> (r: Option<usize>)
    ensures
        match r {
            Some(i) => i < table@.len() && table@[i as int].0@ == id@,
            None => !has_entry(table@, id@),
        },
{
    let mut i: usize = 0;
    while i < table.len()
        invariant
            i <= table.len(),
            forall|j: int| 0 <= j < i ==> (#[trigger] table@[j]).0@ != id@,
        decreases table.len() - i,
    {
        if table[i].0.eq(id) {
            return Some(i);
        }
        i += 1;
    }
    None
}

/// Counts one more occurrence of the id.
fn count(table: &mut Vec<(String, u64)>, id: &String, Ghost(seen): Ghost<Seq<Seq<char>>>)
    requires
        tallies(old(table)@, seen),
    ensures
        tallies(final(table)@, seen.push(id@)),
{
    let ghost before = table@;
    match position_of(table, id) {
        Some(i) => {
            let found = table[i].1;
            let counted: u64 = if found < u64::MAX {
                found + 1
            } else {
                found
            };
            table[i].1 = counted;
            proof {
                assert forall|k: int| 0 <= k < table@.len() implies occurrences(
                    seen.push(id@),
                    (#[trigger] table@[k]).0@,
                ) > 0 && table@[k].1 == capped(occurrences(seen.push(id@), table@[k].0@)) by {
                    lemma_occurrences_push(seen, id@, table@[k].0@);
                    assert(table@[k].0@ == before[k].0@);
                    if k != i {
                        assert(before[k].0@ != before[i as int].0@);
                    }
                }
                assert forall|other: Seq<char>|
                    occurrences(seen.push(id@), other) > 0 implies #[trigger] has_entry(
                    table@,
                    other,
                ) by {
                    lemma_occurrences_push(seen, id@, other);
                    if other == id@ {
                        assert(table@[i as int].0@ == other);
                    } else {
                        assert(has_entry(before, other));
                        let w = choose|w: int| 0 <= w < before.len() && (#[trigger] before[w]).0@ == other;
                        assert(table@[w].0@ == other);
                    }
                }
                assert forall|a: int, b: int| 0 <= a < b < table@.len() implies (
                #[trigger] table@[a]).0@ != (#[trigger] table@[b]).0@ by {
                    assert(table@[a].0@ == before[a].0@);
                    assert(table@[b].0@ == before[b].0@);
                }
            }
        },
        None => {
            table.push((id.clone(), 1));
            proof {
                assert(occurrences(seen, id@) == 0) by {
                    if occurrences(seen, id@) > 0 {
                        assert(has_entry(before, id@));
                    }
                }
                assert forall|k: int| 0 <= k < table@.len() implies occurrences(
                    seen.push(id@),
                    (#[trigger] table@[k]).0@,
                ) > 0 && table@[k].1 == capped(occurrences(seen.push(id@), table@[k].0@)) by {
                    lemma_occurrences_push(seen, id@, table@[k].0@);
                    if k < before.len() {
                        assert(table@[k] == before[k]);
                        assert(has_entry(before, before[k].0@));
                    }
                }
                assert forall|other: Seq<char>|
                    occurrences(seen.push(id@), other) > 0 implies #[trigger] has_entry(
                    table@,
                    other,
                ) by {
                    lemma_occurrences_push(seen, id@, other);
                    if other == id@ {
                        assert(table@[before.len() as int].0@ == other);
                    } else {
                        assert(has_entry(before, other));
                        let w = choose|w: int| 0 <= w < before.len() && (#[trigger] before[w]).0@ == other;
                        assert(table@[w] == before[w]);
                    }
                }
                assert forall|a: int, b: int| 0 <= a < b < table@.len() implies (
                #[trigger] table@[a]).0@ != (#[trigger] table@[b]).0@ by {
                    assert(table@[a] == before[a]);
                    if b < before.len() {
                        assert(table@[b] == before[b]);
                    } else {
                        assert(has_entry(before, before[a].0@));
                    }
                }
            }
        },
    }
}

/// How often each known account occurs among the similar users: one entry for
/// each account, in the order in which the accounts are first met. A user whose
/// accounts could not be read is `None` and is passed over.
pub fn get_frequency_of_known_accounts(extracted_known_accounts: &Vec<Option<Vec<String>>>) -> (table:
    Vec<(String, u64)>)
    ensures
        tallies(table@, known_ids(extracted_known_accounts@)),
{
    let ghost lists = extracted_known_accounts@;
    let mut table: Vec<(String, u64)> = Vec::new();
    let mut i: usize = 0;
    assert(known_ids(lists.take(0)) =~= Seq::empty());
    while i < extracted_known_accounts.len()
        invariant
            i <= extracted_known_accounts.len(),
            lists == extracted_known_accounts@,
            tallies(table@, known_ids(lists.take(i as int))),
        decreases extracted_known_accounts.len() - i,
    {
        proof {
            assert(lists.take(i + 1).drop_last() =~= lists.take(i as int));
            assert(lists.take(i + 1).last() == lists[i as int]);
        }
        match &extracted_known_accounts[i] {
            Some(ids) => {
                let ghost earlier = known_ids(lists.take(i as int));
                let mut j: usize = 0;
                assert(earlier + views(ids@).take(0) =~= earlier);
                while j < ids.len()
                    invariant
                        j <= ids.len(),
                        tallies(table@, earlier + views(ids@).take(j as int)),
                    decreases ids.len() - j,
                {
                    count(&mut table, &ids[j], Ghost(earlier + views(ids@).take(j as int)));
                    proof {
                        assert((earlier + views(ids@).take(j as int)).push(ids@[j as int]@) =~= earlier
                            + views(ids@).take(j + 1));
                    }
                    j += 1;
                }
                proof {
                    assert(views(ids@).take(j as int) =~= views(ids@));
                }
            },
            None => {
                proof {
                    assert(known_ids(lists.take(i + 1)) =~= known_ids(lists.take(i as int)));
                }
            },
        }
        i += 1;
    }
    proof {
        assert(lists.take(i as int) =~= lists);
    }
    table
}

/// The largest count in the table, and -1 where the table is empty.
pub open spec fn largest_frequency(table: Seq<(String, u64)>) -> int
    decreases table.len(),
{
    if table.len() == 0 {
        -1
    } else {
        let before = largest_frequency(table.drop_last());
        if table.last().1 > before {
            table.last().1 as int
        } else {
            before
        }
    }
}

/// The ids in the table that have the given count, in the order of the table.
pub open spec fn with_frequency(table: Seq<(String, u64)>, frequency: int) -> Seq<Seq<char>>
    decreases table.len(),
{
    if table.len() == 0 {
        Seq::empty()
    } else if table.last().1 == frequency {
        with_frequency(table.drop_last(), frequency).push(table.last().0@)
    } else {
        with_frequency(table.drop_last(), frequency)
    }
}

/// The ids of the accounts that occur most often, in the order of the table.
pub open spec fn most_frequent(table: Seq<(String, u64)>) -> Seq<Seq<char>> {
    with_frequency(table, largest_frequency(table))
}

/// The largest count of a table that is not empty is the count of one of its
/// entries, so there is an account that occurs most often.
pub proof fn most_frequent_exists(table: Seq<(String, u64)>)
    requires
        table.len() > 0,
    ensures
        most_frequent(table).len() > 0,
        forall|i: int| 0 <= i < table.len() ==> (#[trigger] table[i]).1 <= largest_frequency(table),
{
    lemma_largest_is_attained(table);
    let i = choose|i: int| 0 <= i < table.len() && (#[trigger] table[i]).1 == largest_frequency(table);
    lemma_with_frequency_holds(table, largest_frequency(table), i);
}

proof fn lemma_largest_is_attained(table: Seq<(String, u64)>)
    requires
        table.len() > 0,
    ensures
        exists|i: int| 0 <= i < table.len() && (#[trigger] table[i]).1 == largest_frequency(table),
        forall|i: int| 0 <= i < table.len() ==> (#[trigger] table[i]).1 <= largest_frequency(table),
    decreases table.len(),
{
    let shorter = table.drop_last();
    if shorter.len() == 0 {
        assert(table[table.len() - 1].1 == largest_frequency(table));
    } else {
        lemma_largest_is_attained(shorter);
        if table.last().1 > largest_frequency(shorter) {
            assert(table[table.len() - 1].1 == largest_frequency(table));
        } else {
            let i = choose|i: int|
                0 <= i < shorter.len() && (#[trigger] shorter[i]).1 == largest_frequency(shorter);
            assert(table[i] == shorter[i]);
        }
        assert forall|i: int| 0 <= i < table.len() implies (#[trigger] table[i]).1
            <= largest_frequency(table) by {
            if i < shorter.len() {
                assert(table[i] == shorter[i]);
            }
        }
    }
}

proof fn lemma_with_frequency_holds(table: Seq<(String, u64)>, frequency: int, i: int)
    requires
        0 <= i < table.len(),
        table[i].1 == frequency,
    ensures
        with_frequency(table, frequency).len() > 0,
    decreases table.len(),
{
    if i < table.len() - 1 {
        assert(table.drop_last()[i] == table[i]);
        lemma_with_frequency_holds(table.drop_last(), frequency, i);
    }
}

/// The accounts that occur most often among the similar users.
pub fn most_frequent_accounts(known_account_frequencies: &Vec<(String, u64)>) -> (accounts: Vec<
    String,
>)
    ensures
        views(accounts@) == most_frequent(known_account_frequencies@),
{
    let ghost table = known_account_frequencies@;
    let mut largest: Option<u64> = None;
    let mut i: usize = 0;
    while i < known_account_frequencies.len()
        invariant
            i <= known_account_frequencies.len(),
            table == known_account_frequencies@,
            match largest {
                Some(count) => largest_frequency(table.take(i as int)) == count,
                None => largest_frequency(table.take(i as int)) == -1,
            },
        decreases known_account_frequencies.len() - i,
    {
        proof {
            assert(table.take(i + 1).drop_last() =~= table.take(i as int));
            assert(table.take(i + 1).last() == table[i as int]);
        }
        largest = match largest {
            Some(count) => if known_account_frequencies[i].1 > count {
                Some(known_account_frequencies[i].1)
            } else {
                Some(count)
            },
            None => Some(known_account_frequencies[i].1),
        };
        i += 1;
    }
    proof {
        assert(table.take(i as int) =~= table);
    }
    let mut accounts: Vec<String> = Vec::new();
    let largest = match largest {
        Some(count) => count,
        None => {
            assert(views(accounts@) =~= most_frequent(table));
            return accounts;
        },
    };
    let mut i: usize = 0;
    assert(views(accounts@) =~= with_frequency(table.take(0), largest as int));
    while i < known_account_frequencies.len()
        invariant
            i <= known_account_frequencies.len(),
            table == known_account_frequencies@,
            largest == largest_frequency(table),
            views(accounts@) == with_frequency(table.take(i as int), largest as int),
        decreases known_account_frequencies.len() - i,
    {
        proof {
            assert(table.take(i + 1).drop_last() =~= table.take(i as int));
            assert(table.take(i + 1).last() == table[i as int]);
        }
        if known_account_frequencies[i].1 == largest {
            let ghost before = views(accounts@);
            accounts.push(known_account_frequencies[i].0.clone());
            assert(views(accounts@) =~= before.push(table[i as int].0@));
        }
        i += 1;
    }
    proof {
        assert(table.take(i as int) =~= table);
    }
    accounts
}

/// One of the accounts that occur most often among the similar users, none
/// where there is no account at all. `choice` says which of them: it is
/// counted round the accounts that tie.
pub fn get_most_frequent_account(known_account_frequencies: &Vec<(String, u64)>, choice: usize) -> (account:
    Option<String>)
    ensures
        match account {
            Some(id) => {
                &&& known_account_frequencies@.len() > 0
                &&& id@ == most_frequent(known_account_frequencies@)[(choice as int) % (
                most_frequent(known_account_frequencies@).len() as int)]
            },
            None => known_account_frequencies@.len() == 0,
        },
{
    let candidates = most_frequent_accounts(known_account_frequencies);
    if known_account_frequencies.len() == 0 {
        return None;
    }
    proof {
        most_frequent_exists(known_account_frequencies@);
    }
    let picked = choice % candidates.len();
    Some(candidates[picked].clone())
}

} // verus!
