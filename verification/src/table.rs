//! A string-keyed association table: the shared backbone of the metadata
//! store and of the operation registry.
//!
//! Entries live in a vector of `(key, value)` pairs with pairwise distinct
//! keys; lookup is by key text.

use vstd::prelude::*;

verus! {

/// First-match lookup over a sequence of entries.
pub open spec fn LookupIn<V>(Entries: Seq<(String, V)>, Key: Seq<char>) -> Option<V>
    decreases Entries.len(),
{
    if Entries.len() == 0 {
        None
    } else if Entries[0].0@ == Key {
        Some(Entries[0].1)
    } else {
        LookupIn(Entries.drop_first(), Key)
    }
}

/// No two entries of the sequence share a key.
pub open spec fn DistinctKeys<V>(Entries: Seq<(String, V)>) -> bool {
    forall|i: int, j: int| 0 <= i < j < Entries.len() ==> Entries[i].0@ != Entries[j].0@
}

/// Look up `Key`, borrowing the stored value.
pub fn TableGet<'a, V>(Entry: &'a Vec<(String, V)>, Key: &str) -> (r: Option<&'a V>)
    ensures
        match r {
            Some(v) => LookupIn(Entry@, Key@) == Some(*v),
            None => LookupIn(Entry@, Key@) is None,
        },
{
    let Want: String = Key.to_owned();
    let mut i: usize = 0;
    while i < Entry.len()
        invariant
            i <= Entry@.len(),
            Want@ == Key@,
            forall|k: int| 0 <= k < i ==> Entry@[k].0@ != Key@,
        decreases Entry@.len() - i,
    {
        if Entry[i].0 == Want {
            proof {
                LemmaLookupPrefixFree(Entry@, Key@, i as int);
                assert(Entry@.subrange(i as int, Entry@.len() as int)[0] == Entry@[i as int]);
            }
            return Some(&Entry[i].1);
        }
        i += 1;
    }
    proof {
        LemmaLookupPrefixFree(Entry@, Key@, Entry@.len() as int);
    }
    None
}

/// Insert `Val` under `Key`, overwriting an entry with the same key.
pub fn TableInsert<V>(Entry: &mut Vec<(String, V)>, Key: String, Val: V)
    requires
        DistinctKeys(old(Entry)@),
    ensures
        DistinctKeys(final(Entry)@),
        LookupIn(final(Entry)@, Key@) == Some(Val),
        forall|k: Seq<char>|
            k != Key@ ==> LookupIn(final(Entry)@, k) == LookupIn(old(Entry)@, k),
        final(Entry)@.len() <= old(Entry)@.len() + 1,
{
    let ghost entries0 = Entry@;
    let mut i: usize = 0;
    while i < Entry.len()
        invariant
            i <= Entry@.len(),
            Entry@ == entries0,
            entries0 == old(Entry)@,
            DistinctKeys(entries0),
            forall|k: int| 0 <= k < i ==> entries0[k].0@ != Key@,
        decreases Entry@.len() - i,
    {
        if Entry[i].0 == Key {
            let ghost pos = i as int;
            Entry.remove(i);
            Entry.insert(i, (Key, Val));
            proof {
                let updated = entries0.update(pos, (Key, Val));
                assert(Entry@ =~= updated);
                assert forall|p: int, q: int|
                    0 <= p < q < updated.len() implies updated[p].0@ != updated[q].0@ by {
                    assert(entries0[p].0@ != entries0[q].0@);
                }
                assert forall|k: Seq<char>|
                    #[trigger] LookupIn(updated, k) == (if k == Key@ {
                        Some(Val)
                    } else {
                        LookupIn(entries0, k)
                    }) by {
                    LemmaLookupUpdateAt(entries0, pos, Key, Val, k);
                }
            }
            return;
        }
        i += 1;
    }
    proof {
        assert forall|k: Seq<char>|
            #[trigger] LookupIn(entries0.push((Key, Val)), k) == (if k == Key@ {
                Some(Val)
            } else {
                LookupIn(entries0, k)
            }) by {
            LemmaLookupPushAt(entries0, Key, Val, k);
        }
        assert forall|p: int, q: int|
            0 <= p < q < entries0.push((Key, Val)).len() implies entries0.push(
            (Key, Val),
        )[p].0@ != entries0.push((Key, Val))[q].0@ by {
            if q < entries0.len() {
                assert(entries0[p].0@ != entries0[q].0@);
            } else {
                assert(entries0[p].0@ != Key@);
            }
        }
    }
    Entry.push((Key, Val));
}

/// Remove the first entry under `Key` and hand its value back. With unique
/// keys this erases the key entirely; without, later duplicates survive,
/// but every other key's lookup is untouched either way.
pub fn TableRemove<V>(Entry: &mut Vec<(String, V)>, Key: &str) -> (r: Option<V>)
    ensures
        r == LookupIn(old(Entry)@, Key@),
        forall|k: Seq<char>|
            k != Key@ ==> LookupIn(final(Entry)@, k) == LookupIn(old(Entry)@, k),
        final(Entry)@.len() <= old(Entry)@.len(),
        DistinctKeys(old(Entry)@) ==> DistinctKeys(final(Entry)@) && LookupIn(
            final(Entry)@,
            Key@,
        ) is None,
{
    let Want: String = Key.to_owned();
    let ghost entries0 = Entry@;
    let mut i: usize = 0;
    while i < Entry.len()
        invariant
            i <= Entry@.len(),
            Want@ == Key@,
            Entry@ == entries0,
            entries0 == old(Entry)@,
            forall|k: int| 0 <= k < i ==> entries0[k].0@ != Key@,
        decreases Entry@.len() - i,
    {
        if Entry[i].0 == Want {
            let ghost pos = i as int;
            proof {
                LemmaLookupPrefixFree(entries0, Key@, pos);
                assert(entries0.subrange(pos, entries0.len() as int)[0] == entries0[pos]);
                assert(LookupIn(entries0.subrange(pos, entries0.len() as int), Key@) == Some(
                    entries0[pos].1,
                ));
                let shrunk = entries0.remove(pos);
                assert forall|k: Seq<char>|
                    k != Key@ implies #[trigger] LookupIn(shrunk, k) == LookupIn(entries0, k) by {
                    LemmaLookupRemoveFirstAt(entries0, pos, Key@, k);
                }
                if DistinctKeys(entries0) {
                    assert forall|p: int, q: int|
                        0 <= p < q < shrunk.len() implies shrunk[p].0@ != shrunk[q].0@ by {
                        let p0 = if p < pos { p } else { p + 1 };
                        let q0 = if q < pos { q } else { q + 1 };
                        assert(entries0[p0].0@ != entries0[q0].0@);
                    }
                    LemmaLookupRemoveAt(entries0, pos, Key@, Key@);
                }
            }
            let pair = Entry.remove(i);
            return Some(pair.1);
        }
        i += 1;
    }
    proof {
        LemmaLookupPrefixFree(entries0, Key@, entries0.len() as int);
    }
    None
}

/// If no entry before position `i` matches `Key`, the lookup is decided by
/// the entries from `i` on.
pub proof fn LemmaLookupPrefixFree<V>(Entries: Seq<(String, V)>, Key: Seq<char>, i: int)
    requires
        0 <= i <= Entries.len(),
        forall|k: int| 0 <= k < i ==> Entries[k].0@ != Key,
    ensures
        LookupIn(Entries, Key) == LookupIn(Entries.subrange(i, Entries.len() as int), Key),
    decreases i,
{
    if i == 0 {
        assert(Entries.subrange(0, Entries.len() as int) =~= Entries);
    } else {
        LemmaLookupPrefixFree(Entries.drop_first(), Key, i - 1);
        assert(Entries.drop_first().subrange(i - 1, Entries.drop_first().len() as int)
            =~= Entries.subrange(i, Entries.len() as int));
    }
}

/// Updating the sole entry whose key reads as `NewKey` rewrites that key's
/// lookup and leaves the lookup of `k` alone for any other `k`.
pub proof fn LemmaLookupUpdateAt<V>(
    Entries: Seq<(String, V)>,
    i: int,
    NewKey: String,
    Val: V,
    k: Seq<char>,
)
    requires
        0 <= i < Entries.len(),
        Entries[i].0@ == NewKey@,
        DistinctKeys(Entries),
    ensures
        LookupIn(Entries.update(i, (NewKey, Val)), k) == (if k == NewKey@ {
            Some(Val)
        } else {
            LookupIn(Entries, k)
        }),
    decreases i,
{
    let updated = Entries.update(i, (NewKey, Val));
    if i == 0 {
        assert(updated[0] == (NewKey, Val));
        assert(updated.drop_first() =~= Entries.drop_first());
    } else {
        assert(Entries[0].0@ != NewKey@);
        assert(updated[0] == Entries[0]);
        assert forall|p: int, q: int|
            0 <= p < q < Entries.drop_first().len() implies Entries.drop_first()[p].0@
            != Entries.drop_first()[q].0@ by {
            assert(Entries[p + 1].0@ != Entries[q + 1].0@);
        }
        LemmaLookupUpdateAt(Entries.drop_first(), i - 1, NewKey, Val, k);
        assert(updated.drop_first() =~= Entries.drop_first().update(i - 1, (NewKey, Val)));
    }
}

/// Appending an entry whose key is absent adds that key's lookup and leaves
/// the lookup of `k` alone for any other `k`.
pub proof fn LemmaLookupPushAt<V>(Entries: Seq<(String, V)>, NewKey: String, Val: V, k: Seq<char>)
    requires
        forall|j: int| 0 <= j < Entries.len() ==> Entries[j].0@ != NewKey@,
    ensures
        LookupIn(Entries.push((NewKey, Val)), k) == (if k == NewKey@ {
            Some(Val)
        } else {
            LookupIn(Entries, k)
        }),
    decreases Entries.len(),
{
    let pushed = Entries.push((NewKey, Val));
    if Entries.len() == 0 {
        assert(pushed.len() == 1);
        assert(pushed[0] == (NewKey, Val));
        if k == NewKey@ {
            assert(LookupIn(pushed, k) == Some(Val));
        } else {
            assert(pushed.drop_first().len() == 0);
            assert(LookupIn(pushed, k) == LookupIn(pushed.drop_first(), k));
            assert(LookupIn(pushed, k) is None);
        }
    } else {
        assert(pushed[0] == Entries[0]);
        LemmaLookupPushAt(Entries.drop_first(), NewKey, Val, k);
        assert(pushed.drop_first() =~= Entries.drop_first().push((NewKey, Val)));
        if Entries[0].0@ == k {
            assert(LookupIn(pushed, k) == Some(Entries[0].1));
            assert(LookupIn(Entries, k) == Some(Entries[0].1));
        } else {
            assert(LookupIn(pushed, k) == LookupIn(pushed.drop_first(), k));
            assert(LookupIn(Entries, k) == LookupIn(Entries.drop_first(), k));
        }
    }
}

/// Removing the sole entry that holds `Key` erases that key's lookup and
/// leaves the lookup of `k` alone for any other `k`.
pub proof fn LemmaLookupRemoveAt<V>(Entries: Seq<(String, V)>, i: int, Key: Seq<char>, k: Seq<char>)
    requires
        0 <= i < Entries.len(),
        Entries[i].0@ == Key,
        DistinctKeys(Entries),
    ensures
        LookupIn(Entries.remove(i), k) == (if k == Key {
            None::<V>
        } else {
            LookupIn(Entries, k)
        }),
    decreases i,
{
    let shrunk = Entries.remove(i);
    if i == 0 {
        assert(shrunk =~= Entries.drop_first());
        if k == Key {
            assert forall|j: int| 0 <= j < shrunk.len() implies shrunk[j].0@ != Key by {
                assert(Entries[0].0@ != Entries[j + 1].0@);
            }
            LemmaLookupAbsent(shrunk, Key);
        }
    } else {
        assert(Entries[0].0@ != Key);
        assert(shrunk[0] == Entries[0]);
        assert forall|p: int, q: int|
            0 <= p < q < Entries.drop_first().len() implies Entries.drop_first()[p].0@
            != Entries.drop_first()[q].0@ by {
            assert(Entries[p + 1].0@ != Entries[q + 1].0@);
        }
        LemmaLookupRemoveAt(Entries.drop_first(), i - 1, Key, k);
        assert(shrunk.drop_first() =~= Entries.drop_first().remove(i - 1));
    }
}

/// Removing the first entry that holds `Key` leaves the lookup of `k`
/// alone for any other `k`, whether or not later duplicates exist.
pub proof fn LemmaLookupRemoveFirstAt<V>(
    Entries: Seq<(String, V)>,
    i: int,
    Key: Seq<char>,
    k: Seq<char>,
)
    requires
        0 <= i < Entries.len(),
        Entries[i].0@ == Key,
        forall|j: int| 0 <= j < i ==> Entries[j].0@ != Key,
        k != Key,
    ensures
        LookupIn(Entries.remove(i), k) == LookupIn(Entries, k),
    decreases i,
{
    let shrunk = Entries.remove(i);
    if i == 0 {
        assert(shrunk =~= Entries.drop_first());
    } else {
        assert(Entries[0].0@ != Key);
        assert(shrunk[0] == Entries[0]);
        LemmaLookupRemoveFirstAt(Entries.drop_first(), i - 1, Key, k);
        assert(shrunk.drop_first() =~= Entries.drop_first().remove(i - 1));
    }
}

/// A key that no entry holds looks up to nothing.
pub proof fn LemmaLookupAbsent<V>(Entries: Seq<(String, V)>, Key: Seq<char>)
    requires
        forall|j: int| 0 <= j < Entries.len() ==> Entries[j].0@ != Key,
    ensures
        LookupIn(Entries, Key) is None,
    decreases Entries.len(),
{
    if Entries.len() > 0 {
        LemmaLookupAbsent(Entries.drop_first(), Key);
    }
}

} // verus!
