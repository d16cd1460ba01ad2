//! What a directory listing shows.
use vstd::prelude::*;
use crate::portal_core::strings_model;

verus! {

/// The paths of the entries that could be read, in listing order.
pub open spec fn readable_entries(entries: Seq<Result<String, String>>) -> Seq<Seq<char>>
    decreases entries.len(),
{
    if entries.len() == 0 {
        Seq::empty()
    } else {
        let rest = readable_entries(entries.drop_last());
        match entries.last() {
            Ok(p) => rest.push(p@),
            Err(_) => rest,
        }
    }
}

/// The entries of a directory from the result of listing it (`listing`:
/// each entry's path, or the text of the error reading it; or the error
/// opening the directory). Unreadable entries are left out; a directory that
/// cannot be listed shows nothing.
pub fn entries_from_listing(listing: Result<Vec<Result<String, String>>, String>) -> (entries: Vec<String>)
    ensures
        strings_model(entries@) == match listing {
            Ok(all) => readable_entries(all@),
            Err(_) => Seq::empty(),
        },
{
    let mut entries: Vec<String> = Vec::new();
    assert(strings_model(entries@) =~= Seq::<Seq<char>>::empty());
    match listing {
        Err(_) => entries,
        Ok(all) => {
            let mut i: usize = 0;
            assert(all@.take(0) =~= Seq::<Result<String, String>>::empty());
            while i < all.len()
                invariant
                    i <= all.len(),
                    strings_model(entries@) == readable_entries(all@.take(i as int)),
                decreases all.len() - i,
            {
                assert(all@.take(i + 1).drop_last() =~= all@.take(i as int));
                match &all[i] {
                    Ok(p) => {
                        let ghost before = entries@;
                        entries.push(p.clone());
                        assert(strings_model(entries@) =~= strings_model(before).push(p@));
                    },
                    Err(_) => {},
                }
                i = i + 1;
            }
            assert(all@.take(all.len() as int) =~= all@);
            entries
        },
    }
}

/// The path of a readable entry; nothing for an unreadable one.
pub open spec fn readable_path(entry: Result<String, String>) -> Option<Seq<char>> {
    match entry {
        Ok(p) => Some(p@),
        Err(_) => None,
    }
}

/// The listing shows exactly the readable entries' paths, in listing order,
/// whatever their names.
pub proof fn lemma_listing_keeps_every_readable_entry(all: Seq<Result<String, String>>)
    ensures
        readable_entries(all) == all.filter_map(|e: Result<String, String>| readable_path(e)),
    decreases all.len(),
{
    if all.len() > 0 {
        lemma_listing_keeps_every_readable_entry(all.drop_last());
        match all.last() {
            Ok(p) => {
                let rest = all.drop_last().filter_map(|e: Result<String, String>| readable_path(e));
                assert(rest.push(p@) =~= rest + seq![p@]);
            },
            Err(_) => {},
        }
    }
}

/// Every readable entry is listed, and everything listed is a readable
/// entry.
pub proof fn lemma_listing_contents(all: Seq<Result<String, String>>, i: int)
    requires
        0 <= i < all.len(),
    ensures
        all[i] matches Ok(p) ==> readable_entries(all).contains(p@),
        readable_entries(all).len() <= all.len(),
    decreases all.len(),
{
    let init = all.drop_last();
    if all.len() > 0 {
        if i < all.len() - 1 {
            assert(init[i] == all[i]);
            lemma_listing_contents(init, i);
            if let Ok(p) = all[i] {
                let k = choose|k: int| 0 <= k < readable_entries(init).len() && readable_entries(init)[k] == p@;
                match all.last() {
                    Ok(q) => assert(readable_entries(all)[k] == p@),
                    Err(_) => {},
                }
            }
        } else {
            if let Ok(p) = all[i] {
                assert(readable_entries(all).last() == p@);
            }
            if all.len() > 1 {
                lemma_listing_contents(init, 0);
            }
        }
    }
}

} // verus!
