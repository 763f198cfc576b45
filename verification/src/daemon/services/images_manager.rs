//! The names of the installed images.
use vstd::prelude::*;

use crate::text::views;

verus! {

/// The names among `entries` (one per directory entry; `None` for an entry
/// that could not be read), without the unreadable and empty ones, in order.
pub open spec fn image_names(entries: Seq<Option<Seq<char>>>) -> Seq<Seq<char>>
    decreases entries.len(),
{
    if entries.len() == 0 {
        seq![]
    } else {
        let rest = image_names(entries.drop_last());
        match entries.last() {
            Some(name) => if name.len() > 0 {
                rest.push(name)
            } else {
                rest
            },
            None => rest,
        }
    }
}

/// The views of optional names.
pub open spec fn entry_views(entries: Seq<Option<String>>) -> Seq<Option<Seq<char>>> {
    entries.map_values(
        |e: Option<String>|
            match e {
                Some(s) => Some(s@),
                None => None,
            },
    )
}

/// The image names among the entries of the images directory: readable,
/// non-empty names, in order.
pub fn collect_image_names(entries: Vec<Option<String>>) -> (names: Vec<String>)
    ensures
        views(names@) == image_names(entry_views(entries@)),
{
    let mut names: Vec<String> = Vec::new();
    let ghost all = entry_views(entries@);
    for i in 0..entries.len()
        invariant
            all == entry_views(entries@),
            views(names@) == image_names(all.take(i as int)),
    {
        assert(all.take(i + 1).drop_last() =~= all.take(i as int));
        assert(all.take(i + 1).last() == all[i as int]);
        match &entries[i] {
            Some(name) => {
                if name.unicode_len() > 0 {
                    let ghost prev = names@;
                    names.push(name.clone());
                    assert(views(names@) =~= views(prev).push(name@));
                }
            },
            None => {},
        }
    }
    assert(all.take(entries.len() as int) =~= all);
    names
}

/// The names of a list of entries: each readable, non-empty name, in order.
proof fn lemma_image_names_append(a: Seq<Option<Seq<char>>>, b: Seq<Option<Seq<char>>>)
    ensures
        image_names(a + b) == image_names(a) + image_names(b),
    decreases b.len(),
{
    if b.len() == 0 {
        assert(a + b == a);
        assert(image_names(a) + image_names(b) == image_names(a));
    } else {
        lemma_image_names_append(a, b.drop_last());
        assert((a + b).drop_last() == a + b.drop_last());
        assert((a + b).last() == b.last());
        let p = image_names(b.drop_last());
        if let Some(name) = b.last() {
            if name.len() > 0 {
                assert((image_names(a) + p).push(name) == image_names(a) + p.push(name));
            }
        }
    }
}

/// Law: the images listed for a directory made of two groups of entries
/// are those of the first group followed by those of the second.
pub proof fn law_image_names_concatenation(a: Seq<Option<Seq<char>>>, b: Seq<Option<Seq<char>>>)
    ensures
        image_names(a + b) == image_names(a) + image_names(b),
{
    lemma_image_names_append(a, b);
}

/// Law: one entry lists its name exactly when it is readable and not
/// empty, whatever characters the name holds.
pub proof fn law_image_names_single(entry: Option<Seq<char>>)
    ensures
        image_names(seq![entry]) == match entry {
            Some(name) => if name.len() > 0 {
                seq![name]
            } else {
                Seq::<Seq<char>>::empty()
            },
            None => Seq::<Seq<char>>::empty(),
        },
{
    let e = Seq::<Option<Seq<char>>>::empty();
    assert(seq![entry].drop_last() =~= e);
    assert(seq![entry].last() == entry);
    assert(image_names(e) == Seq::<Seq<char>>::empty());
    if let Some(name) = entry {
        if name.len() > 0 {
            assert(Seq::<Seq<char>>::empty().push(name) =~= seq![name]);
            assert(image_names(seq![entry]) == image_names(e).push(name));
        } else {
            assert(image_names(seq![entry]) == image_names(e));
        }
    } else {
        assert(image_names(seq![entry]) == image_names(e));
    }
}

/// Law: when every entry is readable and named, every name is listed, in
/// order.
pub proof fn law_image_names_all_listed(names: Seq<Seq<char>>)
    requires
        forall|i: int| 0 <= i < names.len() ==> (#[trigger] names[i]).len() > 0,
    ensures
        image_names(names.map_values(|n: Seq<char>| Some(n))) == names,
    decreases names.len(),
{
    let entries = names.map_values(|n: Seq<char>| Some(n));
    if names.len() > 0 {
        let dl = names.drop_last();
        assert forall|i: int| 0 <= i < dl.len() implies (#[trigger] dl[i]).len() > 0 by {
            assert(dl[i] == names[i]);
        }
        law_image_names_all_listed(dl);
        assert(entries.drop_last() =~= dl.map_values(|n: Seq<char>| Some(n)));
        assert(entries.last() == Some(names.last()));
        assert(names[names.len() - 1].len() > 0);
        assert(dl.push(names.last()) =~= names);
    } else {
        assert(entries =~= Seq::<Option<Seq<char>>>::empty());
        assert(names =~= Seq::<Seq<char>>::empty());
    }
}

} // verus!
