//! Ordered lists of names.

use vstd::prelude::*;

verus! {

/// `names` without any occurrence of `name`, in the same order.
pub open spec fn without(names: Seq<Seq<char>>, name: Seq<char>) -> Seq<Seq<char>> {
    names.filter(|n: Seq<char>| n != name)
}

/// Whether `name` is listed.
pub(crate) fn lists(names: &Vec<String>, name: &String) -> (found: bool)
    ensures
        found == names.deep_view().contains(name@),
{
    let mut i: usize = 0;
    while i < names.len()
        invariant
            i <= names.len(),
            forall|j: int| 0 <= j < i ==> names[j]@ != name@,
        decreases names.len() - i,
    {
        if names[i] == *name {
            assert(names.deep_view()[i as int] == name@);
            return true;
        }
        i += 1;
    }
    assert(forall|j: int| 0 <= j < names.deep_view().len() ==> names.deep_view()[j] != name@);
    false
}

/// A copy of `names`.
pub(crate) fn copied(names: &Vec<String>) -> (r: Vec<String>)
    ensures
        r.deep_view() == names.deep_view(),
{
    let r = names.clone();
    assert(r.deep_view() =~= names.deep_view());
    r
}

/// Drops every occurrence of `name`.
pub(crate) fn strike(names: &Vec<String>, name: &String) -> (r: Vec<String>)
    ensures
        r.deep_view() == without(names.deep_view(), name@),
{
    let ghost keep = |n: Seq<char>| n != name@;
    let mut r: Vec<String> = Vec::new();
    let mut i: usize = 0;
    assert(names.deep_view().take(0).filter(keep) =~= Seq::empty()) by {
        reveal(Seq::filter);
    }
    while i < names.len()
        invariant
            i <= names.len(),
            keep == (|n: Seq<char>| n != name@),
            r.deep_view() =~= names.deep_view().take(i as int).filter(keep),
        decreases names.len() - i,
    {
        let ghost before = r.deep_view();
        assert(names.deep_view().take(i + 1) =~= names.deep_view().take(i as int).push(
            names[i as int]@,
        ));
        proof {
            names.deep_view().take(i as int).lemma_filter_push(names[i as int]@, keep);
        }
        if names[i] != *name {
            r.push(names[i].clone());
            assert(r.deep_view() =~= before.push(names[i as int]@));
        }
        i += 1;
    }
    assert(names.deep_view().take(i as int) =~= names.deep_view());
    r
}

/// A name that is not listed is not missed.
pub proof fn without_absent(names: Seq<Seq<char>>, name: Seq<char>)
    requires
        !names.contains(name),
    ensures
        without(names, name) == names,
    decreases names.len(),
{
    reveal(Seq::filter);
    if names.len() > 0 {
        assert(forall|n: Seq<char>|
            names.drop_last().contains(n) ==> names.contains(n));
        assert(names.contains(names.last()));
        without_absent(names.drop_last(), name);
        assert(names.drop_last().push(names.last()) =~= names);
    } else {
        assert(without(names, name) =~= names);
    }
}

/// Striking the name just added restores the list.
pub proof fn without_pushed(names: Seq<Seq<char>>, name: Seq<char>)
    requires
        !names.contains(name),
    ensures
        without(names.push(name), name) == names,
{
    reveal(Seq::filter);
    assert(names.push(name).drop_last() =~= names);
    without_absent(names, name);
}

/// What remains is what was listed, but for the struck name; nothing is repeated anew.
pub proof fn without_members(names: Seq<Seq<char>>, name: Seq<char>)
    ensures
        forall|n: Seq<char>|
            #[trigger] without(names, name).contains(n) <==> names.contains(n) && n != name,
        names.no_duplicates() ==> without(names, name).no_duplicates(),
    decreases names.len(),
{
    reveal(Seq::filter);
    if names.len() > 0 {
        let init = names.drop_last();
        let last = names.last();
        without_members(init, name);
        assert(names =~= init.push(last));
        init.lemma_filter_push(last, |n: Seq<char>| n != name);
        assert forall|n: Seq<char>|
            #[trigger] without(names, name).contains(n) <==> names.contains(n) && n != name by {
            vstd::seq_lib::lemma_seq_contains_after_push(init, last, n);
            vstd::seq_lib::lemma_seq_contains_after_push(without(init, name), last, n);
        }
        if names.no_duplicates() {
            assert(init.no_duplicates());
            assert(!init.contains(last)) by {
                if init.contains(last) {
                    let i = init.index_of(last);
                    assert(names[i] == names[names.len() - 1]);
                }
            }
            assert(!without(init, name).contains(last));
        }
    } else {
        assert(without(names, name) =~= names);
    }
}

/// A new name keeps a list free of repetition.
pub proof fn push_new_name(names: Seq<Seq<char>>, name: Seq<char>)
    ensures
        forall|n: Seq<char>|
            #[trigger] names.push(name).contains(n) <==> names.contains(n) || n == name,
        names.no_duplicates() && !names.contains(name) ==> names.push(name).no_duplicates(),
{
    assert forall|n: Seq<char>|
        #[trigger] names.push(name).contains(n) <==> names.contains(n) || n == name by {
        vstd::seq_lib::lemma_seq_contains_after_push(names, name, n);
    }
}

/// What is struck from two lists, one after the other, is struck from each; a list of one name
/// stays, unless that is the name to strike.
pub proof fn without_by_parts(a: Seq<Seq<char>>, b: Seq<Seq<char>>, name: Seq<char>, n: Seq<char>)
    ensures
        without(a + b, name) == without(a, name) + without(b, name),
        without(Seq::empty(), name).len() == 0,
        n != name ==> without(seq![n], name) == seq![n],
        without(seq![name], name).len() == 0,
{
    Seq::filter_distributes_over_add(a, b, |x: Seq<char>| x != name);
    reveal(Seq::filter);
    let none = Seq::<Seq<char>>::empty();
    assert(without(none, name) =~= none);
    assert(seq![n].drop_last() =~= none && seq![name].drop_last() =~= none);
    assert(without(seq![n], name) =~= if n != name {
        seq![n]
    } else {
        none
    });
    assert(without(seq![name], name) =~= none);
}

/// Striking a name that is listed once closes the gap: what stood before it and what stood after
/// it follow each other, in the same order.
pub proof fn striking_closes_the_gap(a: Seq<Seq<char>>, b: Seq<Seq<char>>, name: Seq<char>)
    requires
        !a.contains(name),
        !b.contains(name),
    ensures
        without(a + seq![name] + b, name) == a + b,
{
    without_by_parts(a + seq![name], b, name, name);
    without_by_parts(a, seq![name], name, name);
    without_absent(a, name);
    without_absent(b, name);
    assert(without(a + seq![name] + b, name) =~= a + b);
}

} // verus!
