//! Lists of names: user names, scenario names and session ids.

use vstd::prelude::*;

verus! {

/// The names of a list, each as its characters.
pub open spec fn names(list: Seq<String>) -> Seq<Seq<char>> {
    Seq::new(list.len(), |i: int| list[i]@)
}

/// The characters of a name that may be missing.
pub open spec fn name_of(name: Option<String>) -> Option<Seq<char>> {
    match name {
        Some(text) => Some(text@),
        None => None,
    }
}

/// The first place at which `wanted` stands in `list`, if it stands there.
pub open spec fn first_index_of(list: Seq<Seq<char>>, wanted: Seq<char>) -> Option<int>
    decreases list.len(),
{
    if list.len() == 0 {
        None
    } else {
        match first_index_of(list.drop_last(), wanted) {
            Some(i) => Some(i),
            None => if list.last() == wanted {
                Some(list.len() - 1)
            } else {
                None
            },
        }
    }
}

/// `list` without every occurrence of `name`, the rest in its order.
pub open spec fn without(list: Seq<Seq<char>>, name: Seq<char>) -> Seq<Seq<char>>
    decreases list.len(),
{
    if list.len() == 0 {
        list
    } else if list.last() == name {
        without(list.drop_last(), name)
    } else {
        without(list.drop_last(), name).push(list.last())
    }
}

/// Where the first occurrence of a name is: it is that name, and no earlier
/// item is.
pub proof fn lemma_first_index_of(list: Seq<Seq<char>>, wanted: Seq<char>)
    ensures
        match first_index_of(list, wanted) {
            Some(i) => 0 <= i < list.len() && list[i] == wanted && forall|j: int|
                0 <= j < i ==> list[j] != wanted,
            None => forall|j: int| 0 <= j < list.len() ==> list[j] != wanted,
        },
    decreases list.len(),
{
    if list.len() > 0 {
        let front = list.drop_last();
        lemma_first_index_of(front, wanted);
        match first_index_of(front, wanted) {
            Some(i) => {
                assert(list[i] == front[i]);
                assert forall|j: int| 0 <= j < i implies list[j] != wanted by {
                    assert(list[j] == front[j]);
                }
            },
            None => {
                assert forall|j: int| 0 <= j < list.len() - 1 implies list[j] != wanted by {
                    assert(list[j] == front[j]);
                }
            },
        }
    }
}

/// What is left of a list is no longer than the list.
pub proof fn lemma_without_is_shorter(list: Seq<Seq<char>>, name: Seq<char>)
    ensures
        without(list, name).len() <= list.len(),
    decreases list.len(),
{
    if list.len() > 0 {
        lemma_without_is_shorter(list.drop_last(), name);
    }
}

/// The first place at which `wanted` stands in `list`.
pub fn index_of(list: &Vec<String>, wanted: &String) -> (found: Option<usize>)
    ensures
        found matches Some(i) ==> first_index_of(names(list@), wanted@) == Some(i as int),
        found is None ==> first_index_of(names(list@), wanted@) is None,
{
    let mut i: usize = 0;
    assert(names(list@).subrange(0, 0) =~= Seq::empty());
    while i < list.len()
        invariant
            i <= list@.len(),
            first_index_of(names(list@).subrange(0, i as int), wanted@) is None,
        decreases list@.len() - i,
    {
        proof {
            let next = names(list@).subrange(0, i + 1);
            assert(next.drop_last() =~= names(list@).subrange(0, i as int));
            assert(next.last() == list@[i as int]@);
        }
        if list[i] == *wanted {
            proof {
                lemma_index_stays(names(list@), wanted@, i + 1);
            }
            return Some(i);
        }
        i += 1;
    }
    assert(names(list@).subrange(0, i as int) =~= names(list@));
    None
}

proof fn lemma_index_stays(list: Seq<Seq<char>>, wanted: Seq<char>, upto: int)
    requires
        0 <= upto <= list.len(),
        first_index_of(list.subrange(0, upto), wanted) is Some,
    ensures
        first_index_of(list, wanted) == first_index_of(list.subrange(0, upto), wanted),
    decreases list.len() - upto,
{
    if upto < list.len() {
        let next = list.subrange(0, upto + 1);
        assert(next.drop_last() =~= list.subrange(0, upto));
        lemma_index_stays(list, wanted, upto + 1);
    } else {
        assert(list.subrange(0, upto) =~= list);
    }
}

/// A list with the same names.
pub fn copy_names(list: &Vec<String>) -> (copy: Vec<String>)
    ensures
        names(copy@) == names(list@),
{
    let mut copy: Vec<String> = Vec::new();
    let mut i: usize = 0;
    while i < list.len()
        invariant
            i <= list@.len(),
            copy@.len() == i,
            forall|j: int| 0 <= j < i ==> (#[trigger] copy@[j])@ == list@[j]@,
        decreases list@.len() - i,
    {
        copy.push(list[i].clone());
        i += 1;
    }
    assert(names(copy@) =~= names(list@));
    copy
}

/// The list without every occurrence of `name`.
pub fn remove_name(list: &Vec<String>, name: &String) -> (rest: Vec<String>)
    ensures
        names(rest@) == without(names(list@), name@),
{
    let mut rest: Vec<String> = Vec::new();
    let mut i: usize = 0;
    assert(names(list@).subrange(0, 0) =~= Seq::empty());
    assert(names(rest@) =~= Seq::empty());
    while i < list.len()
        invariant
            i <= list@.len(),
            names(rest@) == without(names(list@).subrange(0, i as int), name@),
        decreases list@.len() - i,
    {
        proof {
            let next = names(list@).subrange(0, i + 1);
            assert(next.drop_last() =~= names(list@).subrange(0, i as int));
            assert(next.last() == list@[i as int]@);
        }
        let ghost before = names(rest@);
        if !(list[i] == *name) {
            rest.push(list[i].clone());
            assert(names(rest@) =~= before.push(list@[i as int]@));
        }
        i += 1;
    }
    assert(names(list@).subrange(0, i as int) =~= names(list@));
    rest
}

/// A vector with the same items.
pub fn copy_items<T: Copy>(items: &Vec<T>) -> (copy: Vec<T>)
    ensures
        copy@ == items@,
{
    let mut copy: Vec<T> = Vec::new();
    let mut i: usize = 0;
    while i < items.len()
        invariant
            i <= items@.len(),
            copy@ == items@.subrange(0, i as int),
        decreases items@.len() - i,
    {
        copy.push(items[i]);
        i += 1;
        assert(copy@ =~= items@.subrange(0, i as int));
    }
    assert(items@.subrange(0, i as int) =~= items@);
    copy
}

} // verus!
