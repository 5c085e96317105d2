use vstd::prelude::*;

verus! {

/// The abstract value of each item of a sequence.
pub open spec fn views<T: View>(s: Seq<T>) -> Seq<T::V> {
    s.map_values(|x: T| x@)
}

/// `list` extended by each entry of `new`, in order, that is not yet in it.
pub open spec fn union_list(list: Seq<Seq<char>>, new: Seq<Seq<char>>) -> Seq<Seq<char>>
    decreases new.len(),
{
    if new.len() == 0 {
        list
    } else {
        let r = union_list(list, new.drop_last());
        if r.contains(new.last()) {
            r
        } else {
            r.push(new.last())
        }
    }
}

/// Holds of the strings that `gone` does not hold.
pub open spec fn kept_by(gone: Seq<Seq<char>>) -> spec_fn(Seq<char>) -> bool {
    |x: Seq<char>| !gone.contains(x)
}

/// The entries of `list`, in order, that `gone` does not hold.
pub open spec fn minus_list(list: Seq<Seq<char>>, gone: Seq<Seq<char>>) -> Seq<Seq<char>> {
    list.filter(kept_by(gone))
}

/// A union of lists keeps `list` as its prefix and holds exactly what either
/// side holds.
pub proof fn lemma_union_contents(list: Seq<Seq<char>>, new: Seq<Seq<char>>)
    ensures
        list.is_prefix_of(union_list(list, new)),
        forall|x: Seq<char>|
            #[trigger] union_list(list, new).contains(x) <==> (list.contains(x) || new.contains(
                x,
            )),
    decreases new.len(),
{
    if new.len() > 0 {
        let rest = new.drop_last();
        lemma_union_contents(list, rest);
        let r = union_list(list, rest);
        assert forall|x: Seq<char>| new.contains(x) <==> (rest.contains(x) || x == new.last()) by {
            if new.contains(x) {
                let k = choose|k: int| 0 <= k < new.len() && new[k] == x;
                if k < new.len() - 1 {
                    assert(rest[k] == x);
                }
            }
            if rest.contains(x) {
                let k = choose|k: int| 0 <= k < rest.len() && rest[k] == x;
                assert(new[k] == x);
            }
            if x == new.last() {
                assert(new[new.len() - 1] == x);
            }
        }
        if !r.contains(new.last()) {
            assert forall|x: Seq<char>| r.push(new.last()).contains(x) <==> (r.contains(x) || x
                == new.last()) by {
                if r.push(new.last()).contains(x) {
                    let k = choose|k: int|
                        0 <= k < r.push(new.last()).len() && r.push(new.last())[k] == x;
                    if k < r.len() {
                        assert(r[k] == x);
                    }
                }
                if r.contains(x) {
                    let k = choose|k: int| 0 <= k < r.len() && r[k] == x;
                    assert(r.push(new.last())[k] == x);
                }
                if x == new.last() {
                    assert(r.push(new.last())[r.len() as int] == x);
                }
            }
            assert(r.push(new.last()).subrange(0, list.len() as int) =~= r.subrange(
                0,
                list.len() as int,
            ));
        }
        assert forall|x: Seq<char>|
            #[trigger] union_list(list, new).contains(x) <==> (list.contains(x) || new.contains(
                x,
            )) by {
            assert(r.contains(x) <==> (list.contains(x) || rest.contains(x)));
        }
    }
}

/// A union with a list that holds no entry twice holds no entry twice.
pub proof fn lemma_union_no_duplicates(list: Seq<Seq<char>>, new: Seq<Seq<char>>)
    requires
        list.no_duplicates(),
    ensures
        union_list(list, new).no_duplicates(),
    decreases new.len(),
{
    if new.len() > 0 {
        lemma_union_no_duplicates(list, new.drop_last());
        let r = union_list(list, new.drop_last());
        if !r.contains(new.last()) {
            assert forall|a: int, b: int|
                0 <= a < b < r.len() + 1 implies r.push(new.last())[a] != r.push(new.last())[b] by {
                if b == r.len() {
                    assert(r[a] == r.push(new.last())[a]);
                }
            }
        }
    }
}

/// A union with entries that `list` already holds is `list` itself.
pub proof fn lemma_union_of_held(list: Seq<Seq<char>>, new: Seq<Seq<char>>)
    requires
        forall|x: Seq<char>| new.contains(x) ==> list.contains(x),
    ensures
        union_list(list, new) == list,
    decreases new.len(),
{
    if new.len() > 0 {
        let rest = new.drop_last();
        assert forall|x: Seq<char>| rest.contains(x) implies list.contains(x) by {
            let k = choose|k: int| 0 <= k < rest.len() && rest[k] == x;
            assert(new[k] == x);
        }
        lemma_union_of_held(list, rest);
        assert(new[new.len() - 1] == new.last());
    }
}

/// Taking away entries that `list` does not hold leaves `list` as it is.
pub proof fn lemma_minus_of_absent(list: Seq<Seq<char>>, gone: Seq<Seq<char>>)
    requires
        forall|x: Seq<char>| gone.contains(x) ==> !list.contains(x),
    ensures
        minus_list(list, gone) == list,
    decreases list.len(),
{
    if list.len() > 0 {
        let rest = list.drop_last();
        assert forall|x: Seq<char>| gone.contains(x) implies !rest.contains(x) by {
            if rest.contains(x) {
                let k = choose|k: int| 0 <= k < rest.len() && rest[k] == x;
                assert(list[k] == x);
            }
        }
        lemma_minus_of_absent(rest, gone);
        assert(list[list.len() - 1] == list.last());
        rest.lemma_filter_push(list.last(), kept_by(gone));
        assert(rest.push(list.last()) =~= list);
    }
}

/// Taking entries away from a list that holds none twice leaves a list that
/// holds none twice.
pub proof fn lemma_minus_no_duplicates(list: Seq<Seq<char>>, gone: Seq<Seq<char>>)
    requires
        list.no_duplicates(),
    ensures
        minus_list(list, gone).no_duplicates(),
    decreases list.len(),
{
    if list.len() > 0 {
        let rest = list.drop_last();
        let x = list.last();
        assert(rest.no_duplicates());
        lemma_minus_no_duplicates(rest, gone);
        rest.lemma_filter_push(x, kept_by(gone));
        assert(rest.push(x) =~= list);
        let f = minus_list(rest, gone);
        if f.contains(x) {
            rest.lemma_filter_contains_rev(kept_by(gone), x);
            let k = choose|k: int| 0 <= k < rest.len() && rest[k] == x;
            assert(list[k] == list[list.len() - 1]);
        }
        if kept_by(gone)(x) {
            assert forall|a: int, b: int|
                0 <= a < b < f.len() + 1 implies f.push(x)[a] != f.push(x)[b] by {
                if b == f.len() {
                    assert(f[a] == f.push(x)[a]);
                }
            }
        }
    }
}

/// Taking away one entry of a list that holds none twice drops exactly its
/// position.
pub proof fn lemma_minus_one(list: Seq<Seq<char>>, i: int)
    requires
        list.no_duplicates(),
        0 <= i < list.len(),
    ensures
        minus_list(list, seq![list[i]]) == list.remove(i),
    decreases list.len(),
{
    let d = list[i];
    let gone = seq![d];
    let rest = list.drop_last();
    let x = list.last();
    rest.lemma_filter_push(x, kept_by(gone));
    assert(rest.push(x) =~= list);
    if i == list.len() - 1 {
        assert forall|y: Seq<char>| gone.contains(y) implies !rest.contains(y) by {
            assert(gone[0] == y);
            if rest.contains(y) {
                let k = choose|k: int| 0 <= k < rest.len() && rest[k] == y;
                assert(list[k] == list[i]);
            }
        }
        lemma_minus_of_absent(rest, gone);
        assert(!kept_by(gone)(x)) by {
            assert(gone[0] == x);
        }
        assert(list.remove(i) =~= rest);
    } else {
        assert(rest[i] == d);
        assert(rest.no_duplicates());
        lemma_minus_one(rest, i);
        assert(kept_by(gone)(x)) by {
            if gone.contains(x) {
                assert(gone[0] == x);
                assert(list[i] == list[list.len() - 1]);
            }
        }
        assert(rest.remove(i).push(x) =~= list.remove(i));
    }
}

/// Whether `list` holds a string equal to `x`.
pub fn contains_str(list: &Vec<String>, x: &String) -> (r: bool)
    ensures
        r == views(list@).contains(x@),
{
    let mut i: usize = 0;
    while i < list.len()
        invariant
            i <= list.len(),
            forall|j: int| 0 <= j < i ==> list@[j]@ != x@,
        decreases list.len() - i,
    {
        if list[i] == *x {
            assert(views(list@)[i as int] == x@);
            return true;
        }
        i = i + 1;
    }
    proof {
        if views(list@).contains(x@) {
            let k = choose|k: int| 0 <= k < views(list@).len() && views(list@)[k] == x@;
            assert(list@[k]@ == x@);
        }
    }
    false
}

/// Set union of a list with new entries: each entry of `new` that `list` does
/// not hold yet is appended, in the order of `new`, once.
pub fn add_entries(list: Vec<String>, new: &Vec<String>) -> (r: Vec<String>)
    ensures
        views(r@) == union_list(views(list@), views(new@)),
{
    let mut out = list;
    let ghost start = views(out@);
    let mut i: usize = 0;
    while i < new.len()
        invariant
            i <= new.len(),
            views(out@) == union_list(start, views(new@).subrange(0, i as int)),
        decreases new.len() - i,
    {
        let ghost before = views(out@);
        let ghost taken = views(new@).subrange(0, i as int + 1);
        assert(taken.drop_last() =~= views(new@).subrange(0, i as int));
        assert(taken.last() == new@[i as int]@);
        if !contains_str(&out, &new[i]) {
            out.push(new[i].clone());
            assert(views(out@) =~= before.push(new@[i as int]@));
        }
        i = i + 1;
    }
    assert(views(new@).subrange(0, new.len() as int) =~= views(new@));
    out
}

/// Set difference: the entries of `list`, in order, that `gone` does not hold.
pub fn remove_entries(list: Vec<String>, gone: &Vec<String>) -> (r: Vec<String>)
    ensures
        views(r@) == minus_list(views(list@), views(gone@)),
{
    let ghost g = views(gone@);
    let ghost all = views(list@);
    let mut out: Vec<String> = Vec::new();
    let mut i: usize = 0;
    proof {
        reveal(Seq::filter);
        assert(all.subrange(0, 0).filter(kept_by(g)) =~= Seq::<Seq<char>>::empty());
    }
    while i < list.len()
        invariant
            i <= list.len(),
            g == views(gone@),
            all == views(list@),
            views(out@) == minus_list(all.subrange(0, i as int), g),
        decreases list.len() - i,
    {
        let ghost before = views(out@);
        proof {
            assert(all.subrange(0, i as int + 1) =~= all.subrange(0, i as int).push(list@[i as int]@));
            all.subrange(0, i as int).lemma_filter_push(list@[i as int]@, kept_by(g));
        }
        if !contains_str(gone, &list[i]) {
            out.push(list[i].clone());
            assert(views(out@) =~= before.push(list@[i as int]@));
        }
        i = i + 1;
    }
    assert(all.subrange(0, list.len() as int) =~= all);
    out
}

} // verus!
