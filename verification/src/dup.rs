//! Copying of records whose equality is stated through their views.

use vstd::prelude::*;

verus! {

/// Records that can be copied so that the copy has the same view.
pub trait Duplicate: View + Sized {
    fn duplicate(&self) -> (r: Self)
        ensures
            r@ == self@;
}

/// The views of a sequence of records.
pub open spec fn view_seq<T: View>(s: Seq<T>) -> Seq<T::V> {
    s.map_values(|x: T| x@)
}

/// Copies every record of a vector, keeping order and views.
pub fn dup_vec<T: Duplicate>(v: &Vec<T>) -> (r: Vec<T>)
    ensures
        view_seq(r@) == view_seq(v@),
{
    let mut out: Vec<T> = Vec::new();
    let n = v.len();
    let mut i: usize = 0;
    while i < n
        invariant
            n == v@.len(),
            i <= n,
            view_seq(out@) =~= view_seq(v@).take(i as int),
        decreases n - i,
    {
        let d = v[i].duplicate();
        let ghost before = out@;
        out.push(d);
        assert(out@ == before.push(d));
        assert(view_seq(out@) =~= view_seq(before).push(d@));
        assert(view_seq(v@)[i as int] == v@[i as int]@);
        assert(view_seq(out@) =~= view_seq(v@).take(i + 1));
        i = i + 1;
    }
    assert(view_seq(v@).take(n as int) =~= view_seq(v@));
    out
}

/// Appends copies of every record of `items` to `target`.
pub fn extend_dup<T: Duplicate>(target: &mut Vec<T>, items: &Vec<T>)
    ensures
        view_seq(final(target)@) == view_seq(old(target)@) + view_seq(items@),
{
    let n = items.len();
    let mut i: usize = 0;
    let ghost start = view_seq(target@);
    while i < n
        invariant
            n == items@.len(),
            i <= n,
            view_seq(target@) =~= start + view_seq(items@).take(i as int),
        decreases n - i,
    {
        let d = items[i].duplicate();
        let ghost before = target@;
        target.push(d);
        assert(target@ == before.push(d));
        assert(view_seq(target@) =~= view_seq(before).push(d@));
        assert(view_seq(items@)[i as int] == items@[i as int]@);
        assert(view_seq(target@) =~= start + view_seq(items@).take(i + 1));
        i = i + 1;
    }
    assert(view_seq(items@).take(n as int) =~= view_seq(items@));
}

impl Duplicate for String {
    fn duplicate(&self) -> (r: Self) {
        self.clone()
    }
}

} // verus!
