//! Selection of devices by identifier and by capability.
use vstd::prelude::*;
use crate::types::{DeviceId, SupportedStreamConfigRange, SupportedStreamConfigsError};

verus! {

/// Whether an identifier query answered with `id`.
pub open spec fn id_matches(x: Option<DeviceId>, id: DeviceId) -> bool {
    match x {
        Some(d) => d.0@ == id.0@,
        None => false,
    }
}

/// The position of the first answer equal to `id`, or `None` when no
/// answer is; a failed query (`None`) matches nothing.
pub fn first_with_id(ids: &Vec<Option<DeviceId>>, id: &DeviceId) -> (r: Option<usize>)
    ensures
        match r {
            Some(k) => k < ids@.len() && id_matches(ids@[k as int], *id) && forall|j: int|
                0 <= j < k ==> !id_matches(#[trigger] ids@[j], *id),
            None => forall|j: int| 0 <= j < ids@.len() ==> !id_matches(#[trigger] ids@[j], *id),
        },
{
    let mut i: usize = 0;
    while i < ids.len()
        invariant
            i <= ids@.len(),
            forall|j: int| 0 <= j < i ==> !id_matches(#[trigger] ids@[j], *id),
        decreases ids@.len() - i,
    {
        match &ids[i] {
            Some(d) => {
                if d.0 == id.0 {
                    return Some(i);
                }
            },
            None => {},
        }
        i = i + 1;
    }
    None
}

/// Whether a configuration query yielded at least one configuration; a
/// failed query counts as none.
pub fn has_configs(
    r: &Result<Vec<SupportedStreamConfigRange>, SupportedStreamConfigsError>,
) -> (b: bool)
    ensures
        b == (r matches Ok(v) && v@.len() > 0),
{
    match r {
        Ok(v) => v.len() > 0,
        Err(_) => false,
    }
}

/// The items of `ds` whose mark is set, in their order.
pub open spec fn kept<D>(ds: Seq<D>, marks: Seq<bool>) -> Seq<D>
    decreases ds.len(),
{
    if ds.len() == 0 {
        Seq::empty()
    } else {
        let front = kept(ds.drop_last(), marks);
        if marks[ds.len() - 1] {
            front.push(ds.last())
        } else {
            front
        }
    }
}

/// Keeps the items of `ds` whose mark in `marks` is set, in their order.
pub fn keep_marked<D>(ds: Vec<D>, marks: &Vec<bool>) -> (r: Vec<D>)
    requires
        marks@.len() == ds@.len(),
    ensures
        r@ == kept(ds@, marks@),
{
    let ghost all = ds@;
    let mut rest = ds;
    let mut out: Vec<D> = Vec::new();
    let mut i: usize = 0;
    while i < marks.len()
        invariant
            marks@.len() == all.len(),
            i <= all.len(),
            rest@ == all.subrange(i as int, all.len() as int),
            out@ == kept(all.take(i as int), marks@),
        decreases all.len() - i,
    {
        let d = rest.remove(0);
        proof {
            assert(all.take(i as int + 1).drop_last() =~= all.take(i as int));
        }
        if marks[i] {
            out.push(d);
        }
        i = i + 1;
    }
    proof {
        assert(all.take(all.len() as int) =~= all);
    }
    out
}

/// An item is kept exactly when it stands in `ds` at a marked position.
pub proof fn lemma_kept_exactly_marked<D>(ds: Seq<D>, marks: Seq<bool>, d: D)
    requires
        marks.len() >= ds.len(),
    ensures
        kept(ds, marks).contains(d) <==> exists|i: int| 0 <= i < ds.len() && ds[i] == d && marks[i],
    decreases ds.len(),
{
    if ds.len() > 0 {
        let n = ds.len() - 1;
        let front = ds.drop_last();
        let fk = kept(front, marks);
        lemma_kept_exactly_marked(front, marks, d);
        if kept(ds, marks).contains(d) {
            if marks[n] && fk.push(ds.last()).contains(d) {
                let k = choose|k: int| 0 <= k < fk.push(ds.last()).len() && fk.push(ds.last())[k] == d;
                if k < fk.len() {
                    assert(fk.contains(d));
                    let w = choose|i: int| 0 <= i < front.len() && front[i] == d && marks[i];
                    assert(ds[w] == d);
                } else {
                    assert(ds[n] == d);
                }
            } else {
                let w = choose|i: int| 0 <= i < front.len() && front[i] == d && marks[i];
                assert(ds[w] == d);
            }
        }
        if exists|i: int| 0 <= i < ds.len() && ds[i] == d && marks[i] {
            let w = choose|i: int| 0 <= i < ds.len() && ds[i] == d && marks[i];
            if w == n {
                assert(fk.push(ds.last())[fk.len() as int] == d);
            } else {
                assert(front[w] == d);
                assert(fk.contains(d));
                let k = choose|k: int| 0 <= k < fk.len() && fk[k] == d;
                assert(fk.push(ds.last())[k] == d);
            }
        }
    }
}

} // verus!
