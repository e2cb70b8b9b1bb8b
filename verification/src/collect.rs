use vstd::prelude::*;

verus! {

/// The values in order where every item holds one; the first failure
/// otherwise.
pub open spec fn spec_collect<T, E>(items: Seq<Result<T, E>>) -> Result<Seq<T>, E>
    decreases items.len(),
{
    if items.len() == 0 {
        Ok(Seq::empty())
    } else {
        match spec_collect(items.drop_last()) {
            Err(error) => Err(error),
            Ok(before) => match items.last() {
                Err(error) => Err(error),
                Ok(value) => Ok(before.push(value)),
            },
        }
    }
}

pub proof fn lemma_collect_ok<T, E>(items: Seq<Result<T, E>>, values: Seq<T>)
    requires
        values.len() == items.len(),
        forall|i: int| 0 <= i < items.len() ==> items[i] == Ok::<T, E>(values[i]),
    ensures
        spec_collect(items) == Ok::<Seq<T>, E>(values),
    decreases items.len(),
{
    if items.len() == 0 {
        assert(values =~= Seq::<T>::empty());
    } else {
        lemma_collect_ok(items.drop_last(), values.drop_last());
        assert(values.drop_last().push(values.last()) =~= values);
    }
}

pub proof fn lemma_collect_err<T, E>(items: Seq<Result<T, E>>, index: int, error: E)
    requires
        0 <= index < items.len(),
        items[index] == Err::<T, E>(error),
        forall|j: int| 0 <= j < index ==> (#[trigger] items[j]) is Ok,
    ensures
        spec_collect(items) == Err::<Seq<T>, E>(error),
    decreases items.len(),
{
    if index == items.len() - 1 {
        lemma_collect_all_ok(items.drop_last());
    } else {
        lemma_collect_err(items.drop_last(), index, error);
    }
}

pub proof fn lemma_collect_all_ok<T, E>(items: Seq<Result<T, E>>)
    requires
        forall|j: int| 0 <= j < items.len() ==> (#[trigger] items[j]) is Ok,
    ensures
        spec_collect(items) is Ok,
    decreases items.len(),
{
    if items.len() > 0 {
        lemma_collect_all_ok(items.drop_last());
    }
}

/// The items in the opposite order.
pub fn reversed<T>(items: Vec<T>) -> (out: Vec<T>)
    ensures
        out@ == items@.reverse(),
{
    let mut rest = items;
    let ghost all = rest@;
    let mut out: Vec<T> = Vec::new();
    while rest.len() > 0
        invariant
            rest@.len() <= all.len(),
            rest@ == all.take(rest@.len() as int),
            out@.len() == all.len() - rest@.len(),
            forall|j: int| 0 <= j < out@.len() ==> out@[j] == all[all.len() - 1 - j],
        decreases rest@.len(),
    {
        let ghost length = rest@.len();
        let last = rest.pop().unwrap();
        out.push(last);
        proof {
            assert(rest@ =~= all.take(length - 1));
        }
    }
    proof {
        assert(out@ =~= all.reverse());
    }
    out
}

} // verus!
