use vstd::prelude::*;

verus! {

/// See [`retain`](Retain::retain) for more information.
pub trait Retain: Sized {
    /// The elements that the predicate is asked about
    type Item;

    /// Output
    type Output;

    /// The elements that the predicate is asked about, in the order in which
    /// it is asked.
    open spec fn retain_items(&self) -> Seq<Self::Item> {
        Seq::empty()
    }

    /// What [`retain`](Retain::retain) may leave of `before` and hand back,
    /// where `keep` holds the predicate's verdict on each element. An
    /// implementation that says nothing promises nothing.
    open spec fn retain_ensures(
        before: Self,
        keep: Seq<bool>,
        after: Self,
        output: Self::Output,
    ) -> bool {
        true
    }

    /// Retains only the elements specified by the `F` predicate.
    fn retain<F: FnMut(&Self::Item) -> bool>(&mut self, input: F) -> (output: Self::Output)
        requires
            forall|idx: int|
                0 <= idx < old(self).retain_items().len() ==> call_requires(
                    input,
                    (&old(self).retain_items()[idx],),
                ),
        ensures
            exists|keep: Seq<bool>| #[trigger]
                verdicts(input, old(self).retain_items(), keep) && Self::retain_ensures(
                    *old(self),
                    keep,
                    *final(self),
                    output,
                ),
    ;
}

/// The elements of `items` whose verdict in `keep` is `true`, in their order.
pub open spec fn kept<T>(items: Seq<T>, keep: Seq<bool>) -> Seq<T>
    recommends
        items.len() == keep.len(),
    decreases items.len(),
{
    if items.len() == 0 || keep.len() == 0 {
        Seq::empty()
    } else if keep.last() {
        kept(items.drop_last(), keep.drop_last()).push(items.last())
    } else {
        kept(items.drop_last(), keep.drop_last())
    }
}

/// `keep` holds, for every element of `items`, a verdict that `input` may give on it.
pub open spec fn verdicts<F, T>(input: F, items: Seq<T>, keep: Seq<bool>) -> bool where
    F: FnMut(&T) -> bool,
 {
    &&& keep.len() == items.len()
    &&& forall|idx: int|
        0 <= idx < items.len() ==> call_ensures(input, (&items[idx],), #[trigger] keep[idx])
}

/// A predicate whose verdict on every element is fixed by `p` keeps exactly
/// the elements that satisfy `p`: what is kept is `items.filter(p)`.
pub proof fn lemma_kept_by_function<F, T>(
    input: F,
    p: spec_fn(T) -> bool,
    items: Seq<T>,
    keep: Seq<bool>,
) where F: FnMut(&T) -> bool

    requires
        forall|elem: T, verdict: bool|
            call_ensures(input, (&elem,), verdict) ==> verdict == p(elem),
        verdicts(input, items, keep),
    ensures
        kept(items, keep) == items.filter(p),
    decreases items.len(),
{
    reveal(Seq::filter);
    if items.len() > 0 {
        assert(call_ensures(input, (&items.last(),), keep.last()));
        assert forall|idx: int| 0 <= idx < items.drop_last().len() implies call_ensures(
            input,
            (&items.drop_last()[idx],),
            #[trigger] keep.drop_last()[idx],
        ) by {
            assert(call_ensures(input, (&items[idx],), keep[idx]));
        }
        lemma_kept_by_function(input, p, items.drop_last(), keep.drop_last());
    }
}

impl<T> Retain for Option<T> {
    type Item = T;

    type Output = ();

    /// The element, if there is one.
    open spec fn retain_items(&self) -> Seq<T> {
        match self {
            Some(elem) => seq![*elem],
            None => Seq::empty(),
        }
    }

    /// An element on which the predicate says `true` stays; any other leaves.
    open spec fn retain_ensures(before: Self, keep: Seq<bool>, after: Self, output: ()) -> bool {
        if before is Some && keep[0] {
            after == before
        } else {
            after is None
        }
    }

    fn retain<F: FnMut(&T) -> bool>(&mut self, input: F) {
        broadcast use vstd::function::group_function_axioms;

        let mut predicate = input;
        let ghost before = *self;
        let keep = match self {
            Some(elem) => {
                assert(before.retain_items()[0] == *elem);
                predicate(elem)
            },
            None => true,
        };
        if !keep {
            *self = None;
        }
        proof {
            let shown = if before is Some {
                seq![keep]
            } else {
                Seq::<bool>::empty()
            };
            assert(verdicts(input, before.retain_items(), shown));
            assert(Self::retain_ensures(before, shown, *self, ()));
        }
    }
}

/// `std`'s `Vec::retain`: it asks the predicate about each element once, in
/// index order, and keeps exactly those on which it said `true`, in their order.
#[verifier::external_body]
fn vec_retain<T, F>(vec: &mut Vec<T>, input: F) where F: FnMut(&T) -> bool
    requires
        forall|idx: int| 0 <= idx < old(vec)@.len() ==> call_requires(input, (&old(vec)@[idx],)),
    ensures
        exists|keep: Seq<bool>| #[trigger]
            verdicts(input, old(vec)@, keep) && final(vec)@ == kept(old(vec)@, keep),
{
    vec.retain(input)
}

impl<T> Retain for Vec<T> {
    type Item = T;

    type Output = ();

    /// The elements, in index order.
    open spec fn retain_items(&self) -> Seq<T> {
        self@
    }

    /// Exactly the elements on which the predicate says `true` stay, in their order.
    open spec fn retain_ensures(before: Self, keep: Seq<bool>, after: Self, output: ()) -> bool {
        after@ == kept(before@, keep)
    }

    fn retain<F: FnMut(&T) -> bool>(&mut self, input: F) {
        let ghost before = *self;
        assert forall|idx: int| 0 <= idx < before@.len() implies call_requires(
            input,
            (&before@[idx],),
        ) by {
            assert(before.retain_items()[idx] == before@[idx]);
        }
        vec_retain(self, input);
        proof {
            let keep = choose|keep: Seq<bool>| #[trigger]
                verdicts(input, before@, keep) && self@ == kept(before@, keep);
            assert(verdicts(input, before.retain_items(), keep));
            assert(Self::retain_ensures(before, keep, *self, ()));
        }
    }
}

} // verus!
