use std::collections::{BTreeMap, BTreeSet, HashMap, HashSet};
use vstd::laws_cmp::obeys_cmp;
use vstd::prelude::*;
use vstd::std_specs::hash::obeys_key_model;

verus! {

/// See [`insert`](Insert::insert) for more information.
pub trait Insert: Sized {
    /// Error
    type Error;

    /// Input
    type Input;

    /// Result
    type Ok;

    /// Whether `input` may be inserted. Storage of a fixed capacity that is
    /// full takes no element at an index that it has.
    open spec fn insert_requires(&self, input: Self::Input) -> bool {
        true
    }

    /// What an insertion of `input` into `before` may leave behind and hand
    /// back. An implementation that says nothing promises nothing.
    open spec fn insert_ensures(
        before: Self,
        input: Self::Input,
        after: Self,
        result: Result<Self::Ok, Self::Error>,
    ) -> bool {
        true
    }

    /// Inserts an `Input` element.
    fn insert(&mut self, input: Self::Input) -> (result: Result<Self::Ok, Self::Error>)
        requires
            old(self).insert_requires(input),
        ensures
            Self::insert_ensures(*old(self), input, *final(self), result),
    ;
}

/// An insertion into a sequence: the element is placed at the index, before
/// what stood there; an index beyond the end hands the element back and
/// changes nothing.
pub open spec fn insert_outcome<T>(
    before: Seq<T>,
    input: (usize, T),
    after: Seq<T>,
    result: Result<(), T>,
) -> bool {
    if input.0 > before.len() {
        result == Err::<(), T>(input.1) && after == before
    } else {
        result is Ok && after == before.insert(input.0 as int, input.1)
    }
}

impl<K, V> Insert for BTreeMap<K, V> where K: Ord {
    type Error = core::convert::Infallible;

    type Input = (K, V);

    type Ok = Option<V>;

    /// The pair is stored and the value that the key had before comes back.
    /// This never fails.
    open spec fn insert_ensures(
        before: Self,
        input: (K, V),
        after: Self,
        result: Result<Option<V>, core::convert::Infallible>,
    ) -> bool {
        &&& result is Ok
        &&& obeys_cmp::<K>() ==> {
            &&& after@ == before@.insert(input.0, input.1)
            &&& result->Ok_0 == if before@.contains_key(input.0) {
                Some(before@[input.0])
            } else {
                None
            }
        }
    }

    fn insert(&mut self, input: (K, V)) -> Result<Option<V>, core::convert::Infallible> {
        let (k, v) = input;
        Ok(self.insert(k, v))
    }
}

impl<V> Insert for BTreeSet<V> where V: Ord {
    type Error = V;

    type Input = V;

    type Ok = ();

    /// A value that the set holds already is handed back and the set stays as
    /// it is; any other value joins the set.
    open spec fn insert_ensures(
        before: Self,
        input: V,
        after: Self,
        result: Result<(), V>,
    ) -> bool {
        &&& result is Err ==> result->Err_0 == input && after == before
        &&& obeys_cmp::<V>() ==> {
            &&& result is Err <==> before@.contains(input)
            &&& result is Ok ==> after@ == before@.insert(input)
        }
    }

    fn insert(&mut self, v: V) -> Result<(), V> {
        broadcast use vstd::std_specs::btree::group_btree_axioms;

        if self.contains(&v) {
            Err(v)
        } else {
            let _ = self.insert(v);
            Ok(())
        }
    }
}

impl<K, V> Insert for HashMap<K, V> where K: Eq + core::hash::Hash {
    type Error = core::convert::Infallible;

    type Input = (K, V);

    type Ok = Option<V>;

    /// The pair is stored and the value that the key had before comes back.
    /// This never fails.
    open spec fn insert_ensures(
        before: Self,
        input: (K, V),
        after: Self,
        result: Result<Option<V>, core::convert::Infallible>,
    ) -> bool {
        &&& result is Ok
        &&& obeys_key_model::<K>() ==> {
            &&& after@ == before@.insert(input.0, input.1)
            &&& result->Ok_0 == if before@.contains_key(input.0) {
                Some(before@[input.0])
            } else {
                None
            }
        }
    }

    fn insert(&mut self, input: (K, V)) -> Result<Option<V>, core::convert::Infallible> {
        broadcast use vstd::std_specs::hash::group_hash_axioms;

        let (k, v) = input;
        Ok(self.insert(k, v))
    }
}

impl<V> Insert for HashSet<V> where V: core::hash::Hash + Eq {
    type Error = V;

    type Input = V;

    type Ok = ();

    /// A value that the set holds already is handed back and the set stays as
    /// it is; any other value joins the set.
    open spec fn insert_ensures(
        before: Self,
        input: V,
        after: Self,
        result: Result<(), V>,
    ) -> bool {
        &&& result is Err ==> result->Err_0 == input && after == before
        &&& obeys_key_model::<V>() ==> {
            &&& result is Err <==> before@.contains(input)
            &&& result is Ok ==> after@ == before@.insert(input)
        }
    }

    fn insert(&mut self, v: V) -> Result<(), V> {
        broadcast use vstd::std_specs::hash::group_hash_axioms;

        if self.contains(&v) {
            Err(v)
        } else {
            let _ = self.insert(v);
            Ok(())
        }
    }
}

impl<T> Insert for Option<T> {
    type Error = T;

    type Input = T;

    type Ok = ();

    /// An empty option takes the element; a full one hands it back.
    open spec fn insert_ensures(
        before: Self,
        input: T,
        after: Self,
        result: Result<(), T>,
    ) -> bool {
        match before {
            Some(_) => result == Err::<(), T>(input) && after == before,
            None => result == Ok::<(), T>(()) && after == Some(input),
        }
    }

    fn insert(&mut self, input: T) -> Result<(), T> {
        if self.is_some() {
            Err(input)
        } else {
            *self = Some(input);
            Ok(())
        }
    }
}

impl<T> Insert for Vec<T> {
    type Error = T;

    type Input = (usize, T);

    type Ok = ();

    /// The element is placed at the index, before what stood there; an index
    /// beyond the end hands the element back.
    open spec fn insert_ensures(
        before: Self,
        input: (usize, T),
        after: Self,
        result: Result<(), T>,
    ) -> bool {
        insert_outcome(before@, input, after@, result)
    }

    fn insert(&mut self, input: (usize, T)) -> Result<(), T> {
        let (idx, elem) = input;
        if idx > self.len() {
            return Err(elem);
        }
        Ok(self.insert(idx, elem))
    }
}

} // verus!
