use vstd::prelude::*;

verus! {

/// Every element of `items` is an outcome of `cb` at the element's own index.
pub open spec fn generated_by<F, T>(cb: F, items: Seq<T>) -> bool where F: FnMut(usize) -> T {
    forall|idx: int|
        0 <= idx < items.len() ==> call_ensures(cb, (idx as usize,), #[trigger] items[idx])
}

/// Every element of `items` is a successful outcome of `cb` at the element's own index.
pub open spec fn try_generated_by<E, F, T>(cb: F, items: Seq<T>) -> bool where
    F: FnMut(usize) -> Result<T, E>,
 {
    forall|idx: int|
        0 <= idx < items.len() ==> call_ensures(
            cb,
            (idx as usize,),
            Ok::<T, E>(#[trigger] items[idx]),
        )
}

/// `cb` can succeed at every index below `idx` and can fail with `error` at `idx`.
pub open spec fn fails_first_at<E, F, T>(cb: F, idx: usize, error: E) -> bool where
    F: FnMut(usize) -> Result<T, E>,
 {
    &&& call_ensures(cb, (idx,), Err::<T, E>(error))
    &&& exists|prefix: Seq<T>| #[trigger] prefix.len() == idx && try_generated_by(cb, prefix)
}

/// `cb` fails with `error` at some index below `len`, after succeeding at every
/// index before that one.
pub open spec fn fails_below<E, F, T>(cb: F, len: nat, error: E) -> bool where
    F: FnMut(usize) -> Result<T, E>,
 {
    exists|idx: usize| idx < len && #[trigger] fails_first_at(cb, idx, error)
}

/// What a fallible construction of `len` elements from `cb` may hand back: all
/// `len` elements, each produced at its index, or the error of the first index
/// at which `cb` failed.
pub open spec fn try_outcome<E, F, T>(cb: F, len: nat, result: Result<Seq<T>, E>) -> bool where
    F: FnMut(usize) -> Result<T, E>,
 {
    match result {
        Ok(items) => items.len() == len && try_generated_by(cb, items),
        Err(error) => fails_below(cb, len, error),
    }
}

/// The construction that a generator with the fixed outcomes `g` yields: the
/// first `len` values in index order, or the error at the lowest failing index.
pub open spec fn try_build<E, T>(g: spec_fn(usize) -> Result<T, E>, len: nat) -> Result<Seq<T>, E>
    decreases len,
{
    if len == 0 {
        Ok(Seq::empty())
    } else {
        match try_build(g, (len - 1) as nat) {
            Err(error) => Err(error),
            Ok(prefix) => match g((len - 1) as usize) {
                Ok(value) => Ok(prefix.push(value)),
                Err(error) => Err(error),
            },
        }
    }
}

/// `std`'s conversion of a vector into an array: it succeeds exactly when the
/// vector holds `N` elements and then keeps them in order; otherwise the vector
/// comes back untouched.
#[verifier::external_body]
fn vec_into_array<T, const N: usize>(items: Vec<T>) -> (result: Result<[T; N], Vec<T>>)
    ensures
        items@.len() == N ==> result is Ok && result->Ok_0@ == items@,
        items@.len() != N ==> result is Err && result->Err_0@ == items@,
{
    <[T; N]>::try_from(items)
}

/// Owns the elements written so far while an array of `N` elements is under
/// construction. Dropping it mid-way releases exactly the elements it holds.
pub struct ArrayGuard<T, const N: usize> {
    slots: Vec<T>,
}

impl<T, const N: usize> ArrayGuard<T, N> {
    /// The elements written so far, in index order.
    pub closed spec fn view(&self) -> Seq<T> {
        self.slots@
    }

    /// No more than `N` elements are ever live: the construction is empty,
    /// partial or complete.
    pub open spec fn well_formed(&self) -> bool {
        self@.len() <= N
    }

    /// All `N` elements are written.
    pub open spec fn is_complete(&self) -> bool {
        self@.len() == N
    }

    /// Starts a construction with no element written.
    pub fn new() -> (guard: Self)
        ensures
            guard@ == Seq::<T>::empty(),
            guard.well_formed(),
    {
        ArrayGuard { slots: Vec::new() }
    }

    /// How many elements have been written.
    pub fn initialized(&self) -> (count: usize)
        ensures
            count == self@.len(),
    {
        self.slots.len()
    }

    /// Writes `value` into the next free slot.
    pub fn write(&mut self, value: T)
        requires
            old(self)@.len() < N,
        ensures
            final(self)@ == old(self)@.push(value),
            final(self).well_formed(),
    {
        self.slots.push(value);
    }

    /// Hands the completed array over; the guard's duty ends here.
    pub fn finish(self) -> (array: [T; N])
        requires
            self.is_complete(),
        ensures
            array@ == self@,
    {
        match vec_into_array(self.slots) {
            Ok(array) => array,
            Err(_) => vstd::pervasive::unreached(),
        }
    }
}

/// Creates an array `[T; N]` where each array element `T` is returned by the `cb` call.
///
/// `cb` is called once per index, in ascending order.
pub fn create_array<F, T, const N: usize>(cb: F) -> (array: [T; N]) where F: FnMut(usize) -> T
    requires
        forall|idx: usize| idx < N ==> call_requires(cb, (idx,)),
    ensures
        generated_by(cb, array@),
{
    broadcast use vstd::function::group_function_axioms;

    let mut generator = cb;
    let mut guard: ArrayGuard<T, N> = ArrayGuard::new();
    let mut idx: usize = 0;
    while idx < N
        invariant
            generator == cb,
            idx <= N,
            guard@.len() == idx,
            forall|i: usize| i < N ==> call_requires(cb, (i,)),
            generated_by(cb, guard@),
        decreases N - idx,
    {
        let value = generator(idx);
        guard.write(value);
        idx = idx + 1;
    }
    guard.finish()
}

/// `value` is an outcome of `T::default()`.
pub open spec fn is_default<T: Default>(value: T) -> bool {
    call_ensures(T::default, (), value)
}

/// Creates an array `[T; N]` where each array element is `T::default()`
pub fn default_array<T, const N: usize>() -> (array: [T; N]) where T: Default
    ensures
        forall|idx: int| 0 <= idx < N ==> is_default(#[trigger] array@[idx]),
{
    let fill = |_idx: usize| -> (value: T)
        ensures
            is_default(value),
        { T::default() };
    create_array(fill)
}

/// Creates a fallible array `[T; N]` where each array element `T` is returned by the `cb` call.
///
/// `cb` is called in ascending index order and never again after its first
/// failure, whose error is handed back; the elements built before it are dropped.
pub fn try_create_array<E, F, T, const N: usize>(cb: F) -> (result: Result<[T; N], E>) where
    F: FnMut(usize) -> Result<T, E>,

    requires
        forall|idx: usize| idx < N ==> call_requires(cb, (idx,)),
    ensures
        try_outcome(
            cb,
            N as nat,
            match result {
                Ok(array) => Ok(array@),
                Err(error) => Err(error),
            },
        ),
        N == 0 ==> result is Ok,
{
    broadcast use vstd::function::group_function_axioms;

    let mut generator = cb;
    let mut guard: ArrayGuard<T, N> = ArrayGuard::new();
    let mut idx: usize = 0;
    while idx < N
        invariant
            generator == cb,
            idx <= N,
            guard@.len() == idx,
            forall|i: usize| i < N ==> call_requires(cb, (i,)),
            try_generated_by(cb, guard@),
        decreases N - idx,
    {
        match generator(idx) {
            Ok(value) => {
                guard.write(value);
            },
            Err(error) => {
                proof {
                    assert(guard@.len() == idx && try_generated_by(cb, guard@));
                    assert(fails_first_at(cb, idx, error));
                    assert(fails_below(cb, N as nat, error));
                }
                return Err(error);
            },
        }
        idx = idx + 1;
    }
    Ok(guard.finish())
}

/// A construction of no elements succeeds with the empty sequence, whatever
/// the generator.
pub proof fn lemma_try_outcome_empty<E, F, T>(cb: F, result: Result<Seq<T>, E>) where
    F: FnMut(usize) -> Result<T, E>,

    requires
        try_outcome(cb, 0, result),
    ensures
        result == Ok::<Seq<T>, E>(Seq::empty()),
{
    match result {
        Ok(items) => {
            assert(items =~= Seq::<T>::empty());
        },
        Err(error) => {
            let idx = choose|idx: usize| idx < 0 && #[trigger] fails_first_at(cb, idx, error);
            assert(false);
        },
    }
}

/// A generator whose outcome at every index is fixed by `g` builds exactly the
/// sequence of `g`'s values: the element at `idx` equals `g(idx)`.
pub proof fn lemma_generated_by_function<F, T>(cb: F, g: spec_fn(usize) -> T, items: Seq<T>) where
    F: FnMut(usize) -> T,

    requires
        items.len() <= usize::MAX,
        forall|idx: usize, value: T|
            idx < items.len() && call_ensures(cb, (idx,), value) ==> value == g(idx),
        generated_by(cb, items),
    ensures
        items == Seq::new(items.len(), |idx: int| g(idx as usize)),
{
    assert forall|idx: int| 0 <= idx < items.len() implies items[idx] == g(idx as usize) by {
        assert(call_ensures(cb, (idx as usize,), items[idx]));
    }
    assert(items =~= Seq::new(items.len(), |idx: int| g(idx as usize)));
}

/// Where `g` succeeds at every index below `items.len()` with the elements of
/// `items`, the construction from `g` is `items`.
pub proof fn lemma_try_build_success<E, T>(g: spec_fn(usize) -> Result<T, E>, items: Seq<T>)
    requires
        forall|idx: int|
            0 <= idx < items.len() ==> g(idx as usize) == Ok::<T, E>(#[trigger] items[idx]),
    ensures
        try_build(g, items.len()) == Ok::<Seq<T>, E>(items),
    decreases items.len(),
{
    if items.len() > 0 {
        let prefix = items.drop_last();
        assert forall|idx: int| 0 <= idx < prefix.len() implies g(idx as usize) == Ok::<T, E>(
            #[trigger] prefix[idx],
        ) by {
            assert(prefix[idx] == items[idx]);
        }
        lemma_try_build_success(g, prefix);
        assert(g((items.len() - 1) as usize) == Ok::<T, E>(items[items.len() - 1]));
        assert(prefix.push(items[items.len() - 1]) =~= items);
    } else {
        assert(items =~= Seq::<T>::empty());
    }
}

/// An error, once met, is the outcome of every longer construction: what comes
/// after the first failing index is never looked at.
pub proof fn lemma_try_build_error_stays<E, T>(
    g: spec_fn(usize) -> Result<T, E>,
    shorter: nat,
    longer: nat,
)
    requires
        shorter <= longer,
        try_build(g, shorter) is Err,
    ensures
        try_build(g, longer) == try_build(g, shorter),
    decreases longer,
{
    if shorter < longer {
        lemma_try_build_error_stays(g, shorter, (longer - 1) as nat);
    }
}

/// Where `g` fails at `first` and succeeds at every index before it, every
/// construction of more than `first` elements ends in the error of `g(first)`.
pub proof fn lemma_try_build_first_failure<E, T>(
    g: spec_fn(usize) -> Result<T, E>,
    first: usize,
    len: nat,
)
    requires
        first < len,
        g(first) is Err,
        forall|idx: usize| idx < first ==> (#[trigger] g(idx)) is Ok,
    ensures
        try_build(g, len) == Err::<Seq<T>, E>(g(first)->Err_0),
{
    let prefix = Seq::new(first as nat, |idx: int| g(idx as usize)->Ok_0);
    assert forall|idx: int| 0 <= idx < prefix.len() implies g(idx as usize) == Ok::<T, E>(
        #[trigger] prefix[idx],
    ) by {
        assert(g(idx as usize) is Ok);
    }
    lemma_try_build_success(g, prefix);
    assert(try_build(g, (first + 1) as nat) == Err::<Seq<T>, E>(g(first)->Err_0));
    lemma_try_build_error_stays(g, (first + 1) as nat, len);
}

/// A construction depends on nothing that comes after the first failing index:
/// two generators that agree up to and including the index at which the first
/// one fails end in the same error.
pub proof fn lemma_try_build_ignores_rest<E, T>(
    g: spec_fn(usize) -> Result<T, E>,
    other: spec_fn(usize) -> Result<T, E>,
    first: usize,
    len: nat,
)
    requires
        first < len,
        g(first) is Err,
        forall|idx: usize| idx < first ==> (#[trigger] g(idx)) is Ok,
        forall|idx: usize| idx <= first ==> #[trigger] other(idx) == g(idx),
    ensures
        try_build(other, len) == try_build(g, len),
{
    assert forall|idx: usize| idx < first implies (#[trigger] other(idx)) is Ok by {
        assert(g(idx) is Ok);
    }
    lemma_try_build_first_failure(g, first, len);
    lemma_try_build_first_failure(other, first, len);
}

/// A generator whose outcome at every index is fixed by `g` leaves a fallible
/// construction no choice: its result is `try_build(g, len)`.
pub proof fn lemma_try_outcome_function<E, F, T>(
    cb: F,
    g: spec_fn(usize) -> Result<T, E>,
    len: nat,
    result: Result<Seq<T>, E>,
) where F: FnMut(usize) -> Result<T, E>
    requires
        len <= usize::MAX,
        forall|idx: usize, outcome: Result<T, E>|
            idx < len && call_ensures(cb, (idx,), outcome) ==> outcome == g(idx),
        try_outcome(cb, len, result),
    ensures
        result == try_build(g, len),
{
    match result {
        Ok(items) => {
            assert forall|idx: int| 0 <= idx < items.len() implies g(idx as usize) == Ok::<T, E>(
                #[trigger] items[idx],
            ) by {
                assert(call_ensures(cb, (idx as usize,), Ok::<T, E>(items[idx])));
            }
            lemma_try_build_success(g, items);
        },
        Err(error) => {
            let first = choose|idx: usize| idx < len && #[trigger] fails_first_at(cb, idx, error);
            let prefix = choose|prefix: Seq<T>| #[trigger]
                prefix.len() == first && try_generated_by(cb, prefix);
            assert(g(first) == Err::<T, E>(error));
            assert forall|idx: usize| idx < first implies (#[trigger] g(idx)) is Ok by {
                assert(call_ensures(cb, (idx,), Ok::<T, E>(prefix[idx as int])));
            }
            lemma_try_build_first_failure(g, first, len);
        },
    }
}

/// A fallible generator that never fails, and whose every outcome is an outcome
/// of the infallible generator `plain` at the same index, builds what `plain`
/// builds: the fallible construction succeeds, with elements generated by `plain`.
pub proof fn lemma_try_matches_plain<E, F, G, T>(
    plain: G,
    cb: F,
    len: nat,
    result: Result<Seq<T>, E>,
) where F: FnMut(usize) -> Result<T, E>, G: FnMut(usize) -> T
    requires
        len <= usize::MAX,
        forall|idx: usize, outcome: Result<T, E>|
            idx < len && call_ensures(cb, (idx,), outcome) ==> outcome is Ok && call_ensures(
                plain,
                (idx,),
                outcome->Ok_0,
            ),
        try_outcome(cb, len, result),
    ensures
        result is Ok,
        result->Ok_0.len() == len,
        generated_by(plain, result->Ok_0),
{
    match result {
        Ok(items) => {
            assert forall|idx: int| 0 <= idx < items.len() implies call_ensures(
                plain,
                (idx as usize,),
                #[trigger] items[idx],
            ) by {
                assert(call_ensures(cb, (idx as usize,), Ok::<T, E>(items[idx])));
            }
        },
        Err(error) => {
            let first = choose|idx: usize| idx < len && #[trigger] fails_first_at(cb, idx, error);
            assert(call_ensures(cb, (first,), Err::<T, E>(error)));
        },
    }
}

} // verus!
