use vstd::prelude::*;

verus! {

/// Which arm of a `RocResult` is live.
#[derive(Debug, Clone, Copy, PartialEq, Eq, Structural)]
pub enum RocResultTag {
    IsOk,
    IsErr,
}

/// A result value laid out as an explicit tag plus a payload, of which only
/// the arm named by the tag is ever present.
pub struct RocResult<T, E> {
    tag: RocResultTag,
    ok: Option<T>,
    err: Option<E>,
}

impl<T, E> View for RocResult<T, E> {
    type V = Result<T, E>;

    /// The value as a native result: the live arm under its tag.
    closed spec fn view(&self) -> Result<T, E> {
        match self.tag {
            RocResultTag::IsOk => Ok(self.ok->0),
            RocResultTag::IsErr => Err(self.err->0),
        }
    }
}

/// `y` is what mapping `x` gives when the `Ok` payload goes to one that
/// `rel` allows: an `Err` passes through unchanged.
pub open spec fn mapped<T, U, E>(x: Result<T, E>, y: Result<U, E>, rel: spec_fn(T, U) -> bool) -> bool {
    match x {
        Ok(t) => y is Ok && rel(t, y->Ok_0),
        Err(e) => y == Err::<U, E>(e),
    }
}

/// `x` with its `Ok` payload replaced by `f` of it.
pub open spec fn map_with<T, U, E>(x: Result<T, E>, f: spec_fn(T) -> U) -> Result<U, E> {
    match x {
        Ok(t) => Ok(f(t)),
        Err(e) => Err(e),
    }
}

impl<T, E> RocResult<T, E> {
    #[verifier::type_invariant]
    spec fn live_arm_matches_tag(&self) -> bool {
        match self.tag {
            RocResultTag::IsOk => self.ok is Some && self.err is None,
            RocResultTag::IsErr => self.ok is None && self.err is Some,
        }
    }

    /// A successful result holding `v`.
    pub fn ok(v: T) -> (r: Self)
        ensures
            r@ == Ok::<T, E>(v),
    {
        RocResult { tag: RocResultTag::IsOk, ok: Some(v), err: None }
    }

    /// A failed result holding `e`.
    pub fn err(e: E) -> (r: Self)
        ensures
            r@ == Err::<T, E>(e),
    {
        RocResult { tag: RocResultTag::IsErr, ok: None, err: Some(e) }
    }

    /// Whether the tag says `Ok`.
    pub fn is_ok(&self) -> (r: bool)
        ensures
            r == self@ is Ok,
    {
        match self.tag {
            RocResultTag::IsOk => true,
            RocResultTag::IsErr => false,
        }
    }

    /// Whether the tag says `Err`.
    pub fn is_err(&self) -> (r: bool)
        ensures
            r == self@ is Err,
    {
        match self.tag {
            RocResultTag::IsOk => false,
            RocResultTag::IsErr => true,
        }
    }

    /// The `Ok` payload. Calling it on an `Err` is a caller's error.
    pub fn unwrap(self) -> (r: T)
        requires
            self@ is Ok,
        ensures
            self@ == Ok::<T, E>(r),
    {
        proof {
            use_type_invariant(&self);
        }
        let RocResult { tag: _, ok, err: _ } = self;
        ok.unwrap()
    }

    /// The `Err` payload. Calling it on an `Ok` is a caller's error.
    pub fn unwrap_err(self) -> (r: E)
        requires
            self@ is Err,
        ensures
            self@ == Err::<T, E>(r),
    {
        proof {
            use_type_invariant(&self);
        }
        let RocResult { tag: _, ok: _, err } = self;
        err.unwrap()
    }

    /// Applies `f` to an `Ok` payload; an `Err` passes through unchanged.
    pub fn map<U, F: FnOnce(T) -> U>(self, f: F) -> (r: RocResult<U, E>)
        requires
            self@ is Ok ==> f.requires((self@->Ok_0,)),
        ensures
            mapped(self@, r@, |t: T, u: U| f.ensures((t,), u)),
    {
        proof {
            use_type_invariant(&self);
        }
        let RocResult { tag, ok, err } = self;
        match tag {
            RocResultTag::IsOk => RocResult::ok(f(ok.unwrap())),
            RocResultTag::IsErr => RocResult::err(err.unwrap()),
        }
    }

    /// The same value as a native result.
    pub fn into_result(self) -> (r: Result<T, E>)
        ensures
            r == self@,
    {
        proof {
            use_type_invariant(&self);
        }
        let RocResult { tag, ok, err } = self;
        match tag {
            RocResultTag::IsOk => Ok(ok.unwrap()),
            RocResultTag::IsErr => Err(err.unwrap()),
        }
    }

    /// The same value as a tagged result.
    pub fn from_result(r: Result<T, E>) -> (x: Self)
        ensures
            x@ == r,
    {
        match r {
            Ok(v) => RocResult::ok(v),
            Err(e) => RocResult::err(e),
        }
    }
}

impl<T: Clone, E: Clone> Clone for RocResult<T, E> {
    /// Clones the live arm only, under the same tag.
    fn clone(&self) -> (r: Self)
        ensures
            r@ is Ok <==> self@ is Ok,
            self@ is Ok ==> cloned(self@->Ok_0, r@->Ok_0),
            self@ is Err ==> cloned(self@->Err_0, r@->Err_0),
    {
        proof {
            use_type_invariant(self);
        }
        match self.tag {
            RocResultTag::IsOk => {
                let v = self.ok.as_ref().unwrap().clone();
                RocResult::ok(v)
            },
            RocResultTag::IsErr => {
                let e = self.err.as_ref().unwrap().clone();
                RocResult::err(e)
            },
        }
    }
}

impl<T, E> From<RocResult<T, E>> for Result<T, E> {
    fn from(value: RocResult<T, E>) -> (r: Self)
        ensures
            r == value@,
    {
        value.into_result()
    }
}

impl<T, E> vstd::std_specs::convert::FromSpecImpl<RocResult<T, E>> for Result<T, E> {
    open spec fn obeys_from_spec() -> bool {
        true
    }

    open spec fn from_spec(value: RocResult<T, E>) -> Self {
        value@
    }
}

impl<T, E> From<Result<T, E>> for RocResult<T, E> {
    fn from(value: Result<T, E>) -> (r: Self)
        ensures
            r@ == value,
    {
        match value {
            Ok(v) => RocResult { tag: RocResultTag::IsOk, ok: Some(v), err: None },
            Err(e) => RocResult { tag: RocResultTag::IsErr, ok: None, err: Some(e) },
        }
    }
}

impl<T, E> vstd::std_specs::convert::FromSpecImpl<Result<T, E>> for RocResult<T, E> {
    open spec fn obeys_from_spec() -> bool {
        true
    }

    closed spec fn from_spec(value: Result<T, E>) -> Self {
        match value {
            Ok(v) => RocResult { tag: RocResultTag::IsOk, ok: Some(v), err: None },
            Err(e) => RocResult { tag: RocResultTag::IsErr, ok: None, err: Some(e) },
        }
    }
}

/// Mapping with the identity leaves a result as it was.
pub proof fn lemma_map_identity<T, E>(x: Result<T, E>, y: Result<T, E>)
    requires
        mapped(x, y, |t: T, u: T| u == t),
    ensures
        y == x,
{
}

/// Mapping with `f` and then with `g` is mapping once with `g` after `f`.
pub proof fn lemma_map_compose<T, U, V, E>(x: Result<T, E>, f: spec_fn(T) -> U, g: spec_fn(U) -> V)
    ensures
        map_with(map_with(x, f), g) == map_with(x, |t: T| g(f(t))),
{
}

/// Mapping with `f` and then with `g` relates `x` to the final result as one
/// map whose function does `f` and then `g`: each final payload is a `g`
/// result of some `f` result of the first payload, and an `Err` passes
/// through both maps unchanged. Over the closures' own `ensures`.
pub proof fn lemma_map_then_map<T, U, V, E>(
    x: Result<T, E>,
    y: Result<U, E>,
    z: Result<V, E>,
    f_rel: spec_fn(T, U) -> bool,
    g_rel: spec_fn(U, V) -> bool,
)
    requires
        mapped(x, y, f_rel),
        mapped(y, z, g_rel),
    ensures
        mapped(x, z, |t: T, v: V| exists|u: U| #[trigger] f_rel(t, u) && g_rel(u, v)),
{
    match x {
        Ok(t) => {
            let u = y->Ok_0;
            assert(f_rel(t, u) && g_rel(u, z->Ok_0));
        },
        Err(e) => {},
    }
}

/// A map whose function always returns `f` of its argument gives
/// `map_with(x, f)`.
pub proof fn lemma_mapped_by_function<T, U, E>(
    x: Result<T, E>,
    y: Result<U, E>,
    rel: spec_fn(T, U) -> bool,
    f: spec_fn(T) -> U,
)
    requires
        mapped(x, y, rel),
        forall|t: T, u: U| #[trigger] rel(t, u) ==> u == f(t),
    ensures
        y == map_with(x, f),
{
}

/// Turning a tagged result into a native one and back gives the same value.
pub proof fn lemma_native_round_trip<T, E>(x: RocResult<T, E>)
    ensures
        <RocResult<T, E> as View>::view(
            &<RocResult<T, E> as vstd::std_specs::convert::FromSpec<Result<T, E>>>::from_spec(
                <Result<T, E> as vstd::std_specs::convert::FromSpec<RocResult<T, E>>>::from_spec(x),
            ),
        ) == x@,
{
}

} // verus!
