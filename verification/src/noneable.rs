//! Values that may explicitly be set to `none` in the yaml.
use vstd::prelude::*;

verus! {

/// A value that is either explicitly absent (`none` in yaml) or present.
#[derive(Debug, PartialEq, Eq)]
pub enum Noneable<T> {
    /// The value is explicitly absent (`none` in yaml; the name `None` is reserved here)
    NoneValue,
    /// The value is present
    NotNone(T),
}

impl<T: Clone> Clone for Noneable<T> {
    fn clone(&self) -> (r: Self)
        ensures
            match (*self, r) {
                (Noneable::NoneValue, Noneable::NoneValue) => true,
                (Noneable::NotNone(a), Noneable::NotNone(b)) => cloned(a, b),
                _ => false,
            },
    {
        match self {
            Noneable::NoneValue => Noneable::NoneValue,
            Noneable::NotNone(v) => Noneable::NotNone(v.clone()),
        }
    }
}

impl<T: Clone> Noneable<T> {
    /// The present value, or `other` when the value is absent.
    pub fn unwrap_or(&self, other: T) -> (r: T)
        ensures
            match *self {
                Noneable::NoneValue => r == other,
                Noneable::NotNone(v) => cloned(v, r),
            },
    {
        match self {
            Noneable::NoneValue => other,
            Noneable::NotNone(nn) => nn.clone(),
        }
    }
}

impl<T> Noneable<T> {
    /// The present value, or what `f` computes when the value is absent.
    pub fn unwrap_or_else<F: FnOnce() -> T>(self, f: F) -> (r: T)
        requires
            self is NoneValue ==> f.requires(()),
        ensures
            match self {
                Noneable::NoneValue => f.ensures((), r),
                Noneable::NotNone(v) => r == v,
            },
    {
        match self {
            Noneable::NotNone(x) => x,
            Noneable::NoneValue => f(),
        }
    }

    /// Applies `f` to a present value.
    pub fn map<U, F: FnOnce(T) -> U>(self, f: F) -> (r: Noneable<U>)
        requires
            self matches Noneable::NotNone(v) ==> f.requires((v,)),
        ensures
            mapped(self, f, r),
    {
        match self {
            Noneable::NoneValue => Noneable::NoneValue,
            Noneable::NotNone(x) => Noneable::NotNone(f(x)),
        }
    }

    /// The value as an `Option`.
    pub fn into_option(self) -> (r: Option<T>)
        ensures
            match self {
                Noneable::NoneValue => r is None,
                Noneable::NotNone(v) => r == Some(v),
            },
    {
        match self {
            Noneable::NoneValue => None,
            Noneable::NotNone(n) => Some(n),
        }
    }
}

/// Whether `r` is what `map` gives for `n` and `f`: `none` for `none`, and a result of `f` on a
/// present value.
pub open spec fn mapped<T, U, F: FnOnce(T) -> U>(n: Noneable<T>, f: F, r: Noneable<U>) -> bool {
    match n {
        Noneable::NoneValue => r is NoneValue,
        Noneable::NotNone(v) => r matches Noneable::NotNone(u) && call_ensures(f, (v,), u),
    }
}

/// `n` with the function `f` applied to a present value.
pub open spec fn map_spec<T, U>(n: Noneable<T>, f: spec_fn(T) -> U) -> Noneable<U> {
    match n {
        Noneable::NoneValue => Noneable::NoneValue,
        Noneable::NotNone(v) => Noneable::NotNone(f(v)),
    }
}

/// `map` with a closure whose results are given by the function `sf` gives `map_spec` of `sf`.
pub proof fn lemma_map_is_map_spec<T, U, F: FnOnce(T) -> U>(
    n: Noneable<T>,
    f: F,
    sf: spec_fn(T) -> U,
    r: Noneable<U>,
)
    requires
        mapped(n, f, r),
        forall|x: T, y: U| call_ensures(f, (x,), y) ==> y == sf(x),
    ensures
        r == map_spec(n, sf),
{
}

/// Mapping with the identity gives the value back.
pub proof fn lemma_map_identity<T>(n: Noneable<T>)
    ensures
        map_spec(n, |x: T| x) == n,
{
}

/// Mapping with `f` and then with `g` is mapping with `f` followed by `g`.
pub proof fn lemma_map_compose<T, U, V>(n: Noneable<T>, f: spec_fn(T) -> U, g: spec_fn(U) -> V)
    ensures
        map_spec(map_spec(n, f), g) == map_spec(n, |x: T| g(f(x))),
{
}

/// `map` with a closure that gives back its argument gives the value back.
pub proof fn lemma_map_identity_closure<T, F: FnOnce(T) -> T>(n: Noneable<T>, f: F, r: Noneable<T>)
    requires
        mapped(n, f, r),
        forall|x: T, y: T| call_ensures(f, (x,), y) ==> y == x,
    ensures
        r == n,
{
}

/// `map` with `f` and then with `g` gives what `map` with a closure `h` that is `f` followed by
/// `g` gives, for closures whose results are fixed by their arguments (by `sf`, `sg`).
pub proof fn lemma_map_compose_closures<
    T,
    U,
    V,
    F: FnOnce(T) -> U,
    G: FnOnce(U) -> V,
    H: FnOnce(T) -> V,
>(
    n: Noneable<T>,
    f: F,
    g: G,
    h: H,
    sf: spec_fn(T) -> U,
    sg: spec_fn(U) -> V,
    r1: Noneable<U>,
    r2: Noneable<V>,
    r3: Noneable<V>,
)
    requires
        mapped(n, f, r1),
        mapped(r1, g, r2),
        mapped(n, h, r3),
        forall|x: T, y: U| call_ensures(f, (x,), y) ==> y == sf(x),
        forall|y: U, z: V| call_ensures(g, (y,), z) ==> z == sg(y),
        forall|x: T, z: V| call_ensures(h, (x,), z) ==> z == sg(sf(x)),
    ensures
        r2 == r3,
{
}

impl<T: Default> Noneable<T> {
    /// The present value, or the default value of `T` when the value is absent.
    pub fn unwrap_or_default(self) -> (r: T)
        ensures
            self matches Noneable::NotNone(v) ==> r == v,
            self is NoneValue ==> call_ensures(T::default, (), r),
    {
        match self {
            Noneable::NoneValue => T::default(),
            Noneable::NotNone(x) => x,
        }
    }
}

} // verus!
