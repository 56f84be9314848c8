use vstd::prelude::*;

verus! {

/// A handler function seen through the tuple of its arguments.
///
/// An implementation exists for every function of zero to ten arguments:
/// `call` unpacks the tuple and passes its fields to the function in order.
pub trait Factory<T, R>: Sized {
    /// Whether the underlying function may be called on these arguments.
    spec fn accepts(&self, param: T) -> bool;

    /// Whether `r` is a result the underlying function may give for these
    /// arguments.
    spec fn produces(&self, param: T, r: R) -> bool;

    fn call(&self, param: T) -> (r: R)
        requires
            self.accepts(param),
        ensures
            self.produces(param, r),
    ;
}

impl<Func, Res> Factory<(), Res> for Func where Func: Fn() -> Res {
    open spec fn accepts(&self, param: ()) -> bool {
        call_requires(*self, ())
    }

    open spec fn produces(&self, param: (), r: Res) -> bool {
        call_ensures(*self, (), r)
    }

    fn call(&self, param: ()) -> (r: Res) {
        (self)()
    }
}

impl<Func, A, Res> Factory<(A,), Res> for Func where Func: Fn(A) -> Res {
    open spec fn accepts(&self, param: (A,)) -> bool {
        call_requires(*self, (param.0,))
    }

    open spec fn produces(&self, param: (A,), r: Res) -> bool {
        call_ensures(*self, (param.0,), r)
    }

    fn call(&self, param: (A,)) -> (r: Res) {
        (self)(param.0)
    }
}

impl<Func, A, B, Res> Factory<(A, B), Res> for Func where Func: Fn(A, B) -> Res {
    open spec fn accepts(&self, param: (A, B)) -> bool {
        call_requires(*self, (param.0, param.1))
    }

    open spec fn produces(&self, param: (A, B), r: Res) -> bool {
        call_ensures(*self, (param.0, param.1), r)
    }

    fn call(&self, param: (A, B)) -> (r: Res) {
        (self)(param.0, param.1)
    }
}

impl<Func, A, B, C, Res> Factory<(A, B, C), Res> for Func where Func: Fn(A, B, C) -> Res {
    open spec fn accepts(&self, param: (A, B, C)) -> bool {
        call_requires(*self, (param.0, param.1, param.2))
    }

    open spec fn produces(&self, param: (A, B, C), r: Res) -> bool {
        call_ensures(*self, (param.0, param.1, param.2), r)
    }

    fn call(&self, param: (A, B, C)) -> (r: Res) {
        (self)(param.0, param.1, param.2)
    }
}

impl<Func, A, B, C, D, Res> Factory<(A, B, C, D), Res> for Func where Func: Fn(A, B, C, D) -> Res {
    open spec fn accepts(&self, param: (A, B, C, D)) -> bool {
        call_requires(*self, (param.0, param.1, param.2, param.3))
    }

    open spec fn produces(&self, param: (A, B, C, D), r: Res) -> bool {
        call_ensures(*self, (param.0, param.1, param.2, param.3), r)
    }

    fn call(&self, param: (A, B, C, D)) -> (r: Res) {
        (self)(param.0, param.1, param.2, param.3)
    }
}

impl<Func, A, B, C, D, E, Res> Factory<(A, B, C, D, E), Res> for Func where Func: Fn(A, B, C, D, E) -> Res {
    open spec fn accepts(&self, param: (A, B, C, D, E)) -> bool {
        call_requires(*self, (param.0, param.1, param.2, param.3, param.4))
    }

    open spec fn produces(&self, param: (A, B, C, D, E), r: Res) -> bool {
        call_ensures(*self, (param.0, param.1, param.2, param.3, param.4), r)
    }

    fn call(&self, param: (A, B, C, D, E)) -> (r: Res) {
        (self)(param.0, param.1, param.2, param.3, param.4)
    }
}

impl<Func, A, B, C, D, E, F, Res> Factory<(A, B, C, D, E, F), Res> for Func where Func: Fn(A, B, C, D, E, F) -> Res {
    open spec fn accepts(&self, param: (A, B, C, D, E, F)) -> bool {
        call_requires(*self, (param.0, param.1, param.2, param.3, param.4, param.5))
    }

    open spec fn produces(&self, param: (A, B, C, D, E, F), r: Res) -> bool {
        call_ensures(*self, (param.0, param.1, param.2, param.3, param.4, param.5), r)
    }

    fn call(&self, param: (A, B, C, D, E, F)) -> (r: Res) {
        (self)(param.0, param.1, param.2, param.3, param.4, param.5)
    }
}

impl<Func, A, B, C, D, E, F, G, Res> Factory<(A, B, C, D, E, F, G), Res> for Func where Func: Fn(A, B, C, D, E, F, G) -> Res {
    open spec fn accepts(&self, param: (A, B, C, D, E, F, G)) -> bool {
        call_requires(*self, (param.0, param.1, param.2, param.3, param.4, param.5, param.6))
    }

    open spec fn produces(&self, param: (A, B, C, D, E, F, G), r: Res) -> bool {
        call_ensures(*self, (param.0, param.1, param.2, param.3, param.4, param.5, param.6), r)
    }

    fn call(&self, param: (A, B, C, D, E, F, G)) -> (r: Res) {
        (self)(param.0, param.1, param.2, param.3, param.4, param.5, param.6)
    }
}

impl<Func, A, B, C, D, E, F, G, H, Res> Factory<(A, B, C, D, E, F, G, H), Res> for Func where Func: Fn(A, B, C, D, E, F, G, H) -> Res {
    open spec fn accepts(&self, param: (A, B, C, D, E, F, G, H)) -> bool {
        call_requires(*self, (param.0, param.1, param.2, param.3, param.4, param.5, param.6, param.7))
    }

    open spec fn produces(&self, param: (A, B, C, D, E, F, G, H), r: Res) -> bool {
        call_ensures(*self, (param.0, param.1, param.2, param.3, param.4, param.5, param.6, param.7), r)
    }

    fn call(&self, param: (A, B, C, D, E, F, G, H)) -> (r: Res) {
        (self)(param.0, param.1, param.2, param.3, param.4, param.5, param.6, param.7)
    }
}

impl<Func, A, B, C, D, E, F, G, H, I, Res> Factory<(A, B, C, D, E, F, G, H, I), Res> for Func where Func: Fn(A, B, C, D, E, F, G, H, I) -> Res {
    open spec fn accepts(&self, param: (A, B, C, D, E, F, G, H, I)) -> bool {
        call_requires(*self, (param.0, param.1, param.2, param.3, param.4, param.5, param.6, param.7, param.8))
    }

    open spec fn produces(&self, param: (A, B, C, D, E, F, G, H, I), r: Res) -> bool {
        call_ensures(*self, (param.0, param.1, param.2, param.3, param.4, param.5, param.6, param.7, param.8), r)
    }

    fn call(&self, param: (A, B, C, D, E, F, G, H, I)) -> (r: Res) {
        (self)(param.0, param.1, param.2, param.3, param.4, param.5, param.6, param.7, param.8)
    }
}

impl<Func, A, B, C, D, E, F, G, H, I, J, Res> Factory<(A, B, C, D, E, F, G, H, I, J), Res> for Func where Func: Fn(A, B, C, D, E, F, G, H, I, J) -> Res {
    open spec fn accepts(&self, param: (A, B, C, D, E, F, G, H, I, J)) -> bool {
        call_requires(*self, (param.0, param.1, param.2, param.3, param.4, param.5, param.6, param.7, param.8, param.9))
    }

    open spec fn produces(&self, param: (A, B, C, D, E, F, G, H, I, J), r: Res) -> bool {
        call_ensures(*self, (param.0, param.1, param.2, param.3, param.4, param.5, param.6, param.7, param.8, param.9), r)
    }

    fn call(&self, param: (A, B, C, D, E, F, G, H, I, J)) -> (r: Res) {
        (self)(param.0, param.1, param.2, param.3, param.4, param.5, param.6, param.7, param.8, param.9)
    }
}

/// For every arity from zero to ten, a factory built from a function
/// accepts and produces exactly what the function does when called on the
/// tuple's fields passed positionally in declaration order, never on a
/// permutation of them: `call((a, b, c))` is `f(a, b, c)`.
pub proof fn lemma_factory_passes_arguments_in_order<
    F0, F1, F2, F3, F4, F5, F6, F7, F8, F9, F10,
    A, B, C, D, E, F, G, H, I, J,
    Res,
>(
    f0: F0,
    f1: F1,
    f2: F2,
    f3: F3,
    f4: F4,
    f5: F5,
    f6: F6,
    f7: F7,
    f8: F8,
    f9: F9,
    f10: F10,
    a: A,
    b: B,
    c: C,
    d: D,
    e: E,
    f: F,
    g: G,
    h: H,
    i: I,
    j: J,
    r: Res,
) where
    F0: Fn() -> Res,
    F1: Fn(A) -> Res,
    F2: Fn(A, B) -> Res,
    F3: Fn(A, B, C) -> Res,
    F4: Fn(A, B, C, D) -> Res,
    F5: Fn(A, B, C, D, E) -> Res,
    F6: Fn(A, B, C, D, E, F) -> Res,
    F7: Fn(A, B, C, D, E, F, G) -> Res,
    F8: Fn(A, B, C, D, E, F, G, H) -> Res,
    F9: Fn(A, B, C, D, E, F, G, H, I) -> Res,
    F10: Fn(A, B, C, D, E, F, G, H, I, J) -> Res,
    ensures
        <F0 as Factory<(), Res>>::accepts(&f0, ()) == call_requires(f0, ()),
        <F0 as Factory<(), Res>>::produces(&f0, (), r) == call_ensures(f0, (), r),
        <F1 as Factory<(A,), Res>>::accepts(&f1, (a,)) == call_requires(f1, (a,)),
        <F1 as Factory<(A,), Res>>::produces(&f1, (a,), r) == call_ensures(f1, (a,), r),
        <F2 as Factory<(A, B), Res>>::accepts(&f2, (a, b)) == call_requires(f2, (a, b)),
        <F2 as Factory<(A, B), Res>>::produces(&f2, (a, b), r) == call_ensures(f2, (a, b), r),
        <F3 as Factory<(A, B, C), Res>>::accepts(&f3, (a, b, c)) == call_requires(f3, (a, b, c)),
        <F3 as Factory<(A, B, C), Res>>::produces(&f3, (a, b, c), r) == call_ensures(f3, (a, b, c), r),
        <F4 as Factory<(A, B, C, D), Res>>::accepts(&f4, (a, b, c, d)) == call_requires(f4, (a, b, c, d)),
        <F4 as Factory<(A, B, C, D), Res>>::produces(&f4, (a, b, c, d), r) == call_ensures(f4, (a, b, c, d), r),
        <F5 as Factory<(A, B, C, D, E), Res>>::accepts(&f5, (a, b, c, d, e)) == call_requires(f5, (a, b, c, d, e)),
        <F5 as Factory<(A, B, C, D, E), Res>>::produces(&f5, (a, b, c, d, e), r) == call_ensures(f5, (a, b, c, d, e), r),
        <F6 as Factory<(A, B, C, D, E, F), Res>>::accepts(&f6, (a, b, c, d, e, f)) == call_requires(f6, (a, b, c, d, e, f)),
        <F6 as Factory<(A, B, C, D, E, F), Res>>::produces(&f6, (a, b, c, d, e, f), r) == call_ensures(f6, (a, b, c, d, e, f), r),
        <F7 as Factory<(A, B, C, D, E, F, G), Res>>::accepts(&f7, (a, b, c, d, e, f, g)) == call_requires(f7, (a, b, c, d, e, f, g)),
        <F7 as Factory<(A, B, C, D, E, F, G), Res>>::produces(&f7, (a, b, c, d, e, f, g), r) == call_ensures(f7, (a, b, c, d, e, f, g), r),
        <F8 as Factory<(A, B, C, D, E, F, G, H), Res>>::accepts(&f8, (a, b, c, d, e, f, g, h)) == call_requires(f8, (a, b, c, d, e, f, g, h)),
        <F8 as Factory<(A, B, C, D, E, F, G, H), Res>>::produces(&f8, (a, b, c, d, e, f, g, h), r) == call_ensures(f8, (a, b, c, d, e, f, g, h), r),
        <F9 as Factory<(A, B, C, D, E, F, G, H, I), Res>>::accepts(&f9, (a, b, c, d, e, f, g, h, i)) == call_requires(f9, (a, b, c, d, e, f, g, h, i)),
        <F9 as Factory<(A, B, C, D, E, F, G, H, I), Res>>::produces(&f9, (a, b, c, d, e, f, g, h, i), r) == call_ensures(f9, (a, b, c, d, e, f, g, h, i), r),
        <F10 as Factory<(A, B, C, D, E, F, G, H, I, J), Res>>::accepts(&f10, (a, b, c, d, e, f, g, h, i, j)) == call_requires(f10, (a, b, c, d, e, f, g, h, i, j)),
        <F10 as Factory<(A, B, C, D, E, F, G, H, I, J), Res>>::produces(&f10, (a, b, c, d, e, f, g, h, i, j), r) == call_ensures(f10, (a, b, c, d, e, f, g, h, i, j), r),
{
}

} // verus!
