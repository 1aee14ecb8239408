//! Example values of the input types, used to document and test the yaml format.
use crate::jme::{JMEString, VariableValued};
use crate::noneable::Noneable;
use crate::value::{TemplateString, Value, ValueType};
use vstd::prelude::*;

verus! {

/// Types that can list example values of themselves.
///
/// Every implementation states what its list is with `is_examples`. Types whose examples are fixed
/// values (numbers, booleans, and tuples, arrays and boxes of such types) say so with
/// `fixed_examples`, and then `examples` returns exactly `spec_examples`.
pub trait Examples: Sized {
    /// The examples of a type whose examples are fixed values.
    open spec fn spec_examples() -> Seq<Self> {
        Seq::empty()
    }

    /// Whether `examples` always returns exactly `spec_examples`.
    open spec fn fixed_examples() -> bool {
        false
    }

    /// What holds of the list that `examples` returns.
    open spec fn is_examples(s: Seq<Self>) -> bool {
        true
    }

    /// The example values.
    fn examples() -> (r: Vec<Self>)
        ensures
            Self::is_examples(r@),
            Self::fixed_examples() ==> r@ == Self::spec_examples(),
    ;
}

/// Removes and returns the first element.
fn take_first<T>(v: &mut Vec<T>) -> (r: T)
    requires
        old(v).len() > 0,
    ensures
        r == old(v)@[0],
        final(v)@ == old(v)@.drop_first(),
{
    v.remove(0)
}

/// The fixed examples of `A`, repeated from the start until there are `n` of them.
pub open spec fn cycle<A>(s: Seq<A>, n: nat) -> Seq<A> {
    Seq::new(n, |i: int| s[i % (s.len() as int)])
}

/// Counting on by one moves the remainder on by one, or back to zero.
proof fn lemma_mod_step(i: int, n: int)
    requires
        n > 0,
        i >= 0,
    ensures
        i % n + 1 < n ==> (i + 1) % n == i % n + 1,
        i % n + 1 == n ==> (i + 1) % n == 0,
{
    vstd::arithmetic::div_mod::lemma_fundamental_div_mod(i, n);
    let q = i / n;
    let k = i % n;
    assert(n * q == q * n) by (nonlinear_arith);
    if k + 1 < n {
        vstd::arithmetic::div_mod::lemma_fundamental_div_mod_converse(i + 1, n, q, k + 1);
    } else {
        assert((q + 1) * n == q * n + n) by (nonlinear_arith);
        vstd::arithmetic::div_mod::lemma_fundamental_div_mod_converse(i + 1, n, q + 1, 0);
    }
}

/// `n` examples of `A`: its list, repeated from the start as often as needed. Each repetition
/// asks `A` for its examples again, so no example is cloned.
fn cycled<A: Examples>(n: usize) -> (r: Vec<A>)
    ensures
        r@.len() <= n,
        A::fixed_examples() && A::spec_examples().len() > 0 ==> r@ == cycle(
            A::spec_examples(),
            n as nat,
        ),
{
    let ghost s = A::spec_examples();
    let mut r: Vec<A> = Vec::new();
    let mut cur: Vec<A> = A::examples();
    let mut i: usize = 0;
    while i < n
        invariant
            i <= n,
            r@.len() == i,
            s == A::spec_examples(),
            A::fixed_examples() && s.len() > 0 ==> {
                &&& r@ == cycle(s, i as nat)
                &&& (cur@ == s.subrange(((i as int) % (s.len() as int)) as int, s.len() as int) || (
                cur@.len() == 0 && (i as int) % (s.len() as int) == 0))
            },
        decreases n - i,
    {
        if cur.len() == 0 {
            proof {
                if A::fixed_examples() && s.len() > 0 {
                    assert((i as int) % (s.len() as int) == 0);
                }
            }
            cur = A::examples();
            proof {
                if A::fixed_examples() && s.len() > 0 {
                    assert(cur@ == s);
                    assert(s.subrange(0, s.len() as int) =~= s);
                }
            }
            if cur.len() == 0 {
                return r;
            }
        }
        proof {
            if A::fixed_examples() && s.len() > 0 {
                assert(cur@ == s.subrange(((i as int) % (s.len() as int)) as int, s.len() as int));
            }
        }
        let x = take_first(&mut cur);
        r.push(x);
        proof {
            if A::fixed_examples() && s.len() > 0 {
                let k = (i as int) % (s.len() as int);
                assert(x == s[k]);
                assert(r@ =~= cycle(s, (i + 1) as nat)) by {
                    assert forall|j: int| 0 <= j < i + 1 implies r@[j] == s[j % (s.len() as int)] by {
                        if j == i {
                        } else {
                            assert(r@[j] == cycle(s, i as nat)[j]);
                        }
                    }
                }
                if k + 1 < s.len() {
                    lemma_mod_step(i as int, s.len() as int);
                    assert(cur@ =~= s.subrange(k + 1, s.len() as int));
                } else {
                    lemma_mod_step(i as int, s.len() as int);
                    assert(cur@ =~= Seq::<A>::empty());
                }
            }
        }
        i += 1;
    }
    r
}

impl Examples for u8 {
    open spec fn spec_examples() -> Seq<u8> {
        seq![2u8]
    }

    open spec fn fixed_examples() -> bool {
        true
    }

    open spec fn is_examples(s: Seq<u8>) -> bool {
        s == seq![2u8]
    }

    fn examples() -> (r: Vec<u8>) {
        let r = vec![2u8];
        assert(r@ =~= seq![2u8]);
        r
    }
}

impl Examples for u16 {
    open spec fn spec_examples() -> Seq<u16> {
        seq![2u16]
    }

    open spec fn fixed_examples() -> bool {
        true
    }

    open spec fn is_examples(s: Seq<u16>) -> bool {
        s == seq![2u16]
    }

    fn examples() -> (r: Vec<u16>) {
        let r = vec![2u16];
        assert(r@ =~= seq![2u16]);
        r
    }
}

impl Examples for u32 {
    open spec fn spec_examples() -> Seq<u32> {
        seq![2u32]
    }

    open spec fn fixed_examples() -> bool {
        true
    }

    open spec fn is_examples(s: Seq<u32>) -> bool {
        s == seq![2u32]
    }

    fn examples() -> (r: Vec<u32>) {
        let r = vec![2u32];
        assert(r@ =~= seq![2u32]);
        r
    }
}

impl Examples for u64 {
    open spec fn spec_examples() -> Seq<u64> {
        seq![2u64]
    }

    open spec fn fixed_examples() -> bool {
        true
    }

    open spec fn is_examples(s: Seq<u64>) -> bool {
        s == seq![2u64]
    }

    fn examples() -> (r: Vec<u64>) {
        let r = vec![2u64];
        assert(r@ =~= seq![2u64]);
        r
    }
}

impl Examples for u128 {
    open spec fn spec_examples() -> Seq<u128> {
        seq![2u128]
    }

    open spec fn fixed_examples() -> bool {
        true
    }

    open spec fn is_examples(s: Seq<u128>) -> bool {
        s == seq![2u128]
    }

    fn examples() -> (r: Vec<u128>) {
        let r = vec![2u128];
        assert(r@ =~= seq![2u128]);
        r
    }
}

impl Examples for usize {
    open spec fn spec_examples() -> Seq<usize> {
        seq![2usize]
    }

    open spec fn fixed_examples() -> bool {
        true
    }

    open spec fn is_examples(s: Seq<usize>) -> bool {
        s == seq![2usize]
    }

    fn examples() -> (r: Vec<usize>) {
        let r = vec![2usize];
        assert(r@ =~= seq![2usize]);
        r
    }
}

impl Examples for i8 {
    open spec fn spec_examples() -> Seq<i8> {
        seq![-1i8]
    }

    open spec fn fixed_examples() -> bool {
        true
    }

    open spec fn is_examples(s: Seq<i8>) -> bool {
        s == seq![-1i8]
    }

    fn examples() -> (r: Vec<i8>) {
        let r = vec![-1i8];
        assert(r@ =~= seq![-1i8]);
        r
    }
}

impl Examples for i16 {
    open spec fn spec_examples() -> Seq<i16> {
        seq![-1i16]
    }

    open spec fn fixed_examples() -> bool {
        true
    }

    open spec fn is_examples(s: Seq<i16>) -> bool {
        s == seq![-1i16]
    }

    fn examples() -> (r: Vec<i16>) {
        let r = vec![-1i16];
        assert(r@ =~= seq![-1i16]);
        r
    }
}

impl Examples for i32 {
    open spec fn spec_examples() -> Seq<i32> {
        seq![-1i32]
    }

    open spec fn fixed_examples() -> bool {
        true
    }

    open spec fn is_examples(s: Seq<i32>) -> bool {
        s == seq![-1i32]
    }

    fn examples() -> (r: Vec<i32>) {
        let r = vec![-1i32];
        assert(r@ =~= seq![-1i32]);
        r
    }
}

impl Examples for i64 {
    open spec fn spec_examples() -> Seq<i64> {
        seq![-1i64]
    }

    open spec fn fixed_examples() -> bool {
        true
    }

    open spec fn is_examples(s: Seq<i64>) -> bool {
        s == seq![-1i64]
    }

    fn examples() -> (r: Vec<i64>) {
        let r = vec![-1i64];
        assert(r@ =~= seq![-1i64]);
        r
    }
}

impl Examples for i128 {
    open spec fn spec_examples() -> Seq<i128> {
        seq![-1i128]
    }

    open spec fn fixed_examples() -> bool {
        true
    }

    open spec fn is_examples(s: Seq<i128>) -> bool {
        s == seq![-1i128]
    }

    fn examples() -> (r: Vec<i128>) {
        let r = vec![-1i128];
        assert(r@ =~= seq![-1i128]);
        r
    }
}

impl Examples for isize {
    open spec fn spec_examples() -> Seq<isize> {
        seq![-1isize]
    }

    open spec fn fixed_examples() -> bool {
        true
    }

    open spec fn is_examples(s: Seq<isize>) -> bool {
        s == seq![-1isize]
    }

    fn examples() -> (r: Vec<isize>) {
        let r = vec![-1isize];
        assert(r@ =~= seq![-1isize]);
        r
    }
}

impl Examples for bool {
    open spec fn spec_examples() -> Seq<bool> {
        seq![false]
    }

    open spec fn fixed_examples() -> bool {
        true
    }

    open spec fn is_examples(s: Seq<bool>) -> bool {
        s == seq![false]
    }

    fn examples() -> (r: Vec<bool>) {
        let r = vec![false];
        assert(r@ =~= seq![false]);
        r
    }
}

impl Examples for String {
    open spec fn is_examples(s: Seq<String>) -> bool {
        s.len() == 1 && s[0]@ == "nonjmetext§"@
    }

    fn examples() -> (r: Vec<String>) {
        let mut r = Vec::new();
        r.push(crate::text::owned("nonjmetext§"));
        r
    }
}

/// The template reference that the examples of values use: `template:template_key`.
pub open spec fn is_example_template(ts: TemplateString) -> bool {
    &&& ts.key matches Some(k) && k@ == "template_key"@
    &&& ts.error_message is None
}

/// The template reference `template:template_key`.
fn example_template() -> (r: TemplateString)
    ensures
        is_example_template(r),
{
    TemplateString { key: Some(crate::text::owned("template_key")), error_message: None }
}

impl<T: Examples> Examples for ValueType<T> {
    /// The examples of `T` as given values, then a template reference.
    open spec fn is_examples(s: Seq<ValueType<T>>) -> bool {
        &&& s.len() >= 1
        &&& s.last() matches ValueType::Template(ts) && is_example_template(ts)
        &&& forall|i: int| 0 <= i < s.len() - 1 ==> #[trigger] s[i] is Normal
        &&& T::is_examples(Seq::new((s.len() - 1) as nat, |i: int| s[i]->Normal_0))
    }

    fn examples() -> (r: Vec<ValueType<T>>) {
        let mut ex = T::examples();
        let ghost es = ex@;
        let mut r: Vec<ValueType<T>> = Vec::new();
        while ex.len() > 0
            invariant
                r@.len() + ex@.len() == es.len(),
                ex@ == es.subrange(r@.len() as int, es.len() as int),
                forall|i: int| 0 <= i < r@.len() ==> #[trigger] r@[i] == ValueType::Normal(es[i]),
            decreases ex.len(),
        {
            let x = take_first(&mut ex);
            r.push(ValueType::Normal(x));
            assert(ex@ =~= es.subrange(r@.len() as int, es.len() as int));
        }
        let ghost n = r@.len();
        r.push(ValueType::Template(example_template()));
        assert(Seq::new((r@.len() - 1) as nat, |i: int| r@[i]->Normal_0) =~= es);
        r
    }
}

impl<T: Examples> Examples for Value<T> {
    /// The examples of values, each present, then the absent value.
    open spec fn is_examples(s: Seq<Value<T>>) -> bool {
        &&& s.len() >= 1
        &&& s.last() == Value::<T>(None)
        &&& forall|i: int| 0 <= i < s.len() - 1 ==> #[trigger] s[i].0 is Some
        &&& ValueType::<T>::is_examples(Seq::new((s.len() - 1) as nat, |i: int| s[i].0->Some_0))
    }

    fn examples() -> (r: Vec<Value<T>>) {
        let mut ex = ValueType::<T>::examples();
        let ghost es = ex@;
        let mut r: Vec<Value<T>> = Vec::new();
        while ex.len() > 0
            invariant
                r@.len() + ex@.len() == es.len(),
                ex@ == es.subrange(r@.len() as int, es.len() as int),
                forall|i: int| 0 <= i < r@.len() ==> #[trigger] r@[i] == Value(Some(es[i])),
            decreases ex.len(),
        {
            let x = take_first(&mut ex);
            r.push(Value(Some(x)));
            assert(ex@ =~= es.subrange(r@.len() as int, es.len() as int));
        }
        r.push(Value(None));
        assert(Seq::new((r@.len() - 1) as nat, |i: int| r@[i].0->Some_0) =~= es);
        r
    }
}

impl<T: Examples> Examples for Noneable<T> {
    open spec fn spec_examples() -> Seq<Noneable<T>> {
        T::spec_examples().map_values(|e: T| Noneable::NotNone(e)).push(Noneable::NoneValue)
    }

    open spec fn fixed_examples() -> bool {
        T::fixed_examples()
    }

    /// The examples of `T` as present values, then the absent value.
    open spec fn is_examples(s: Seq<Noneable<T>>) -> bool {
        &&& s.len() >= 1
        &&& s.last() == Noneable::<T>::NoneValue
        &&& forall|i: int| 0 <= i < s.len() - 1 ==> #[trigger] s[i] is NotNone
        &&& T::is_examples(Seq::new((s.len() - 1) as nat, |i: int| s[i]->NotNone_0))
    }

    fn examples() -> (r: Vec<Noneable<T>>) {
        let mut ex = T::examples();
        let ghost es = ex@;
        let mut r: Vec<Noneable<T>> = Vec::new();
        while ex.len() > 0
            invariant
                r@.len() + ex@.len() == es.len(),
                ex@ == es.subrange(r@.len() as int, es.len() as int),
                forall|i: int| 0 <= i < r@.len() ==> #[trigger] r@[i] == Noneable::NotNone(es[i]),
            decreases ex.len(),
        {
            let x = take_first(&mut ex);
            r.push(Noneable::NotNone(x));
            assert(ex@ =~= es.subrange(r@.len() as int, es.len() as int));
        }
        r.push(Noneable::NoneValue);
        assert(Seq::new((r@.len() - 1) as nat, |i: int| r@[i]->NotNone_0) =~= es);
        proof {
            if T::fixed_examples() {
                assert(r@ =~= T::spec_examples().map_values(|e: T| Noneable::NotNone(e)).push(
                    Noneable::NoneValue,
                ));
            }
        }
        r
    }
}

impl<T: Examples> Examples for Box<T> {
    open spec fn spec_examples() -> Seq<Box<T>> {
        T::spec_examples().map_values(|e: T| Box::new(e))
    }

    open spec fn fixed_examples() -> bool {
        T::fixed_examples()
    }

    /// The examples of `T`, boxed.
    open spec fn is_examples(s: Seq<Box<T>>) -> bool {
        T::is_examples(s.map_values(|b: Box<T>| *b))
    }

    fn examples() -> (r: Vec<Box<T>>) {
        let mut ex = T::examples();
        let ghost es = ex@;
        let mut r: Vec<Box<T>> = Vec::new();
        while ex.len() > 0
            invariant
                r@.len() + ex@.len() == es.len(),
                ex@ == es.subrange(r@.len() as int, es.len() as int),
                forall|i: int| 0 <= i < r@.len() ==> #[trigger] r@[i] == Box::new(es[i]),
            decreases ex.len(),
        {
            let x = take_first(&mut ex);
            r.push(Box::new(x));
            assert(ex@ =~= es.subrange(r@.len() as int, es.len() as int));
        }
        assert(r@.map_values(|b: Box<T>| *b) =~= es);
        proof {
            if T::fixed_examples() {
                assert(r@ =~= T::spec_examples().map_values(|e: T| Box::new(e)));
            }
        }
        r
    }
}

impl<A: Examples> Examples for Vec<A> {
    /// One example: the list of examples of `A`.
    open spec fn is_examples(s: Seq<Vec<A>>) -> bool {
        s.len() == 1 && A::is_examples(s[0]@)
    }

    fn examples() -> (r: Vec<Vec<A>>) {
        let mut r = Vec::new();
        r.push(A::examples());
        r
    }
}


/// Pairs the elements of two lists, as far as both go.
fn zip2<A, B>(a: Vec<A>, b: Vec<B>) -> (r: Vec<(A, B)>)
    ensures
        r@.len() == if a@.len() <= b@.len() { a@.len() } else { b@.len() },
        forall|i: int| 0 <= i < r@.len() ==> #[trigger] r@[i] == (a@[i], b@[i]),
{
    let ghost (sa, sb) = (a@, b@);
    let mut a = a;
    let mut b = b;
    let mut r: Vec<(A, B)> = Vec::new();
    while a.len() > 0 && b.len() > 0
        invariant
            a@ == sa.subrange(r@.len() as int, sa.len() as int),
            b@ == sb.subrange(r@.len() as int, sb.len() as int),
            r@.len() <= sa.len(),
            r@.len() <= sb.len(),
            forall|i: int| 0 <= i < r@.len() ==> #[trigger] r@[i] == (sa[i], sb[i]),
        decreases a.len(),
    {
        let x = take_first(&mut a);
        let y = take_first(&mut b);
        r.push((x, y));
        assert(a@ =~= sa.subrange(r@.len() as int, sa.len() as int));
        assert(b@ =~= sb.subrange(r@.len() as int, sb.len() as int));
    }
    r
}

/// The examples of a pair: the examples of both parts side by side, the shorter list repeated
/// from its start, as many as the longer list has. Empty when one part has no examples.
pub open spec fn pair_examples<A, B>(sa: Seq<A>, sb: Seq<B>) -> Seq<(A, B)> {
    if sa.len() == 0 || sb.len() == 0 {
        Seq::empty()
    } else {
        let n = if sa.len() >= sb.len() { sa.len() } else { sb.len() };
        Seq::new(n, |i: int| (sa[i % (sa.len() as int)], sb[i % (sb.len() as int)]))
    }
}

impl<A: Examples> Examples for (A,) {
    open spec fn spec_examples() -> Seq<(A,)> {
        A::spec_examples().map_values(|a: A| (a,))
    }

    open spec fn fixed_examples() -> bool {
        A::fixed_examples()
    }

    /// The examples of `A`, each in a tuple.
    open spec fn is_examples(s: Seq<(A,)>) -> bool {
        A::is_examples(s.map_values(|t: (A,)| t.0))
    }

    fn examples() -> (r: Vec<(A,)>) {
        let mut ex = A::examples();
        let ghost es = ex@;
        let mut r: Vec<(A,)> = Vec::new();
        while ex.len() > 0
            invariant
                r@.len() + ex@.len() == es.len(),
                ex@ == es.subrange(r@.len() as int, es.len() as int),
                forall|i: int| 0 <= i < r@.len() ==> #[trigger] r@[i] == (es[i],),
            decreases ex.len(),
        {
            let x = take_first(&mut ex);
            r.push((x,));
            assert(ex@ =~= es.subrange(r@.len() as int, es.len() as int));
        }
        assert(r@.map_values(|t: (A,)| t.0) =~= es);
        proof {
            if A::fixed_examples() {
                assert(r@ =~= A::spec_examples().map_values(|a: A| (a,)));
            }
        }
        r
    }
}

impl<A: Examples, B: Examples> Examples for (A, B) {
    open spec fn spec_examples() -> Seq<(A, B)> {
        pair_examples(A::spec_examples(), B::spec_examples())
    }

    open spec fn fixed_examples() -> bool {
        A::fixed_examples() && B::fixed_examples()
    }

    fn examples() -> (r: Vec<(A, B)>) {
        let la = A::examples().len();
        let lb = B::examples().len();
        if la == 0 || lb == 0 {
            let r = Vec::new();
            assert(Self::fixed_examples() ==> r@ =~= Self::spec_examples());
            return r;
        }
        let n = if la >= lb { la } else { lb };
        let a = cycled::<A>(n);
        let b = cycled::<B>(n);
        let r = zip2(a, b);
        proof {
            if Self::fixed_examples() {
                assert(r@ =~= Self::spec_examples());
            }
        }
        r
    }
}

/// Puts three lists side by side, as far as all go.
fn zip3<A, B, C>(a: Vec<A>, b: Vec<B>, c: Vec<C>) -> (r: Vec<(A, B, C)>)
    requires
        a@.len() == b@.len(),
        b@.len() == c@.len(),
    ensures
        r@.len() == a@.len(),
        forall|i: int| 0 <= i < r@.len() ==> #[trigger] r@[i] == (a@[i], b@[i], c@[i]),
{
    let ghost (sa, sb, sc) = (a@, b@, c@);
    let mut a = a;
    let mut b = b;
    let mut c = c;
    let mut r: Vec<(A, B, C)> = Vec::new();
    while a.len() > 0
        invariant
            r@.len() <= sa.len(),
            sa.len() == sb.len(),
            sb.len() == sc.len(),
            a@ == sa.subrange(r@.len() as int, sa.len() as int),
            b@ == sb.subrange(r@.len() as int, sb.len() as int),
            c@ == sc.subrange(r@.len() as int, sc.len() as int),
            forall|i: int| 0 <= i < r@.len() ==> #[trigger] r@[i] == (sa[i], sb[i], sc[i]),
        decreases a.len(),
    {
        let x = take_first(&mut a);
        let y = take_first(&mut b);
        let z = take_first(&mut c);
        r.push((x, y, z));
        assert(a@ =~= sa.subrange(r@.len() as int, sa.len() as int));
        assert(b@ =~= sb.subrange(r@.len() as int, sb.len() as int));
        assert(c@ =~= sc.subrange(r@.len() as int, sc.len() as int));
    }
    r
}

/// The examples of a triple: the examples of the parts side by side, shorter lists repeated from
/// their start, as many as the longest list has. Empty when a part has no examples.
pub open spec fn triple_examples<A, B, C>(sa: Seq<A>, sb: Seq<B>, sc: Seq<C>) -> Seq<(A, B, C)> {
    if sa.len() == 0 || sb.len() == 0 || sc.len() == 0 {
        Seq::empty()
    } else {
        let m = if sa.len() >= sb.len() { sa.len() } else { sb.len() };
        let n = if m >= sc.len() { m } else { sc.len() };
        Seq::new(
            n,
            |i: int|
                (sa[i % (sa.len() as int)], sb[i % (sb.len() as int)], sc[i % (sc.len() as int)]),
        )
    }
}

impl<A: Examples, B: Examples, C: Examples> Examples for (A, B, C) {
    open spec fn spec_examples() -> Seq<(A, B, C)> {
        triple_examples(A::spec_examples(), B::spec_examples(), C::spec_examples())
    }

    open spec fn fixed_examples() -> bool {
        A::fixed_examples() && B::fixed_examples() && C::fixed_examples()
    }

    fn examples() -> (r: Vec<(A, B, C)>) {
        let la = A::examples().len();
        let lb = B::examples().len();
        let lc = C::examples().len();
        if la == 0 || lb == 0 || lc == 0 {
            let r = Vec::new();
            assert(Self::fixed_examples() ==> r@ =~= Self::spec_examples());
            return r;
        }
        let m = if la >= lb { la } else { lb };
        let n = if m >= lc { m } else { lc };
        let a = cycled::<A>(n);
        let b = cycled::<B>(n);
        let c = cycled::<C>(n);
        if a.len() != n || b.len() != n || c.len() != n {
            return Vec::new();
        }
        let r = zip3(a, b, c);
        proof {
            if Self::fixed_examples() {
                assert(r@ =~= Self::spec_examples());
            }
        }
        r
    }
}

/// Turns a list of exactly `N` elements into an array.
#[verifier::external_body]
fn convert_vec_to_array<T, const N: usize>(v: Vec<T>) -> (r: [T; N])
    requires
        v@.len() == N,
    ensures
        r@ == v@,
{
    let r: Result<[T; N], Vec<T>> = v.try_into();
    r.ok().unwrap()
}

/// The `c`-th group of `n` elements of `s`.
pub open spec fn chunk<A>(s: Seq<A>, n: nat, c: int) -> Seq<A> {
    s.subrange(c * n, c * n + n)
}

/// The number of examples that arrays of length `n` use: the examples of the element type
/// repeated from the start up to the next multiple of `n`.
pub open spec fn padded_len(la: nat, n: nat) -> nat {
    if la % n == 0 {
        la
    } else {
        (la / n + 1) * n
    }
}

/// How many groups of `n` the examples of a type fill once repeated up to the next multiple of
/// `n`; `None` when that many examples would not fit in memory.
fn groups_for(la: usize, n: usize) -> (r: Option<usize>)
    requires
        n > 0,
    ensures
        match r {
            Some(m) => m * n == padded_len(la as nat, n as nat) && m * n <= usize::MAX,
            None => padded_len(la as nat, n as nat) > usize::MAX,
        },
{
    let q = la / n;
    proof {
        vstd::arithmetic::div_mod::lemma_fundamental_div_mod(la as int, n as int);
    }
    if la % n == 0 {
        assert(q * n == la) by (nonlinear_arith)
            requires
                la == n * q + la % n,
                la % n == 0,
        ;
        return Some(q);
    }
    if q == usize::MAX {
        assert((q + 1) * n >= q + 1) by (nonlinear_arith)
            requires
                n > 0,
                q >= 0,
        ;
        return None;
    }
    let m = q + 1;
    match m.checked_mul(n) {
        Some(_) => Some(m),
        None => None,
    }
}

impl<A: Examples, const N: usize> Examples for [A; N] {
    /// With fixed examples of `A`: the examples of `A`, repeated from the start up to the next
    /// multiple of `N`, cut into groups of `N`.
    open spec fn is_examples(s: Seq<[A; N]>) -> bool {
        A::fixed_examples() && N > 0 && A::spec_examples().len() > 0 && padded_len(
            A::spec_examples().len(),
            N as nat,
        ) <= usize::MAX ==> {
            let total = padded_len(A::spec_examples().len(), N as nat);
            &&& s.len() * N == total
            &&& forall|c: int|
                0 <= c < s.len() ==> #[trigger] s[c]@ == chunk(
                    cycle(A::spec_examples(), total),
                    N as nat,
                    c,
                )
        }
    }

    fn examples() -> (r: Vec<[A; N]>) {
        if N == 0 {
            return Vec::new();
        }
        let la = A::examples().len();
        if la == 0 {
            return Vec::new();
        }
        let m = match groups_for(la, N) {
            Some(m) => m,
            None => {
                return Vec::new();
            },
        };
        let total = m * N;
        let ghost fixed = A::fixed_examples() && A::spec_examples().len() > 0;
        let ghost cyc = cycle(A::spec_examples(), total as nat);
        let mut all = cycled::<A>(total);
        if all.len() != total {
            return Vec::new();
        }
        proof {
            assert(total - 0 * N == (m - 0) * N) by (nonlinear_arith)
                requires
                    total == m * N,
            ;
            if fixed {
                assert(cyc.subrange(0, total as int) =~= cyc);
            }
        }
        let mut r: Vec<[A; N]> = Vec::new();
        while r.len() < m
            invariant
                N > 0,
                r@.len() <= m,
                m * N == total,
                all@.len() == (m - r@.len()) * N,
                fixed == (A::fixed_examples() && A::spec_examples().len() > 0),
                cyc == cycle(A::spec_examples(), total as nat),
                fixed ==> all@ == cyc.subrange(r@.len() * N, total as int),
                fixed ==> forall|c: int|
                    0 <= c < r@.len() ==> #[trigger] r@[c]@ == chunk(cyc, N as nat, c),
            decreases m - r@.len(),
        {
            let ghost before = all@;
            let ghost k = r@.len();
            proof {
                assert((m - k) * N >= N) by (nonlinear_arith)
                    requires
                        m - k >= 1,
                        N > 0,
                ;
            }
            let mut part: Vec<A> = Vec::new();
            let mut j: usize = 0;
            while j < N
                invariant
                    j <= N,
                    N <= before.len(),
                    part@ == before.take(j as int),
                    all@ == before.subrange(j as int, before.len() as int),
                decreases N - j,
            {
                let x = take_first(&mut all);
                part.push(x);
                assert(part@ =~= before.take(j + 1));
                assert(all@ =~= before.subrange(j + 1, before.len() as int));
                j += 1;
            }
            let arr = convert_vec_to_array::<A, N>(part);
            proof {
                assert((m - k) * N == (m - (k + 1)) * N + N) by (nonlinear_arith);
                assert(k * N + N == (k + 1) * N) by (nonlinear_arith);
                assert(m * N - k * N == (m - k) * N) by (nonlinear_arith);
                if fixed {
                    assert(arr@ =~= chunk(cyc, N as nat, k as int));
                }
            }
            r.push(arr);
            proof {
                if fixed {
                    assert(all@ =~= cyc.subrange(r@.len() * N, total as int));
                }
            }
        }
        r
    }
}

/// The pairs of the elements at the same positions, as far as both lists go.
pub open spec fn zip_spec<A, B>(sa: Seq<A>, sb: Seq<B>) -> Seq<(A, B)> {
    let n = if sa.len() <= sb.len() { sa.len() } else { sb.len() };
    Seq::new(n, |i: int| (sa[i], sb[i]))
}

/// The map made by inserting the pairs in order: a later pair replaces an earlier one with the
/// same key.
pub open spec fn map_of_pairs<A, B>(pairs: Seq<(A, B)>) -> Map<A, B>
    decreases pairs.len(),
{
    if pairs.len() == 0 {
        Map::empty()
    } else {
        map_of_pairs(pairs.drop_last()).insert(pairs.last().0, pairs.last().1)
    }
}

/// `count` maps, each pairing the keys with the next values, as far as the values go.
pub open spec fn value_maps<A, B>(sa: Seq<A>, rest: Seq<B>, count: nat) -> Seq<Map<A, B>>
    decreases count,
{
    if count == 0 {
        Seq::empty()
    } else {
        let used = if sa.len() <= rest.len() { sa.len() } else { rest.len() };
        seq![map_of_pairs(zip_spec(sa, rest))] + value_maps(sa, rest.skip(used as int), (count - 1) as nat)
    }
}

/// The examples of maps: with at least as many keys as values, one map of the pairs of
/// examples; otherwise as many maps as it takes to use each value once, each pairing the keys
/// with the next values.
pub open spec fn map_examples<A, B>(sa: Seq<A>, sb: Seq<B>) -> Seq<Map<A, B>> {
    if sa.len() >= sb.len() {
        seq![map_of_pairs(pair_examples(sa, sb))]
    } else {
        let count = if sb.len() % sa.len() == 0 {
            sb.len() / sa.len()
        } else {
            sb.len() / sa.len() + 1
        };
        value_maps(sa, sb, count)
    }
}

/// The map of the pairs, inserted in order.
fn collect_map<A: std::hash::Hash + Eq, B>(pairs: Vec<(A, B)>) -> (r: std::collections::HashMap<A, B>)
    ensures
        vstd::std_specs::hash::obeys_key_model::<A>() ==> r@ == map_of_pairs(pairs@),
{
    let ghost all = pairs@;
    let mut rest = pairs;
    let mut m: std::collections::HashMap<A, B> = std::collections::HashMap::new();
    let mut k: usize = 0;
    let n = rest.len();
    assert(all.take(0) =~= Seq::<(A, B)>::empty());
    while rest.len() > 0
        invariant
            k + rest@.len() == all.len(),
            all.len() == n,
            rest@ == all.skip(k as int),
            vstd::std_specs::hash::obeys_key_model::<A>() ==> m@ == map_of_pairs(all.take(k as int)),
        decreases rest@.len(),
    {
        let (a, b) = take_first(&mut rest);
        assert(all.take(k + 1).drop_last() =~= all.take(k as int));
        assert(all.take(k + 1).last() == all[k as int]);
        m.insert(a, b);
        k += 1;
        assert(rest@ =~= all.skip(k as int));
    }
    assert(all.take(all.len() as int) =~= all);
    m
}

impl<A: Examples + std::hash::Hash + Eq, B: Examples> Examples for std::collections::HashMap<A, B> {
    /// With fixed examples of keys and values and keys that behave as values: the maps of
    /// `map_examples`.
    open spec fn is_examples(s: Seq<std::collections::HashMap<A, B>>) -> bool {
        A::fixed_examples() && B::fixed_examples() && A::spec_examples().len() > 0
            && vstd::std_specs::hash::obeys_key_model::<A>() ==> s.map_values(
            |m: std::collections::HashMap<A, B>| m@,
        ) == map_examples(A::spec_examples(), B::spec_examples())
    }

    fn examples() -> (r: Vec<std::collections::HashMap<A, B>>) {
        let la = A::examples().len();
        let mut values = B::examples();
        let lb = values.len();
        let ghost fixed = A::fixed_examples() && B::fixed_examples() && A::spec_examples().len() > 0
            && vstd::std_specs::hash::obeys_key_model::<A>();
        let ghost sa = A::spec_examples();
        let ghost sb = B::spec_examples();
        if la >= lb {
            let pairs = <(A, B)>::examples();
            let mut r = Vec::new();
            r.push(collect_map(pairs));
            proof {
                if fixed {
                    assert(r@.map_values(|m: std::collections::HashMap<A, B>| m@) =~= seq![
                        map_of_pairs(pair_examples(sa, sb)),
                    ]);
                }
            }
            return r;
        }
        if la == 0 {
            return Vec::new();
        }
        let count = if lb % la == 0 {
            lb / la
        } else {
            assert(la != 1) by {
                if la == 1 {
                    assert(lb % 1 == 0) by (nonlinear_arith);
                }
            }
            assert(lb / la < lb) by (nonlinear_arith)
                requires
                    la >= 2,
                    lb >= 1,
            ;
            lb / la + 1
        };
        let mut r: Vec<std::collections::HashMap<A, B>> = Vec::new();
        let mut i: usize = 0;
        let ghost total = count as nat;
        proof {
            if fixed {
                assert(r@.map_values(|m: std::collections::HashMap<A, B>| m@) + value_maps(sa, values@, total)
                    =~= map_examples(sa, sb));
            }
        }
        while i < count
            invariant
                i <= count,
                fixed == (A::fixed_examples() && B::fixed_examples() && A::spec_examples().len() > 0
                    && vstd::std_specs::hash::obeys_key_model::<A>()),
                sa == A::spec_examples(),
                sb == B::spec_examples(),
                total == count,
                fixed ==> r@.map_values(|m: std::collections::HashMap<A, B>| m@) + value_maps(
                    sa,
                    values@,
                    (total - i) as nat,
                ) == map_examples(sa, sb),
            decreases count - i,
        {
            let keys = A::examples();
            let nk = keys.len();
            let ghost rest_before = values@;
            let ghost ks = keys@;
            let mut pairs: Vec<(A, B)> = Vec::new();
            let mut keys_left = keys;
            let mut used: usize = 0;
            while keys_left.len() > 0 && values.len() > 0
                invariant
                    used + keys_left@.len() == ks.len(),
                    ks.len() == nk,
                    used <= rest_before.len(),
                    keys_left@ == ks.skip(used as int),
                    values@ == rest_before.skip(used as int),
                    pairs@ == zip_spec(ks.take(used as int), rest_before.take(used as int)),
                decreases keys_left@.len(),
            {
                let a = take_first(&mut keys_left);
                let b = take_first(&mut values);
                let ghost before = pairs@;
                pairs.push((a, b));
                assert(pairs@ =~= zip_spec(ks.take(used + 1), rest_before.take(used + 1)));
                used += 1;
                assert(keys_left@ =~= ks.skip(used as int));
                assert(values@ =~= rest_before.skip(used as int));
            }
            proof {
                if fixed {
                    assert(ks == sa);
                    let u = if sa.len() <= rest_before.len() { sa.len() } else { rest_before.len() };
                    assert(used == u);
                    assert(zip_spec(ks.take(used as int), rest_before.take(used as int)) =~= zip_spec(
                        sa,
                        rest_before,
                    ));
                }
            }
            let m = collect_map(pairs);
            let ghost prev = r@.map_values(|m: std::collections::HashMap<A, B>| m@);
            r.push(m);
            proof {
                if fixed {
                    assert(r@.map_values(|m: std::collections::HashMap<A, B>| m@) =~= prev.push(
                        map_of_pairs(zip_spec(sa, rest_before)),
                    ));
                    assert(value_maps(sa, rest_before, (total - i) as nat) == seq![
                        map_of_pairs(zip_spec(sa, rest_before)),
                    ] + value_maps(sa, values@, (total - i - 1) as nat));
                    assert(prev.push(map_of_pairs(zip_spec(sa, rest_before))) + value_maps(
                        sa,
                        values@,
                        (total - i - 1) as nat,
                    ) =~= prev + value_maps(sa, rest_before, (total - i) as nat));
                }
            }
            i += 1;
        }
        proof {
            if fixed {
                assert(r@.map_values(|m: std::collections::HashMap<A, B>| m@) + Seq::<Map<A, B>>::empty()
                    =~= r@.map_values(|m: std::collections::HashMap<A, B>| m@));
            }
        }
        r
    }
}

/// The map of the pairs, inserted in order.
fn collect_btree_map<A: Ord, B>(pairs: Vec<(A, B)>) -> (r: std::collections::BTreeMap<A, B>)
    ensures
        crate::ordered::ordered_keys::<A>() ==> r@ == map_of_pairs(pairs@),
{
    let ghost all = pairs@;
    let mut rest = pairs;
    let mut m: std::collections::BTreeMap<A, B> = std::collections::BTreeMap::new();
    let mut k: usize = 0;
    let n = rest.len();
    assert(all.take(0) =~= Seq::<(A, B)>::empty());
    while rest.len() > 0
        invariant
            k + rest@.len() == all.len(),
            all.len() == n,
            rest@ == all.skip(k as int),
            crate::ordered::ordered_keys::<A>() ==> m@ == map_of_pairs(all.take(k as int)),
        decreases rest@.len(),
    {
        let (a, b) = take_first(&mut rest);
        assert(all.take(k + 1).drop_last() =~= all.take(k as int));
        assert(all.take(k + 1).last() == all[k as int]);
        m.insert(a, b);
        k += 1;
        assert(rest@ =~= all.skip(k as int));
    }
    assert(all.take(all.len() as int) =~= all);
    m
}

impl<A: Examples + Ord, B: Examples> Examples for std::collections::BTreeMap<A, B> {
    /// With fixed examples of keys and values and keys whose order is a total order that `==` agrees with: the maps of
    /// `map_examples`.
    open spec fn is_examples(s: Seq<std::collections::BTreeMap<A, B>>) -> bool {
        A::fixed_examples() && B::fixed_examples() && A::spec_examples().len() > 0
            && crate::ordered::ordered_keys::<A>() ==> s.map_values(
            |m: std::collections::BTreeMap<A, B>| m@,
        ) == map_examples(A::spec_examples(), B::spec_examples())
    }

    fn examples() -> (r: Vec<std::collections::BTreeMap<A, B>>) {
        let la = A::examples().len();
        let mut values = B::examples();
        let lb = values.len();
        let ghost fixed = A::fixed_examples() && B::fixed_examples() && A::spec_examples().len() > 0
            && crate::ordered::ordered_keys::<A>();
        let ghost sa = A::spec_examples();
        let ghost sb = B::spec_examples();
        if la >= lb {
            let pairs = <(A, B)>::examples();
            let mut r = Vec::new();
            r.push(collect_btree_map(pairs));
            proof {
                if fixed {
                    assert(r@.map_values(|m: std::collections::BTreeMap<A, B>| m@) =~= seq![
                        map_of_pairs(pair_examples(sa, sb)),
                    ]);
                }
            }
            return r;
        }
        if la == 0 {
            return Vec::new();
        }
        let count = if lb % la == 0 {
            lb / la
        } else {
            assert(la != 1) by {
                if la == 1 {
                    assert(lb % 1 == 0) by (nonlinear_arith);
                }
            }
            assert(lb / la < lb) by (nonlinear_arith)
                requires
                    la >= 2,
                    lb >= 1,
            ;
            lb / la + 1
        };
        let mut r: Vec<std::collections::BTreeMap<A, B>> = Vec::new();
        let mut i: usize = 0;
        let ghost total = count as nat;
        proof {
            if fixed {
                assert(r@.map_values(|m: std::collections::BTreeMap<A, B>| m@) + value_maps(sa, values@, total)
                    =~= map_examples(sa, sb));
            }
        }
        while i < count
            invariant
                i <= count,
                fixed == (A::fixed_examples() && B::fixed_examples() && A::spec_examples().len() > 0
                    && crate::ordered::ordered_keys::<A>()),
                sa == A::spec_examples(),
                sb == B::spec_examples(),
                total == count,
                fixed ==> r@.map_values(|m: std::collections::BTreeMap<A, B>| m@) + value_maps(
                    sa,
                    values@,
                    (total - i) as nat,
                ) == map_examples(sa, sb),
            decreases count - i,
        {
            let keys = A::examples();
            let nk = keys.len();
            let ghost rest_before = values@;
            let ghost ks = keys@;
            let mut pairs: Vec<(A, B)> = Vec::new();
            let mut keys_left = keys;
            let mut used: usize = 0;
            while keys_left.len() > 0 && values.len() > 0
                invariant
                    used + keys_left@.len() == ks.len(),
                    ks.len() == nk,
                    used <= rest_before.len(),
                    keys_left@ == ks.skip(used as int),
                    values@ == rest_before.skip(used as int),
                    pairs@ == zip_spec(ks.take(used as int), rest_before.take(used as int)),
                decreases keys_left@.len(),
            {
                let a = take_first(&mut keys_left);
                let b = take_first(&mut values);
                let ghost before = pairs@;
                pairs.push((a, b));
                assert(pairs@ =~= zip_spec(ks.take(used + 1), rest_before.take(used + 1)));
                used += 1;
                assert(keys_left@ =~= ks.skip(used as int));
                assert(values@ =~= rest_before.skip(used as int));
            }
            proof {
                if fixed {
                    assert(ks == sa);
                    let u = if sa.len() <= rest_before.len() { sa.len() } else { rest_before.len() };
                    assert(used == u);
                    assert(zip_spec(ks.take(used as int), rest_before.take(used as int)) =~= zip_spec(
                        sa,
                        rest_before,
                    ));
                }
            }
            let m = collect_btree_map(pairs);
            let ghost prev = r@.map_values(|m: std::collections::BTreeMap<A, B>| m@);
            r.push(m);
            proof {
                if fixed {
                    assert(r@.map_values(|m: std::collections::BTreeMap<A, B>| m@) =~= prev.push(
                        map_of_pairs(zip_spec(sa, rest_before)),
                    ));
                    assert(value_maps(sa, rest_before, (total - i) as nat) == seq![
                        map_of_pairs(zip_spec(sa, rest_before)),
                    ] + value_maps(sa, values@, (total - i - 1) as nat));
                    assert(prev.push(map_of_pairs(zip_spec(sa, rest_before))) + value_maps(
                        sa,
                        values@,
                        (total - i - 1) as nat,
                    ) =~= prev + value_maps(sa, rest_before, (total - i) as nat));
                }
            }
            i += 1;
        }
        proof {
            if fixed {
                assert(r@.map_values(|m: std::collections::BTreeMap<A, B>| m@) + Seq::<Map<A, B>>::empty()
                    =~= r@.map_values(|m: std::collections::BTreeMap<A, B>| m@));
            }
        }
        r
    }
}

impl Examples for JMEString {
    /// One expression: `x^5`.
    open spec fn is_examples(s: Seq<JMEString>) -> bool {
        s.len() == 1 && s[0].text@ == "x^5"@
    }

    fn examples() -> (r: Vec<JMEString>) {
        let mut r = Vec::new();
        r.push(JMEString::new("x^5"));
        r
    }
}

impl<T: Examples> Examples for VariableValued<T> {
    /// The examples of `T` as direct values, then the examples of expressions.
    open spec fn is_examples(s: Seq<VariableValued<T>>) -> bool {
        &&& s.len() >= 1
        &&& s.last() matches VariableValued::Variable(e) && e.text@ == "x^5"@
        &&& forall|i: int| 0 <= i < s.len() - 1 ==> #[trigger] s[i] is Value
        &&& T::is_examples(Seq::new((s.len() - 1) as nat, |i: int| s[i]->Value_0))
    }

    fn examples() -> (r: Vec<VariableValued<T>>) {
        let mut ex = T::examples();
        let ghost es = ex@;
        let mut r: Vec<VariableValued<T>> = Vec::new();
        while ex.len() > 0
            invariant
                r@.len() + ex@.len() == es.len(),
                ex@ == es.subrange(r@.len() as int, es.len() as int),
                forall|i: int| 0 <= i < r@.len() ==> #[trigger] r@[i] == VariableValued::Value(es[i]),
            decreases ex.len(),
        {
            let x = take_first(&mut ex);
            r.push(VariableValued::Value(x));
            assert(ex@ =~= es.subrange(r@.len() as int, es.len() as int));
        }
        let mut exprs = JMEString::examples();
        let e = take_first(&mut exprs);
        r.push(VariableValued::Variable(e));
        assert(Seq::new((r@.len() - 1) as nat, |i: int| r@[i]->Value_0) =~= es);
        r
    }
}

} // verus!
