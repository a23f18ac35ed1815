//! Sum and count of the numbers above ten in a list.
//!
//! The average that is printed from them is a floating-point division done
//! by the caller.

use vstd::prelude::*;

verus! {

/// Only numbers strictly greater than this are taken.
pub const LIMITE: i32 = 10;

/// The numbers of `s` greater than [`LIMITE`], in order.
pub open spec fn acima_do_limite(s: Seq<i32>) -> Seq<i32>
    decreases s.len(),
{
    if s.len() == 0 {
        Seq::empty()
    } else if s.last() > LIMITE {
        acima_do_limite(s.drop_last()).push(s.last())
    } else {
        acima_do_limite(s.drop_last())
    }
}

/// The sum of the numbers in `s`.
pub open spec fn soma(s: Seq<i32>) -> int
    decreases s.len(),
{
    if s.len() == 0 { 0 } else { soma(s.drop_last()) + s.last() }
}

proof fn lemma_passo(s: Seq<i32>, i: int)
    requires
        0 <= i < s.len(),
    ensures
        acima_do_limite(s.take(i + 1)) == if s[i] > LIMITE {
            acima_do_limite(s.take(i)).push(s[i])
        } else {
            acima_do_limite(s.take(i))
        },
        soma(acima_do_limite(s.take(i + 1))) == soma(acima_do_limite(s.take(i)))
            + if s[i] > LIMITE { s[i] as int } else { 0 },
{
    assert(s.take(i + 1).drop_last() =~= s.take(i));
    assert(s.take(i + 1).last() == s[i]);
    let f = acima_do_limite(s.take(i));
    assert(f.push(s[i]).drop_last() =~= f);
}

proof fn lemma_soma_cresce(s: Seq<i32>, i: int)
    requires
        0 <= i <= s.len(),
    ensures
        soma(acima_do_limite(s.take(i))) <= soma(acima_do_limite(s)),
        acima_do_limite(s.take(i)).len() <= acima_do_limite(s).len(),
    decreases s.len() - i,
{
    if i < s.len() {
        lemma_soma_cresce(s, i + 1);
        lemma_passo(s, i);
    } else {
        assert(s.take(i) =~= s);
    }
}

/// The sum and the count of the numbers greater than ten (the fold over the
/// filtered list).
pub fn soma_e_quantidade(numbers: &Vec<i32>) -> (r: (i32, i32))
    requires
        soma(acima_do_limite(numbers@)) <= i32::MAX,
        acima_do_limite(numbers@).len() <= i32::MAX,
    ensures
        r.0 == soma(acima_do_limite(numbers@)),
        r.1 == acima_do_limite(numbers@).len(),
{
    let mut total: i32 = 0;
    let mut qtd: i32 = 0;
    let mut i: usize = 0;
    proof {
        assert(numbers@.take(0) =~= Seq::<i32>::empty());
    }
    while i < numbers.len()
        invariant
            0 <= i <= numbers@.len(),
            acima_do_limite(numbers@).len() <= i32::MAX,
            soma(acima_do_limite(numbers@)) <= i32::MAX,
            total == soma(acima_do_limite(numbers@.take(i as int))),
            qtd == acima_do_limite(numbers@.take(i as int)).len(),
            0 <= total,
        decreases numbers@.len() - i,
    {
        let x = numbers[i];
        proof {
            lemma_passo(numbers@, i as int);
            lemma_soma_cresce(numbers@, i + 1);
        }
        if x > LIMITE {
            total = total + x;
            qtd = qtd + 1;
        }
        i = i + 1;
    }
    proof {
        assert(numbers@.take(numbers@.len() as int) =~= numbers@);
    }
    (total, qtd)
}

/// The filter keeps exactly the numbers greater than ten: every number it
/// gives is greater than ten, every number of `s` greater than ten is among
/// them, no number up to ten is, and it never gives more numbers than `s` has.
pub proof fn lemma_acima_de_dez(s: Seq<i32>)
    ensures
        acima_do_limite(s).len() <= s.len(),
        forall|i: int| 0 <= i < acima_do_limite(s).len() ==> #[trigger] acima_do_limite(s)[i] > 10,
        forall|i: int| 0 <= i < s.len() && #[trigger] s[i] > 10 ==> acima_do_limite(s).contains(s[i]),
        forall|i: int| 0 <= i < s.len() && #[trigger] s[i] <= 10 ==> !acima_do_limite(s).contains(s[i]),
    decreases s.len(),
{
    if s.len() > 0 {
        let anterior = s.drop_last();
        lemma_acima_de_dez(anterior);
        let r0 = acima_do_limite(anterior);
        let r = acima_do_limite(s);
        assert forall|i: int| 0 <= i < r.len() implies #[trigger] r[i] > 10 by {
            if i < r0.len() {
                assert(r[i] == r0[i]);
            }
        }
        assert forall|i: int| 0 <= i < s.len() && #[trigger] s[i] > 10 implies r.contains(s[i]) by {
            if i < s.len() - 1 {
                assert(anterior[i] == s[i]);
                let k = choose|k: int| 0 <= k < r0.len() && #[trigger] r0[k] == s[i];
                assert(r[k] == r0[k]);
            } else {
                assert(r[r.len() - 1] == s.last());
            }
        }
        assert forall|i: int| 0 <= i < s.len() && #[trigger] s[i] <= 10 implies !r.contains(s[i]) by {
            if r.contains(s[i]) {
                let k = choose|k: int| 0 <= k < r.len() && #[trigger] r[k] == s[i];
                assert(r[k] > 10);
            }
        }
    }
}

/// The sum of the numbers taken is their plain sum: adding one more number
/// to the list adds it to the sum when it is greater than ten and leaves
/// the sum unchanged otherwise.
pub proof fn lemma_soma_passo(s: Seq<i32>, x: i32)
    ensures
        soma(acima_do_limite(s.push(x))) == soma(acima_do_limite(s)) + if x > 10 { x as int } else { 0 },
        acima_do_limite(s.push(x)).len() == acima_do_limite(s).len() + if x > 10 { 1int } else { 0int },
{
    assert(s.push(x).drop_last() =~= s);
    let f = acima_do_limite(s);
    assert(f.push(x).drop_last() =~= f);
}

} // verus!
