//! Greeting a person by the name they typed.

use vstd::prelude::*;
use vstd::string::StringExecFns;
use crate::texto::{espaco_em_branco, eh_espaco, empurra};

verus! {

/// `s` without its leading whitespace.
pub open spec fn sem_espacos_no_inicio(s: Seq<char>) -> Seq<char>
    decreases s.len(),
{
    if s.len() > 0 && espaco_em_branco(s[0]) {
        sem_espacos_no_inicio(s.drop_first())
    } else {
        s
    }
}

/// `s` without its trailing whitespace.
pub open spec fn sem_espacos_no_fim(s: Seq<char>) -> Seq<char>
    decreases s.len(),
{
    if s.len() > 0 && espaco_em_branco(s.last()) {
        sem_espacos_no_fim(s.drop_last())
    } else {
        s
    }
}

/// `s` without leading and trailing whitespace (what `str::trim` gives).
pub open spec fn aparada(s: Seq<char>) -> Seq<char> {
    sem_espacos_no_fim(sem_espacos_no_inicio(s))
}

/// Removes the leading and trailing whitespace of `s`.
pub fn apara(s: &str) -> (r: String)
    ensures
        r@ == aparada(s@),
{
    let mut v: Vec<char> = Vec::new();
    for c in it: s.chars()
        invariant
            it.seq() == s@,
            0 <= it.index() <= s@.len(),
            v@ == s@.take(it.index()),
    {
        v.push(c);
        proof {
            assert(v@ =~= s@.take(it.index() + 1));
        }
    }
    proof {
        assert(v@ =~= s@);
    }
    let n = v.len();
    let mut a: usize = 0;
    proof {
        assert(v@.skip(0) =~= v@);
    }
    while a < n && eh_espaco(v[a])
        invariant
            n == v@.len(),
            0 <= a <= n,
            sem_espacos_no_inicio(v@) == sem_espacos_no_inicio(v@.skip(a as int)),
        decreases n - a,
    {
        proof {
            assert(v@.skip(a as int).drop_first() =~= v@.skip(a + 1));
        }
        a = a + 1;
    }
    proof {
        assert(sem_espacos_no_inicio(v@.skip(a as int)) == v@.skip(a as int));
        assert(v@.skip(a as int) =~= v@.subrange(a as int, n as int));
    }
    let mut b: usize = n;
    while b > a && eh_espaco(v[b - 1])
        invariant
            n == v@.len(),
            0 <= a <= b <= n,
            aparada(v@) == sem_espacos_no_fim(v@.subrange(a as int, b as int)),
        decreases b - a,
    {
        proof {
            assert(v@.subrange(a as int, b as int).drop_last() =~= v@.subrange(a as int, b - 1));
        }
        b = b - 1;
    }
    let mut r = String::new();
    let mut k: usize = a;
    while k < b
        invariant
            n == v@.len(),
            0 <= a <= k <= b <= n,
            r@ == v@.subrange(a as int, k as int),
        decreases b - k,
    {
        empurra(&mut r, v[k]);
        proof {
            assert(r@ =~= v@.subrange(a as int, k + 1));
        }
        k = k + 1;
    }
    r
}

/// The greeting for the name typed in `entrada` (surrounding whitespace,
/// such as the final newline, is ignored).
pub fn saudacao(entrada: &str) -> (r: String)
    ensures
        r@ == "Hello, "@ + aparada(entrada@) + "!"@,
{
    let nome = apara(entrada);
    let mut r = String::from_str("Hello, ");
    r.append(nome.as_str());
    r.append("!");
    r
}

proof fn lemma_inicio(s: Seq<char>) -> (a: int)
    ensures
        0 <= a <= s.len(),
        sem_espacos_no_inicio(s) == s.skip(a),
        forall|i: int| 0 <= i < a ==> espaco_em_branco(#[trigger] s[i]),
        a < s.len() ==> !espaco_em_branco(s[a]),
    decreases s.len(),
{
    if s.len() > 0 && espaco_em_branco(s[0]) {
        let resto = s.drop_first();
        let a1 = lemma_inicio(resto);
        assert(resto.skip(a1) =~= s.skip(a1 + 1));
        assert forall|i: int| 0 <= i < a1 + 1 implies espaco_em_branco(#[trigger] s[i]) by {
            if i > 0 {
                assert(s[i] == resto[i - 1]);
            }
        }
        if a1 + 1 < s.len() {
            assert(s[a1 + 1] == resto[a1]);
        }
        a1 + 1
    } else {
        assert(s.skip(0) =~= s);
        0
    }
}

proof fn lemma_fim(t: Seq<char>) -> (b: int)
    ensures
        0 <= b <= t.len(),
        sem_espacos_no_fim(t) == t.take(b),
        forall|i: int| b <= i < t.len() ==> espaco_em_branco(#[trigger] t[i]),
        b > 0 ==> !espaco_em_branco(t[b - 1]),
    decreases t.len(),
{
    if t.len() > 0 && espaco_em_branco(t.last()) {
        let resto = t.drop_last();
        let b1 = lemma_fim(resto);
        assert(resto.take(b1) =~= t.take(b1));
        assert forall|i: int| b1 <= i < t.len() implies espaco_em_branco(#[trigger] t[i]) by {
            if i < t.len() - 1 {
                assert(t[i] == resto[i]);
            }
        }
        if b1 > 0 {
            assert(t[b1 - 1] == resto[b1 - 1]);
        }
        b1
    } else {
        assert(t.take(t.len() as int) =~= t);
        t.len() as int
    }
}

/// Trimming only removes whitespace at the two ends: the trimmed text is a
/// contiguous piece `s[a..b]` of `s`, everything before `a` and from `b` on
/// is whitespace, and the piece (when not empty) neither starts nor ends
/// with whitespace. So no character other than whitespace is ever dropped.
pub proof fn lemma_apara_so_tira_espacos(s: Seq<char>)
    ensures
        exists|a: int, b: int|
            #![trigger s.subrange(a, b)]
            {
                &&& 0 <= a <= b <= s.len()
                &&& aparada(s) == s.subrange(a, b)
                &&& forall|i: int| 0 <= i < a ==> espaco_em_branco(#[trigger] s[i])
                &&& forall|i: int| b <= i < s.len() ==> espaco_em_branco(#[trigger] s[i])
                &&& a < b ==> !espaco_em_branco(s[a]) && !espaco_em_branco(s[b - 1])
            },
{
    let a = lemma_inicio(s);
    let t = s.skip(a);
    let bt = lemma_fim(t);
    let b = a + bt;
    assert(t.take(bt) =~= s.subrange(a, b));
    assert forall|i: int| b <= i < s.len() implies espaco_em_branco(#[trigger] s[i]) by {
        assert(s[i] == t[i - a]);
    }
    if a < b {
        assert(s[b - 1] == t[bt - 1]);
    }
    assert(aparada(s) == s.subrange(a, b));
}

} // verus!
