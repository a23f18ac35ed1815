//! Word frequencies of a line of text.
//!
//! The text is split at whitespace; each word is lowercased and stripped of
//! every character that is not alphanumeric; then equal words are counted.

use vstd::prelude::*;
use crate::texto::{espaco_em_branco, alfanumerico, minusculas, eh_espaco, eh_alfanumerico, para_minusculas, empurra};

verus! {

/// The word being read, closed: one word if it is not empty, none otherwise.
pub open spec fn fecha(atual: Seq<char>) -> Seq<Seq<char>> {
    if atual.len() > 0 { seq![atual] } else { Seq::empty() }
}

/// The words of `s` when `atual` has already been read of the current word.
pub open spec fn palavras_apos(s: Seq<char>, atual: Seq<char>) -> Seq<Seq<char>>
    decreases s.len(),
{
    if s.len() == 0 {
        fecha(atual)
    } else if espaco_em_branco(s[0]) {
        fecha(atual) + palavras_apos(s.drop_first(), Seq::empty())
    } else {
        palavras_apos(s.drop_first(), atual.push(s[0]))
    }
}

/// The maximal runs of non-whitespace characters of `s`, in order (what
/// `str::split_whitespace` yields).
pub open spec fn palavras(s: Seq<char>) -> Seq<Seq<char>> {
    palavras_apos(s, Seq::empty())
}

/// The characters of `s` that are alphanumeric, in order.
pub open spec fn so_alfanumericos(s: Seq<char>) -> Seq<char>
    decreases s.len(),
{
    if s.len() == 0 {
        Seq::empty()
    } else if alfanumerico(s.last()) {
        so_alfanumericos(s.drop_last()).push(s.last())
    } else {
        so_alfanumericos(s.drop_last())
    }
}

/// A word as it is counted: lowercased, then only its alphanumeric characters.
pub open spec fn normalizada(w: Seq<char>) -> Seq<char> {
    so_alfanumericos(minusculas(w))
}

/// The counted words of `s`, in order.
pub open spec fn palavras_normalizadas(s: Seq<char>) -> Seq<Seq<char>> {
    palavras(s).map_values(|w: Seq<char>| normalizada(w))
}

/// How many times `w` occurs in `ws`.
pub open spec fn ocorrencias(ws: Seq<Seq<char>>, w: Seq<char>) -> nat
    decreases ws.len(),
{
    if ws.len() == 0 {
        0
    } else {
        ocorrencias(ws.drop_last(), w) + if ws.last() == w { 1nat } else { 0nat }
    }
}

proof fn lemma_ocorrencias_limitadas(ws: Seq<Seq<char>>, w: Seq<char>)
    ensures
        ocorrencias(ws, w) <= ws.len(),
    decreases ws.len(),
{
    if ws.len() > 0 {
        lemma_ocorrencias_limitadas(ws.drop_last(), w);
    }
}

/// Splits `texto` at whitespace, dropping empty pieces.
pub fn separa_palavras(texto: &str) -> (r: Vec<String>)
    ensures
        r.deep_view() == palavras(texto@),
{
    let mut r: Vec<String> = Vec::new();
    let mut atual = String::new();
    proof {
        assert(texto@.skip(0) =~= texto@);
        assert(r.deep_view() =~= Seq::<Seq<char>>::empty());
        assert(r.deep_view() + palavras(texto@) =~= palavras(texto@));
    }
    for c in it: texto.chars()
        invariant
            it.seq() == texto@,
            0 <= it.index() <= texto@.len(),
            r.deep_view() + palavras_apos(texto@.skip(it.index()), atual@) == palavras(texto@),
    {
        let ghost i = it.index();
        let ghost antes = r.deep_view();
        let ghost atual_antes = atual@;
        assert(texto@.skip(i).drop_first() =~= texto@.skip(i + 1));
        assert(texto@.skip(i)[0] == c);
        assert(texto@.skip(i).len() > 0);
        let espaco = eh_espaco(c);
        proof {
            if espaco {
                assert(palavras_apos(texto@.skip(i), atual_antes)
                    == fecha(atual_antes) + palavras_apos(texto@.skip(i + 1), Seq::empty()));
            } else {
                assert(palavras_apos(texto@.skip(i), atual_antes)
                    == palavras_apos(texto@.skip(i + 1), atual_antes.push(c)));
            }
        }
        if espaco {
            if !atual.as_str().is_empty() {
                let mut palavra = String::new();
                std::mem::swap(&mut palavra, &mut atual);
                r.push(palavra);
                assert(r.deep_view() =~= antes + seq![atual_antes]);
            }
            assert(r.deep_view() =~= antes + fecha(atual_antes));
            assert(atual@ =~= Seq::<char>::empty());
            assert(r.deep_view() + palavras_apos(texto@.skip(i + 1), atual@)
                =~= antes + (fecha(atual_antes) + palavras_apos(texto@.skip(i + 1), Seq::empty())));
        } else {
            empurra(&mut atual, c);
        }
    }
    proof {
        assert(texto@.skip(texto@.len() as int) =~= Seq::<char>::empty());
    }
    if !atual.as_str().is_empty() {
        let ghost antes = r.deep_view();
        let ghost atual_antes = atual@;
        r.push(atual);
        assert(r.deep_view() =~= antes + fecha(atual_antes));
    } else {
        assert(r.deep_view() =~= r.deep_view() + fecha(atual@));
    }
    r
}

/// Lowercases `palavra` and keeps only its alphanumeric characters.
pub fn normaliza_palavra(palavra: &str) -> (r: String)
    ensures
        r@ == normalizada(palavra@),
{
    let minuscula = para_minusculas(palavra);
    let mut r = String::new();
    proof {
        assert(minuscula@.take(0) =~= Seq::<char>::empty());
    }
    for c in it: minuscula.as_str().chars()
        invariant
            it.seq() == minuscula@,
            0 <= it.index() <= minuscula@.len(),
            r@ == so_alfanumericos(minuscula@.take(it.index())),
    {
        let ghost i = it.index();
        assert(minuscula@.take(i + 1).drop_last() =~= minuscula@.take(i));
        assert(minuscula@.take(i + 1).last() == c);
        if eh_alfanumerico(c) {
            empurra(&mut r, c);
        }
    }
    proof {
        assert(minuscula@.take(minuscula@.len() as int) =~= minuscula@);
    }
    r
}

/// Whether `chaves` holds no key twice.
pub open spec fn sem_repeticao(chaves: Seq<Seq<char>>) -> bool {
    forall|i: int, j: int| 0 <= i < j < chaves.len() ==> chaves[i] != chaves[j]
}

/// `contagem` counts the words `ws` exactly: its keys are distinct, each key
/// is a word of `ws` counted as often as it occurs there, and every word of
/// `ws` is a key.
pub open spec fn contagem_exata(contagem: Seq<(Seq<char>, i32)>, ws: Seq<Seq<char>>) -> bool {
    &&& sem_repeticao(contagem.map_values(|par: (Seq<char>, i32)| par.0))
    &&& forall|k: int| 0 <= k < contagem.len() ==>
        #[trigger] contagem[k].1 == ocorrencias(ws, contagem[k].0) && contagem[k].1 >= 1
    &&& forall|w: Seq<char>| #[trigger] ws.contains(w) ==>
        exists|k: int| 0 <= k < contagem.len() && #[trigger] contagem[k].0 == w
}

proof fn lemma_ocorrencias_push(ws: Seq<Seq<char>>, w: Seq<char>, x: Seq<char>)
    ensures
        ocorrencias(ws.push(x), w) == ocorrencias(ws, w) + if x == w { 1nat } else { 0nat },
{
    assert(ws.push(x).drop_last() =~= ws);
}

proof fn lemma_ocorrencias_ausente(ws: Seq<Seq<char>>, w: Seq<char>)
    requires
        !ws.contains(w),
    ensures
        ocorrencias(ws, w) == 0,
    decreases ws.len(),
{
    if ws.len() > 0 {
        assert(!ws.drop_last().contains(w)) by {
            if ws.drop_last().contains(w) {
                let k = choose|k: int| 0 <= k < ws.drop_last().len() && #[trigger] ws.drop_last()[k] == w;
                assert(ws[k] == w);
            }
        }
        assert(ws.last() != w) by {
            if ws.last() == w {
                assert(ws[ws.len() - 1] == w);
            }
        }
        lemma_ocorrencias_ausente(ws.drop_last(), w);
    }
}

/// `chaves` and `contagens` count the words `ws` exactly, key by key.
pub open spec fn contagem_separada_exata(chaves: Seq<Seq<char>>, contagens: Seq<usize>, ws: Seq<Seq<char>>) -> bool {
    &&& chaves.len() == contagens.len()
    &&& sem_repeticao(chaves)
    &&& forall|k: int| 0 <= k < chaves.len() ==>
        #[trigger] contagens[k] == ocorrencias(ws, chaves[k]) && contagens[k] >= 1
    &&& forall|w: Seq<char>| #[trigger] ws.contains(w) ==>
        exists|k: int| 0 <= k < chaves.len() && #[trigger] chaves[k] == w
}

/// Counts the normalized words of `texto`: the distinct words, and beside
/// each the number of its occurrences.
fn conta_separado(texto: &str) -> (r: (Vec<String>, Vec<usize>))
    ensures
        contagem_separada_exata(r.0.deep_view(), r.1@, palavras_normalizadas(texto@)),
{
    let separadas = separa_palavras(texto);
    let ghost ws = palavras_normalizadas(texto@);
    let mut chaves: Vec<String> = Vec::new();
    let mut contagens: Vec<usize> = Vec::new();
    let n = separadas.len();
    let mut i: usize = 0;
    while i < n
        invariant
            n == separadas@.len(),
            separadas.deep_view() == palavras(texto@),
            ws == palavras_normalizadas(texto@),
            ws.len() == n,
            0 <= i <= n,
            chaves@.len() == contagens@.len(),
            sem_repeticao(chaves.deep_view()),
            forall|k: int| 0 <= k < chaves@.len() ==>
                #[trigger] contagens@[k] == ocorrencias(ws.take(i as int), chaves@[k]@)
                && contagens@[k] >= 1,
            forall|w: Seq<char>| #[trigger] ws.take(i as int).contains(w) ==>
                exists|k: int| 0 <= k < chaves@.len() && #[trigger] chaves@[k]@ == w,
        decreases n - i,
    {
        let palavra = normaliza_palavra(separadas[i].as_str());
        let ghost prefixo = ws.take(i as int);
        let ghost chaves_inicio = chaves.deep_view();
        proof {
            assert forall|w: Seq<char>| #[trigger] prefixo.contains(w) implies
                exists|k: int| 0 <= k < chaves_inicio.len() && #[trigger] chaves_inicio[k] == w by {
                let k = choose|k: int| 0 <= k < chaves@.len() && #[trigger] chaves@[k]@ == w;
                assert(chaves_inicio[k] == chaves@[k]@);
            }
        }
        proof {
            assert(separadas@[i as int]@ == separadas.deep_view()[i as int]);
            assert(palavra@ == ws[i as int]);
            assert(ws.take(i + 1) =~= prefixo.push(palavra@));
            lemma_ocorrencias_limitadas(prefixo, palavra@);
        }
        let m = chaves.len();
        let mut j: usize = 0;
        let mut achou = false;
        while j < m
            invariant_except_break
                !achou,
            invariant
                m == chaves@.len(),
                0 <= j <= m,
                forall|k: int| 0 <= k < j ==> chaves@[k]@ != palavra@,
            ensures
                achou ==> j < m && chaves@[j as int]@ == palavra@,
                !achou ==> forall|k: int| 0 <= k < m ==> chaves@[k]@ != palavra@,
            decreases m - j,
        {
            if chaves[j] == palavra {
                achou = true;
                break;
            }
            j = j + 1;
        }
        if achou {
            let atual = contagens[j];
            proof {
                assert(atual == ocorrencias(prefixo, chaves@[j as int]@));
                lemma_ocorrencias_limitadas(prefixo, chaves@[j as int]@);
            }
            contagens.set(j, atual + 1);
            proof {
                assert forall|k: int| 0 <= k < chaves@.len() implies
                    #[trigger] contagens@[k] == ocorrencias(ws.take(i + 1), chaves@[k]@)
                    && contagens@[k] >= 1 by {
                    lemma_ocorrencias_push(prefixo, chaves@[k]@, palavra@);
                    if k != j {
                        assert(chaves.deep_view()[k] == chaves@[k]@);
                        assert(chaves.deep_view()[j as int] == chaves@[j as int]@);
                        assert(chaves.deep_view()[k] != chaves.deep_view()[j as int]);
                    }
                }
            }
        } else {
            proof {
                assert(!prefixo.contains(palavra@)) by {
                    if prefixo.contains(palavra@) {
                        let k = choose|k: int| 0 <= k < chaves@.len() && #[trigger] chaves@[k]@ == palavra@;
                        assert(chaves@[k]@ != palavra@);
                    }
                }
                lemma_ocorrencias_ausente(prefixo, palavra@);
            }
            let ghost chaves_antes = chaves.deep_view();
            chaves.push(palavra);
            contagens.push(1);
            proof {
                assert(chaves.deep_view() =~= chaves_antes.push(palavra@));
                assert forall|k: int| 0 <= k < chaves@.len() implies
                    #[trigger] contagens@[k] == ocorrencias(ws.take(i + 1), chaves@[k]@)
                    && contagens@[k] >= 1 by {
                    lemma_ocorrencias_push(prefixo, chaves@[k]@, chaves@[m as int]@);
                    if k < m {
                        assert(chaves@[k]@ != palavra@);
                    }
                }
            }
        }
        proof {
            assert forall|w: Seq<char>| #[trigger] ws.take(i + 1).contains(w) implies
                exists|k: int| 0 <= k < chaves@.len() && #[trigger] chaves@[k]@ == w by {
                let t = choose|t: int| 0 <= t < ws.take(i + 1).len() && #[trigger] ws.take(i + 1)[t] == w;
                if t < i {
                    assert(prefixo[t] == w);
                    assert(prefixo.contains(w));
                    let k = choose|k: int| 0 <= k < chaves_inicio.len() && #[trigger] chaves_inicio[k] == w;
                    assert(chaves@[k]@ == chaves_inicio[k]);
                } else {
                    assert(w == palavra@);
                    if achou {
                        assert(chaves@[j as int]@ == w);
                    } else {
                        assert(chaves@[m as int]@ == w);
                    }
                }
            }
        }
        i = i + 1;
    }
    proof {
        assert(ws.take(n as int) =~= ws);
    }
    proof {
        let finais = chaves.deep_view();
        assert forall|w: Seq<char>| #[trigger] ws.contains(w) implies
            exists|c: int| 0 <= c < finais.len() && #[trigger] finais[c] == w by {
            assert(ws.take(n as int).contains(w));
            let k = choose|k: int| 0 <= k < chaves@.len() && #[trigger] chaves@[k]@ == w;
            assert(finais[k] == chaves@[k]@);
        }
        assert forall|k: int| 0 <= k < finais.len() implies
            #[trigger] contagens@[k] == ocorrencias(ws, finais[k]) && contagens@[k] >= 1 by {
            assert(finais[k] == chaves@[k]@);
        }
    }
    (chaves, contagens)
}

/// Pairs each key with its count, turned into an `i32`.
fn junta(chaves: Vec<String>, contagens: Vec<usize>, Ghost(ws): Ghost<Seq<Seq<char>>>) -> (r: Vec<(String, i32)>)
    requires
        contagem_separada_exata(chaves.deep_view(), contagens@, ws),
        forall|k: int| 0 <= k < contagens@.len() ==> #[trigger] contagens@[k] <= i32::MAX,
    ensures
        contagem_exata(r.deep_view(), ws),
{
    let mut chaves = chaves;
    let mut contagens = contagens;
    let mut r: Vec<(String, i32)> = Vec::new();
    let ghost chaves_finais = chaves.deep_view();
    let ghost contagens_finais = contagens@;
    while chaves.len() > 0
        invariant
            chaves@.len() == contagens@.len(),
            chaves@.len() <= chaves_finais.len(),
            contagens_finais.len() == chaves_finais.len(),
            forall|k: int| 0 <= k < chaves@.len() ==> #[trigger] chaves@[k]@ == chaves_finais[k],
            forall|k: int| 0 <= k < contagens@.len() ==> #[trigger] contagens@[k] == contagens_finais[k],
            forall|k: int| 0 <= k < contagens_finais.len() ==> #[trigger] contagens_finais[k] <= i32::MAX,
            r@.len() + chaves@.len() == chaves_finais.len(),
            forall|k: int| 0 <= k < r@.len() ==> {
                let origem = chaves_finais.len() - 1 - k;
                &&& #[trigger] r@[k].0@ == chaves_finais[origem]
                &&& r@[k].1 == contagens_finais[origem]
            },
        decreases chaves@.len(),
    {
        let chave = chaves.pop().unwrap();
        let contagem = contagens.pop().unwrap();
        proof {
            assert(contagem == contagens_finais[chaves@.len() as int]);
        }
        r.push((chave, contagem as i32));
    }
    proof {
        let d = r.deep_view();
        let total = chaves_finais.len();
        assert(d.len() == r@.len());
        assert(r@.len() == total);
        assert forall|k: int| 0 <= k < d.len() implies
            #[trigger] d[k].1 == ocorrencias(ws, d[k].0) && d[k].1 >= 1 by {
            let origem = total - 1 - k;
            assert(d[k] == (r@[k].0@, r@[k].1));
        }
        let ks = d.map_values(|par: (Seq<char>, i32)| par.0);
        assert forall|a: int, b: int| 0 <= a < b < ks.len() implies ks[a] != ks[b] by {
            assert(ks[a] == r@[a].0@);
            assert(ks[b] == r@[b].0@);
        }
        assert forall|w: Seq<char>| #[trigger] ws.contains(w) implies
            exists|k: int| 0 <= k < d.len() && #[trigger] d[k].0 == w by {
            let c = choose|c: int| 0 <= c < chaves_finais.len() && #[trigger] chaves_finais[c] == w;
            let k = total - 1 - c;
            assert(d[k] == (r@[k].0@, r@[k].1));
            assert(d[k].0 == w);
        }
    }
    r
}

/// No normalized word of `texto` occurs more than `i32::MAX` times, so every
/// count fits in an `i32`.
pub open spec fn contagens_cabem(texto: Seq<char>) -> bool {
    forall|w: Seq<char>| #[trigger] ocorrencias(palavras_normalizadas(texto), w) <= i32::MAX
}

/// Counts how often each normalized word of `texto` occurs.
///
/// Each distinct word appears once in the result with its number of
/// occurrences; the order of the pairs is unspecified.
pub fn conta_palavras(texto: &str) -> (r: Vec<(String, i32)>)
    requires
        contagens_cabem(texto@),
    ensures
        contagem_exata(r.deep_view(), palavras_normalizadas(texto@)),
{
    let (chaves, contagens) = conta_separado(texto);
    let ghost ws = palavras_normalizadas(texto@);
    proof {
        assert forall|k: int| 0 <= k < contagens@.len() implies #[trigger] contagens@[k] <= i32::MAX by {
            assert(contagens@[k] == ocorrencias(ws, chaves.deep_view()[k]));
        }
    }
    junta(chaves, contagens, Ghost(ws))
}

/// Counts the words of `texto` as [`conta_palavras`] does when every count
/// fits in an `i32`; gives `None` when some word occurs more than `i32::MAX`
/// times. The words are counted once (with `usize` counts) to test that, and
/// once more by [`conta_palavras`].
pub fn conta_palavras_limitada(texto: &str) -> (r: Option<Vec<(String, i32)>>)
    ensures
        r is Some <==> contagens_cabem(texto@),
        r matches Some(v) ==> contagem_exata(v.deep_view(), palavras_normalizadas(texto@)),
{
    let (chaves, contagens) = conta_separado(texto);
    let ghost ws = palavras_normalizadas(texto@);
    let m = contagens.len();
    let mut k: usize = 0;
    while k < m
        invariant
            m == contagens@.len(),
            0 <= k <= m,
            ws == palavras_normalizadas(texto@),
            contagem_separada_exata(chaves.deep_view(), contagens@, ws),
            forall|j: int| 0 <= j < k ==> #[trigger] contagens@[j] <= i32::MAX,
        decreases m - k,
    {
        if contagens[k] > i32::MAX as usize {
            proof {
                let w = chaves.deep_view()[k as int];
                assert(contagens@[k as int] == ocorrencias(ws, w));
                assert(ocorrencias(ws, w) > i32::MAX);
            }
            return None;
        }
        k = k + 1;
    }
    proof {
        let ks = chaves.deep_view();
        assert forall|w: Seq<char>| #[trigger] ocorrencias(ws, w) <= i32::MAX by {
            if ws.contains(w) {
                let j = choose|j: int| 0 <= j < ks.len() && #[trigger] ks[j] == w;
                assert(contagens@[j] == ocorrencias(ws, ks[j]));
            } else {
                lemma_ocorrencias_ausente(ws, w);
            }
        }
    }
    Some(conta_palavras(texto))
}

/// Keeping the alphanumeric characters keeps every one of them, in order,
/// and nothing else: each kept character is alphanumeric, each alphanumeric
/// character of `s` is kept, and no character is kept more often than it
/// occurs.
pub proof fn lemma_so_alfanumericos(s: Seq<char>)
    ensures
        so_alfanumericos(s).len() <= s.len(),
        forall|i: int| 0 <= i < so_alfanumericos(s).len() ==> alfanumerico(#[trigger] so_alfanumericos(s)[i]),
        forall|i: int| 0 <= i < s.len() && alfanumerico(#[trigger] s[i]) ==> so_alfanumericos(s).contains(s[i]),
        forall|i: int| 0 <= i < s.len() && !alfanumerico(#[trigger] s[i]) ==> !so_alfanumericos(s).contains(s[i]),
    decreases s.len(),
{
    if s.len() > 0 {
        let anterior = s.drop_last();
        lemma_so_alfanumericos(anterior);
        let r0 = so_alfanumericos(anterior);
        let r = so_alfanumericos(s);
        assert forall|i: int| 0 <= i < r.len() implies alfanumerico(#[trigger] r[i]) by {
            if i < r0.len() {
                assert(r[i] == r0[i]);
            }
        }
        assert forall|i: int| 0 <= i < s.len() && alfanumerico(#[trigger] s[i]) implies r.contains(s[i]) by {
            if i < s.len() - 1 {
                assert(anterior[i] == s[i]);
                let k = choose|k: int| 0 <= k < r0.len() && #[trigger] r0[k] == s[i];
                assert(r[k] == r0[k]);
            } else {
                assert(r[r.len() - 1] == s.last());
            }
        }
        assert forall|i: int| 0 <= i < s.len() && !alfanumerico(#[trigger] s[i]) implies !r.contains(s[i]) by {
            if r.contains(s[i]) {
                let k = choose|k: int| 0 <= k < r.len() && #[trigger] r[k] == s[i];
                assert(alfanumerico(r[k]));
            }
        }
    }
}

/// The characters of `s` that are not whitespace, in order.
pub open spec fn sem_espacos(s: Seq<char>) -> Seq<char>
    decreases s.len(),
{
    if s.len() == 0 {
        Seq::empty()
    } else if espaco_em_branco(s[0]) {
        sem_espacos(s.drop_first())
    } else {
        seq![s[0]] + sem_espacos(s.drop_first())
    }
}

/// How many words start in `s`: positions holding a non-whitespace
/// character that is first or follows whitespace (`dentro`: whether the
/// character before `s` was part of a word).
pub open spec fn inicios_de_palavra(s: Seq<char>, dentro: bool) -> nat
    decreases s.len(),
{
    if s.len() == 0 {
        0
    } else if espaco_em_branco(s[0]) {
        inicios_de_palavra(s.drop_first(), false)
    } else {
        (if dentro { 0nat } else { 1nat }) + inicios_de_palavra(s.drop_first(), true)
    }
}

proof fn lemma_palavras_apos(s: Seq<char>, a: Seq<char>)
    requires
        forall|i: int| 0 <= i < a.len() ==> !espaco_em_branco(#[trigger] a[i]),
    ensures
        palavras_apos(s, a).flatten() == a + sem_espacos(s),
        palavras_apos(s, a).len() == (if a.len() > 0 { 1nat } else { 0nat }) + inicios_de_palavra(s, a.len() > 0),
        forall|k: int| 0 <= k < palavras_apos(s, a).len() ==> (#[trigger] palavras_apos(s, a)[k]).len() > 0,
        forall|k: int, j: int| 0 <= k < palavras_apos(s, a).len() && 0 <= j < palavras_apos(s, a)[k].len()
            ==> !espaco_em_branco(#[trigger] palavras_apos(s, a)[k][j]),
    decreases s.len(),
{
    let ws = palavras_apos(s, a);
    if s.len() == 0 {
        if a.len() > 0 {
            assert(ws == seq![a]);
            assert(seq![a].drop_first() =~= Seq::<Seq<char>>::empty());
            assert(ws.flatten() == ws.first() + ws.drop_first().flatten());
            assert(a + Seq::<char>::empty() =~= a);
            assert(a + sem_espacos(s) =~= a);
        } else {
            assert(a + sem_espacos(s) =~= a);
        }
    } else {
        let resto = s.drop_first();
        if espaco_em_branco(s[0]) {
            lemma_palavras_apos(resto, Seq::empty());
            let depois = palavras_apos(resto, Seq::empty());
            assert(sem_espacos(s) == sem_espacos(resto));
            assert(Seq::<char>::empty() + sem_espacos(resto) =~= sem_espacos(resto));
            if a.len() > 0 {
                assert(ws == seq![a] + depois);
                assert((seq![a] + depois).drop_first() =~= depois);
                assert((seq![a] + depois)[0] == a);
                assert(ws.flatten() == ws.first() + ws.drop_first().flatten());
                assert forall|k: int| 0 <= k < ws.len() implies (#[trigger] ws[k]).len() > 0 by {
                    if k > 0 { assert(ws[k] == depois[k - 1]); }
                }
                assert forall|k: int, j: int| 0 <= k < ws.len() && 0 <= j < ws[k].len()
                    implies !espaco_em_branco(#[trigger] ws[k][j]) by {
                    if k > 0 { assert(ws[k] == depois[k - 1]); }
                }
            } else {
                assert(ws =~= depois);
                assert(a + sem_espacos(s) =~= sem_espacos(resto));
            }
        } else {
            let a2 = a.push(s[0]);
            assert forall|i: int| 0 <= i < a2.len() implies !espaco_em_branco(#[trigger] a2[i]) by {
                if i < a.len() { assert(a2[i] == a[i]); }
            }
            lemma_palavras_apos(resto, a2);
            assert(sem_espacos(s) == seq![s[0]] + sem_espacos(resto));
            assert(a2 + sem_espacos(resto) =~= a + sem_espacos(s));
        }
    }
}

/// Splitting at whitespace loses nothing but the whitespace and cuts only
/// there: every word is non-empty and holds no whitespace, the words put back
/// together are the characters of `s` that are not whitespace, in order, and
/// there are as many words as places where a word starts (a non-whitespace
/// character at the start of `s` or right after whitespace).
pub proof fn lemma_palavras(s: Seq<char>)
    ensures
        palavras(s).flatten() == sem_espacos(s),
        palavras(s).len() == inicios_de_palavra(s, false),
        forall|k: int| 0 <= k < palavras(s).len() ==> (#[trigger] palavras(s)[k]).len() > 0,
        forall|k: int, j: int| 0 <= k < palavras(s).len() && 0 <= j < palavras(s)[k].len()
            ==> !espaco_em_branco(#[trigger] palavras(s)[k][j]),
{
    lemma_palavras_apos(s, Seq::empty());
    assert(Seq::<char>::empty() + sem_espacos(s) =~= sem_espacos(s));
}

/// Words that differ only in letter case are counted as the same word.
pub proof fn lemma_caixa_indiferente(a: Seq<char>, b: Seq<char>)
    requires
        minusculas(a) == minusculas(b),
    ensures
        normalizada(a) == normalizada(b),
{
}

/// The sum of the counts of `c`.
pub open spec fn soma_contagens(c: Seq<(Seq<char>, i32)>) -> int
    decreases c.len(),
{
    if c.len() == 0 { 0 } else { soma_contagens(c.drop_last()) + c.last().1 }
}

/// The sum over the keys `ks` of their occurrences in `ws`.
spec fn soma_ocorrencias(ks: Seq<Seq<char>>, ws: Seq<Seq<char>>) -> int
    decreases ks.len(),
{
    if ks.len() == 0 { 0 } else { soma_ocorrencias(ks.drop_last(), ws) + ocorrencias(ws, ks.last()) }
}

/// How many keys of `ks` equal `w`.
spec fn vezes_na_lista(ks: Seq<Seq<char>>, w: Seq<char>) -> int
    decreases ks.len(),
{
    if ks.len() == 0 { 0 } else { vezes_na_lista(ks.drop_last(), w) + if ks.last() == w { 1int } else { 0int } }
}

proof fn lemma_vezes_sem_repeticao(ks: Seq<Seq<char>>, w: Seq<char>)
    requires
        sem_repeticao(ks),
    ensures
        vezes_na_lista(ks, w) == if ks.contains(w) { 1int } else { 0int },
    decreases ks.len(),
{
    if ks.len() > 0 {
        let anterior = ks.drop_last();
        assert(sem_repeticao(anterior));
        lemma_vezes_sem_repeticao(anterior, w);
        if ks.last() == w {
            assert(!anterior.contains(w)) by {
                if anterior.contains(w) {
                    let k = choose|k: int| 0 <= k < anterior.len() && #[trigger] anterior[k] == w;
                    assert(ks[k] == ks[ks.len() - 1]);
                }
            }
            assert(ks.contains(w)) by {
                assert(ks[ks.len() - 1] == w);
            }
        } else {
            if ks.contains(w) {
                let k = choose|k: int| 0 <= k < ks.len() && #[trigger] ks[k] == w;
                assert(anterior[k] == w);
            }
            if anterior.contains(w) {
                let k = choose|k: int| 0 <= k < anterior.len() && #[trigger] anterior[k] == w;
                assert(ks[k] == w);
            }
        }
    }
}

proof fn lemma_soma_ocorrencias_push(ks: Seq<Seq<char>>, ws: Seq<Seq<char>>, x: Seq<char>)
    ensures
        soma_ocorrencias(ks, ws.push(x)) == soma_ocorrencias(ks, ws) + vezes_na_lista(ks, x),
    decreases ks.len(),
{
    if ks.len() > 0 {
        lemma_soma_ocorrencias_push(ks.drop_last(), ws, x);
        lemma_ocorrencias_push(ws, ks.last(), x);
    }
}

proof fn lemma_soma_ocorrencias_cobre(ks: Seq<Seq<char>>, ws: Seq<Seq<char>>)
    requires
        sem_repeticao(ks),
        forall|w: Seq<char>| #[trigger] ws.contains(w) ==> ks.contains(w),
    ensures
        soma_ocorrencias(ks, ws) == ws.len(),
    decreases ws.len(),
{
    if ws.len() == 0 {
        lemma_soma_zero(ks, ws);
    } else {
        let anterior = ws.drop_last();
        assert forall|w: Seq<char>| #[trigger] anterior.contains(w) implies ks.contains(w) by {
            let k = choose|k: int| 0 <= k < anterior.len() && #[trigger] anterior[k] == w;
            assert(ws[k] == w);
            assert(ws.contains(w));
        }
        lemma_soma_ocorrencias_cobre(ks, anterior);
        assert(anterior.push(ws.last()) =~= ws);
        lemma_soma_ocorrencias_push(ks, anterior, ws.last());
        assert(ws.contains(ws.last())) by {
            assert(ws[ws.len() - 1] == ws.last());
        }
        lemma_vezes_sem_repeticao(ks, ws.last());
    }
}

proof fn lemma_soma_zero(ks: Seq<Seq<char>>, ws: Seq<Seq<char>>)
    requires
        ws.len() == 0,
    ensures
        soma_ocorrencias(ks, ws) == 0,
    decreases ks.len(),
{
    if ks.len() > 0 {
        lemma_soma_zero(ks.drop_last(), ws);
    }
}

proof fn lemma_soma_contagens_chaves(c: Seq<(Seq<char>, i32)>, ws: Seq<Seq<char>>)
    requires
        forall|k: int| 0 <= k < c.len() ==> #[trigger] c[k].1 == ocorrencias(ws, c[k].0),
    ensures
        soma_contagens(c) == soma_ocorrencias(c.map_values(|par: (Seq<char>, i32)| par.0), ws),
    decreases c.len(),
{
    let ks = c.map_values(|par: (Seq<char>, i32)| par.0);
    if c.len() > 0 {
        let anterior = c.drop_last();
        assert forall|k: int| 0 <= k < anterior.len() implies #[trigger] anterior[k].1 == ocorrencias(ws, anterior[k].0) by {
            assert(anterior[k] == c[k]);
        }
        lemma_soma_contagens_chaves(anterior, ws);
        assert(ks.drop_last() =~= anterior.map_values(|par: (Seq<char>, i32)| par.0));
        assert(c[c.len() - 1].1 == ocorrencias(ws, c[c.len() - 1].0));
    }
}

/// The counts add up to the number of words: every word is counted once.
pub proof fn lemma_contagens_somam_palavras(c: Seq<(Seq<char>, i32)>, ws: Seq<Seq<char>>)
    requires
        contagem_exata(c, ws),
    ensures
        soma_contagens(c) == ws.len(),
{
    let ks = c.map_values(|par: (Seq<char>, i32)| par.0);
    assert forall|k: int| 0 <= k < c.len() implies #[trigger] c[k].1 == ocorrencias(ws, c[k].0) by {}
    lemma_soma_contagens_chaves(c, ws);
    assert forall|w: Seq<char>| #[trigger] ws.contains(w) implies ks.contains(w) by {
        let k = choose|k: int| 0 <= k < c.len() && #[trigger] c[k].0 == w;
        assert(ks[k] == w);
    }
    lemma_soma_ocorrencias_cobre(ks, ws);
}

} // verus!
