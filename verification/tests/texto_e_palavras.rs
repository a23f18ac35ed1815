use exercicios_sd::ownership::adiciona_sufixo;
use exercicios_sd::palavras::{conta_palavras, conta_palavras_limitada, normaliza_palavra, separa_palavras};
use exercicios_sd::saudacao::{apara, saudacao};
use exercicios_sd::texto::{eh_espaco, escreve_decimal};

#[test]
fn sufixo_anexado() {
    let s = adiciona_sufixo(String::from("Rust"), "_lang");
    assert_eq!(s, "Rust_lang");
}

#[test]
fn sufixo_vazio() {
    assert_eq!(adiciona_sufixo(String::new(), ""), "");
    assert_eq!(adiciona_sufixo(String::from("abc"), ""), "abc");
}

#[test]
fn decimal_de_numeros() {
    let mut s = String::from("n=");
    escreve_decimal(&mut s, 0);
    assert_eq!(s, "n=0");
    let mut s = String::new();
    escreve_decimal(&mut s, 1234);
    assert_eq!(s, "1234");
    let mut s = String::new();
    escreve_decimal(&mut s, u64::MAX);
    assert_eq!(s, u64::MAX.to_string());
    let mut s = String::new();
    escreve_decimal(&mut s, 10);
    assert_eq!(s, "10");
}

#[test]
fn separa_em_espacos() {
    assert_eq!(separa_palavras("  Rust é  legal\n"), vec!["Rust", "é", "legal"]);
    assert_eq!(separa_palavras(""), Vec::<String>::new());
    assert_eq!(separa_palavras(" \t\n "), Vec::<String>::new());
    assert_eq!(separa_palavras("a\u{3000}b\u{a0}c"), vec!["a", "b", "c"]);
    assert_eq!(separa_palavras("uma"), vec!["uma"]);
}

#[test]
fn normaliza_minusculas_e_alfanumericos() {
    assert_eq!(normaliza_palavra("Rust!"), "rust");
    assert_eq!(normaliza_palavra("ÉRA,"), "éra");
    assert_eq!(normaliza_palavra("!!!"), "");
    assert_eq!(normaliza_palavra("A1-b2"), "a1b2");
}

fn contagem_ordenada(texto: &str) -> Vec<(String, i32)> {
    let mut r = conta_palavras(texto);
    r.sort();
    r
}

#[test]
fn conta_palavras_repetidas() {
    let r = contagem_ordenada("Rust rust RUST! é, É bom\n");
    assert_eq!(
        r,
        vec![("bom".to_string(), 1), ("rust".to_string(), 3), ("é".to_string(), 2)]
    );
}

#[test]
fn conta_palavras_so_pontuacao() {
    // a word made only of punctuation is counted as the empty word
    let r = contagem_ordenada("!! ?? ok");
    assert_eq!(r, vec![("".to_string(), 2), ("ok".to_string(), 1)]);
}

#[test]
fn conta_palavras_texto_vazio() {
    assert!(conta_palavras("").is_empty());
    assert!(conta_palavras("   \n").is_empty());
}

#[test]
fn contagem_soma_o_numero_de_palavras() {
    let texto = "a b a c b a d";
    let r = conta_palavras(texto);
    let total: i32 = r.iter().map(|(_, c)| *c).sum();
    assert_eq!(total, 7);
    let mut chaves: Vec<&String> = r.iter().map(|(k, _)| k).collect();
    chaves.sort();
    chaves.dedup();
    assert_eq!(chaves.len(), r.len());
}

#[test]
fn apara_espacos() {
    assert_eq!(apara("  Ana Maria \n"), "Ana Maria");
    assert_eq!(apara(""), "");
    assert_eq!(apara(" \t \n"), "");
    assert_eq!(apara("x"), "x");
    assert_eq!(apara("\u{2003}y\u{2003}"), "y");
}

#[test]
fn saudacao_com_nome() {
    assert_eq!(saudacao("Maria\n"), "Hello, Maria!");
    assert_eq!(saudacao("\n"), "Hello, !");
    assert_eq!(saudacao("  José da Silva  \r\n"), "Hello, José da Silva!");
}

#[test]
fn espaco_igual_ao_da_biblioteca_padrao() {
    for n in 0u32..=0x10FFFF {
        if let Some(c) = char::from_u32(n) {
            assert_eq!(eh_espaco(c), c.is_whitespace(), "U+{:04X}", n);
        }
    }
}

#[test]
fn contagem_limitada_cabe() {
    let mut r = conta_palavras_limitada("x y X").unwrap();
    r.sort();
    assert_eq!(r, vec![("x".to_string(), 2), ("y".to_string(), 1)]);
    assert_eq!(conta_palavras_limitada(""), Some(vec![]));
}
