//! The operator of a command-line calculator.
//!
//! The arithmetic itself is on floating-point numbers and is done by the
//! caller; this module decides which operation a symbol names and what is
//! answered for a symbol that names none.

use vstd::prelude::*;
use vstd::string::{StringExecFns, StrSliceExecFns};

verus! {

/// The four operations of the calculator.
#[derive(PartialEq, Eq, Structural, Debug, Clone, Copy)]
pub enum Operacao {
    Soma,
    Subtracao,
    Multiplicacao,
    Divisao,
}

/// The operation that the symbol `op` names, if any.
pub open spec fn operacao_de(op: Seq<char>) -> Option<Operacao> {
    if op == seq!['+'] {
        Some(Operacao::Soma)
    } else if op == seq!['-'] {
        Some(Operacao::Subtracao)
    } else if op == seq!['*'] {
        Some(Operacao::Multiplicacao)
    } else if op == seq!['/'] {
        Some(Operacao::Divisao)
    } else {
        None
    }
}

/// The message for a symbol that names no operation.
pub open spec fn mensagem_operacao_invalida(op: Seq<char>) -> Seq<char> {
    "Operação inválida: "@ + op
}

/// Reads the operation symbol `op`: one of `+`, `-`, `*`, `/`; any other
/// text is refused with the message "Operação inválida: " followed by it.
pub fn interpreta_operacao(op: &str) -> (r: Result<Operacao, String>)
    ensures
        match operacao_de(op@) {
            Some(o) => r == Ok::<Operacao, String>(o),
            None => r matches Err(msg) && msg@ == mensagem_operacao_invalida(op@),
        },
{
    if op.unicode_len() == 1 {
        let c = op.get_char(0);
        proof {
            assert(op@ =~= seq![c]);
        }
        if c == '+' {
            return Ok(Operacao::Soma);
        } else if c == '-' {
            return Ok(Operacao::Subtracao);
        } else if c == '*' {
            return Ok(Operacao::Multiplicacao);
        } else if c == '/' {
            return Ok(Operacao::Divisao);
        }
    }
    let mut msg = String::from_str("Operação inválida: ");
    msg.append(op);
    Err(msg)
}

/// The symbol of each operation.
pub open spec fn simbolo(o: Operacao) -> char {
    match o {
        Operacao::Soma => '+',
        Operacao::Subtracao => '-',
        Operacao::Multiplicacao => '*',
        Operacao::Divisao => '/',
    }
}

/// Each operation is named by exactly one text, its one-character symbol,
/// and no other text names any operation.
pub proof fn lemma_um_simbolo_por_operacao(op: Seq<char>, o: Operacao)
    ensures
        operacao_de(op) == Some(o) <==> op == seq![simbolo(o)],
        op.len() != 1 ==> operacao_de(op) is None,
{
    let mais = seq!['+'];
    let menos = seq!['-'];
    let vezes = seq!['*'];
    let barra = seq!['/'];
    assert(mais[0] == '+' && menos[0] == '-' && vezes[0] == '*' && barra[0] == '/');
    if op == seq![simbolo(o)] {
        assert(op[0] == simbolo(o));
    }
}

} // verus!
