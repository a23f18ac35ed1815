//! The decisions of a ping-pong exchange between exactly two processes.
//!
//! Two processes (ranks 0 and 1) pass a counter back and forth; whoever's
//! turn it is increments the counter and sends it to the partner, the other
//! one waits to receive it. The sending and receiving themselves are done by
//! the caller: this module says, from a process's state, what to do next.

use vstd::prelude::*;

verus! {

/// What a process does next.
#[derive(PartialEq, Eq, Structural, Debug, Clone, Copy)]
pub enum Acao {
    /// Send `valor` to process `destino`.
    Envia { destino: i32, valor: i32 },
    /// Wait for the counter from process `origem`.
    Recebe { origem: i32 },
    /// The counter has reached the number of messages: stop.
    Fim,
}

/// One process's side of the exchange.
pub struct PingPong {
    pub rank: i32,
    pub parceiro: i32,
    pub contador: i32,
    pub max_msgs: i32,
}

/// The remainder of `c` divided by 2 as Rust computes it (sign of `c`).
pub open spec fn resto2(c: int) -> int {
    if c >= 0 { c % 2 } else { -((-c) % 2) }
}

/// The action of process `rank` (partner `parceiro`) when the counter is
/// `contador`, and the counter afterwards.
pub open spec fn passo(rank: int, parceiro: int, contador: int, max_msgs: int) -> (Acao, int) {
    if contador >= max_msgs {
        (Acao::Fim, contador)
    } else if rank == resto2(contador) {
        (Acao::Envia { destino: parceiro as i32, valor: (contador + 1) as i32 }, contador + 1)
    } else {
        (Acao::Recebe { origem: parceiro as i32 }, contador)
    }
}

impl PingPong {
    /// Sets up the exchange for process `rank` in a world of `size` processes.
    /// The exchange needs exactly two processes: any other `size` gives `None`.
    pub fn new(rank: i32, size: i32, max_msgs: i32) -> (r: Option<PingPong>)
        requires
            size == 2 ==> 1 - rank <= i32::MAX,
        ensures
            size != 2 ==> r is None,
            size == 2 ==> r == Some(PingPong { rank, parceiro: (1 - rank) as i32, contador: 0, max_msgs }),
    {
        if size != 2 {
            return None;
        }
        Some(PingPong { rank, parceiro: 1 - rank, contador: 0, max_msgs })
    }

    /// Decides the next action; when it is this process's turn the counter is
    /// incremented and the new value is the one to send.
    pub fn proxima_acao(&mut self) -> (r: Acao)
        ensures
            final(self).rank == old(self).rank,
            final(self).parceiro == old(self).parceiro,
            final(self).max_msgs == old(self).max_msgs,
            (r, final(self).contador as int) == passo(
                old(self).rank as int,
                old(self).parceiro as int,
                old(self).contador as int,
                old(self).max_msgs as int,
            ),
    {
        if self.contador >= self.max_msgs {
            Acao::Fim
        } else if self.rank == self.contador % 2 {
            self.contador = self.contador + 1;
            Acao::Envia { destino: self.parceiro, valor: self.contador }
        } else {
            Acao::Recebe { origem: self.parceiro }
        }
    }

    /// Records the counter received from the partner.
    pub fn recebeu(&mut self, valor: i32)
        ensures
            final(self).rank == old(self).rank,
            final(self).parceiro == old(self).parceiro,
            final(self).max_msgs == old(self).max_msgs,
            final(self).contador == valor,
    {
        self.contador = valor;
    }
}

/// The divisors used to average the measured time: per message
/// (`max(max_msgs, 1)`) and per round trip (`max(max_msgs / 2, 1)`).
/// Both are at least 1, so the division never divides by zero.
pub fn divisores_latencia(max_msgs: i32) -> (r: (u32, u32))
    ensures
        r.0 == if max_msgs >= 1 { max_msgs as int } else { 1 },
        r.1 == if max_msgs >= 2 { max_msgs as int / 2 } else { 1 },
        r.0 >= 1,
        r.1 >= 1,
{
    let total = if max_msgs >= 1 { max_msgs } else { 1 };
    let metade = max_msgs / 2;
    let ida_e_volta = if metade >= 1 { metade } else { 1 };
    (total as u32, ida_e_volta as u32)
}

/// One round of the exchange between the two processes: when both hold the
/// same counter `c` below `max_msgs`, exactly the process whose rank is
/// `c % 2` sends `c + 1` while the other waits to receive from it; once the
/// receiver records the value, both hold `c + 1`.
pub proof fn lemma_rodada(c: int, max_msgs: int)
    requires
        0 <= c < max_msgs <= i32::MAX,
    ensures
        ({
            let quem = c % 2;
            let outro = 1 - quem;
            &&& passo(quem, outro, c, max_msgs) == (Acao::Envia { destino: outro as i32, valor: (c + 1) as i32 }, c + 1)
            &&& passo(outro, quem, c, max_msgs) == (Acao::Recebe { origem: quem as i32 }, c)
        }),
{
}

/// The joint run of both processes for at most `n` rounds, rank 0 holding
/// counter `c0` and rank 1 holding `c1`, each message being delivered to the
/// other process as soon as it is sent. Gives the messages sent, as
/// (sender, value), and the two counters at the end.
pub open spec fn rodar(c0: int, c1: int, max_msgs: int, n: nat) -> (Seq<(int, int)>, int, int)
    decreases n,
{
    if n == 0 {
        (Seq::empty(), c0, c1)
    } else {
        let (a0, n0) = passo(0, 1, c0, max_msgs);
        let (a1, n1) = passo(1, 0, c1, max_msgs);
        match (a0, a1) {
            (Acao::Envia { valor, .. }, Acao::Recebe { .. }) => {
                let resto = rodar(n0, valor as int, max_msgs, (n - 1) as nat);
                (seq![(0int, valor as int)] + resto.0, resto.1, resto.2)
            },
            (Acao::Recebe { .. }, Acao::Envia { valor, .. }) => {
                let resto = rodar(valor as int, n1, max_msgs, (n - 1) as nat);
                (seq![(1int, valor as int)] + resto.0, resto.1, resto.2)
            },
            _ => (Seq::empty(), c0, c1),
        }
    }
}

/// The messages of a complete exchange: the `k`-th (from 0) is sent by rank
/// `k % 2` and carries `k + 1`.
pub open spec fn mensagens_esperadas(de: int, ate: int) -> Seq<(int, int)> {
    Seq::new((ate - de) as nat, |k: int| ((de + k) % 2, de + k + 1))
}

proof fn lemma_execucao_a_partir(c: int, max_msgs: int)
    requires
        0 <= c <= max_msgs <= i32::MAX,
    ensures
        rodar(c, c, max_msgs, (max_msgs - c) as nat) == (mensagens_esperadas(c, max_msgs), max_msgs, max_msgs),
    decreases max_msgs - c,
{
    if c < max_msgs {
        lemma_rodada(c, max_msgs);
        lemma_execucao_a_partir(c + 1, max_msgs);
        let resto = mensagens_esperadas(c + 1, max_msgs);
        assert(mensagens_esperadas(c, max_msgs) =~= seq![(c % 2, c + 1)] + resto);
    } else {
        assert(mensagens_esperadas(c, max_msgs) =~= Seq::empty());
    }
}

/// A complete exchange from a fresh start: after `max_msgs` rounds exactly
/// `max_msgs` messages have been sent, the `k`-th by rank `k % 2` carrying
/// `k + 1` (the two processes strictly alternate), both counters equal
/// `max_msgs`, and both processes then stop.
pub proof fn lemma_execucao_completa(max_msgs: int)
    requires
        0 <= max_msgs <= i32::MAX,
    ensures
        rodar(0, 0, max_msgs, max_msgs as nat) == (mensagens_esperadas(0, max_msgs), max_msgs, max_msgs),
        passo(0, 1, max_msgs, max_msgs).0 == Acao::Fim,
        passo(1, 0, max_msgs, max_msgs).0 == Acao::Fim,
{
    lemma_execucao_a_partir(0, max_msgs);
}

} // verus!
