//! The decisions of a bounded producer/consumer buffer.
//!
//! Several producers push identifiable items into a buffer of fixed capacity
//! and several consumers take them out in arrival order. The locking,
//! waiting and waking up are done by the caller around these steps: each step
//! is what one thread decides while it holds the lock.

use vstd::prelude::*;
use std::collections::VecDeque;

verus! {

/// What a producer does on one attempt to deliver an item.
#[derive(PartialEq, Eq, Structural, Debug, Clone, Copy)]
pub enum PassoProdutor {
    /// The buffer is full: wait for a consumer.
    Espera,
    /// `item` was appended; the buffer now holds `tamanho` items.
    Produziu { item: i32, tamanho: usize },
}

/// What a consumer does on one attempt to take an item.
#[derive(PartialEq, Eq, Structural, Debug, Clone, Copy)]
pub enum PassoConsumidor {
    /// `item` was taken from the front; `tamanho` items are left.
    Consumiu { item: i32, tamanho: usize },
    /// The buffer is empty but some producer is still running: wait.
    Espera,
    /// The buffer is empty and every producer has finished: stop.
    Encerra,
}

/// What a producer does on one round of its work.
#[derive(PartialEq, Eq, Structural, Debug, Clone, Copy)]
pub enum RodadaProdutor {
    /// The buffer is full: wait for a consumer, then try the same item again.
    Espera,
    /// `item` was appended; the buffer now holds `tamanho` items.
    Produziu { item: i32, tamanho: usize },
    /// All its items were delivered: the producer has signalled that it
    /// finished; `finalizados` producers have finished now.
    Finalizou { finalizados: usize },
}

/// A producer's progress: producer `id` delivers the items `0..quantidade`
/// in order; `proximo` is the next one to deliver.
pub struct Produtor {
    pub id: usize,
    pub proximo: usize,
    pub quantidade: usize,
}

impl Produtor {
    /// Producer `id`, about to deliver its first of `quantidade` items.
    pub fn new(id: usize, quantidade: usize) -> (r: Produtor)
        ensures
            r == (Produtor { id, proximo: 0, quantidade }),
    {
        Produtor { id, proximo: 0, quantidade }
    }
}

/// The abstract state of a [`BufferCompartilhado`].
pub ghost struct EstadoBuffer {
    /// Items waiting in the buffer, oldest first.
    pub itens: Seq<i32>,
    pub capacidade: nat,
    pub itens_produzidos: nat,
    pub produtores_finalizados: nat,
    pub total_produtores: nat,
    /// Every item ever appended, in order.
    pub produzidos: Seq<i32>,
    /// Every item ever taken out, in order.
    pub consumidos: Seq<i32>,
}

/// What every reachable state satisfies: the buffer never holds more than its
/// capacity, and what was consumed followed by what is waiting is exactly
/// what was produced (first in, first out, nothing lost or duplicated).
pub open spec fn invariante(e: EstadoBuffer) -> bool {
    &&& e.itens.len() <= e.capacidade
    &&& e.consumidos + e.itens == e.produzidos
    &&& e.produzidos.len() == e.itens_produzidos
}

/// The item that producer `id` makes on its `i`-th round.
pub open spec fn item_de(id: usize, i: usize) -> int {
    (id as i32) * 1000 + (i as i32)
}

/// The buffer shared by producers and consumers.
pub struct BufferCompartilhado {
    buffer: VecDeque<i32>,
    capacidade: usize,
    itens_produzidos: usize,
    produtores_finalizados: usize,
    total_produtores: usize,
    produzidos: Ghost<Seq<i32>>,
    consumidos: Ghost<Seq<i32>>,
}

impl View for BufferCompartilhado {
    type V = EstadoBuffer;

    closed spec fn view(&self) -> EstadoBuffer {
        EstadoBuffer {
            itens: self.buffer@,
            capacidade: self.capacidade as nat,
            itens_produzidos: self.itens_produzidos as nat,
            produtores_finalizados: self.produtores_finalizados as nat,
            total_produtores: self.total_produtores as nat,
            produzidos: self.produzidos@,
            consumidos: self.consumidos@,
        }
    }
}

impl BufferCompartilhado {
    /// The buffer's invariant holds.
    pub open spec fn bem_formado(&self) -> bool {
        invariante(self@)
    }

    /// An empty buffer for `total_produtores` producers.
    pub fn new(capacidade: usize, total_produtores: usize) -> (r: Self)
        ensures
            r.bem_formado(),
            r@ == (EstadoBuffer {
                itens: Seq::empty(),
                capacidade: capacidade as nat,
                itens_produzidos: 0,
                produtores_finalizados: 0,
                total_produtores: total_produtores as nat,
                produzidos: Seq::empty(),
                consumidos: Seq::empty(),
            }),
    {
        let r = BufferCompartilhado {
            buffer: VecDeque::with_capacity(capacidade),
            capacidade,
            itens_produzidos: 0,
            produtores_finalizados: 0,
            total_produtores,
            produzidos: Ghost(Seq::empty()),
            consumidos: Ghost(Seq::empty()),
        };
        proof {
            assert(r@.consumidos + r@.itens =~= r@.produzidos);
        }
        r
    }

    /// Number of items waiting in the buffer.
    pub fn len(&self) -> (r: usize)
        ensures
            r == self@.itens.len(),
    {
        self.buffer.len()
    }

    /// How many items the buffer can hold.
    pub fn capacidade(&self) -> (r: usize)
        ensures
            r == self@.capacidade,
    {
        self.capacidade
    }

    /// Number of items produced so far.
    pub fn itens_produzidos(&self) -> (r: usize)
        ensures
            r == self@.itens_produzidos,
    {
        self.itens_produzidos
    }

    /// Number of producers that have finished.
    pub fn produtores_finalizados(&self) -> (r: usize)
        ensures
            r == self@.produtores_finalizados,
    {
        self.produtores_finalizados
    }

    /// One attempt of producer `id` to deliver its `i`-th item: wait while
    /// the buffer is full, otherwise append `id * 1000 + i` at the back.
    pub fn passo_produtor(&mut self, id: usize, i: usize) -> (r: PassoProdutor)
        requires
            old(self).bem_formado(),
            old(self)@.itens.len() < old(self)@.capacidade ==> {
                &&& i32::MIN <= (id as i32) * 1000 <= i32::MAX
                &&& i32::MIN <= item_de(id, i) <= i32::MAX
                &&& old(self)@.itens_produzidos < usize::MAX
            },
        ensures
            final(self).bem_formado(),
            old(self)@.itens.len() == old(self)@.capacidade ==> {
                &&& r == PassoProdutor::Espera
                &&& final(self)@ == old(self)@
            },
            old(self)@.itens.len() < old(self)@.capacidade ==> {
                &&& r == (PassoProdutor::Produziu {
                    item: item_de(id, i) as i32,
                    tamanho: (old(self)@.itens.len() + 1) as usize,
                })
                &&& final(self)@ == (EstadoBuffer {
                    itens: old(self)@.itens.push(item_de(id, i) as i32),
                    itens_produzidos: old(self)@.itens_produzidos + 1,
                    produzidos: old(self)@.produzidos.push(item_de(id, i) as i32),
                    ..old(self)@
                })
            },
    {
        if self.buffer.len() == self.capacidade {
            return PassoProdutor::Espera;
        }
        let item: i32 = (id as i32) * 1000 + i as i32;
        self.buffer.push_back(item);
        self.itens_produzidos = self.itens_produzidos + 1;
        proof {
            self.produzidos@ = self.produzidos@.push(item);
            assert(self@.consumidos + self@.itens =~= self@.produzidos);
        }
        PassoProdutor::Produziu { item, tamanho: self.buffer.len() }
    }

    /// A producer signals that it has delivered all its items; returns how
    /// many producers have finished now.
    pub fn finaliza_produtor(&mut self) -> (r: usize)
        requires
            old(self).bem_formado(),
            old(self)@.produtores_finalizados < usize::MAX,
        ensures
            final(self).bem_formado(),
            r == old(self)@.produtores_finalizados + 1,
            final(self)@ == (EstadoBuffer {
                produtores_finalizados: old(self)@.produtores_finalizados + 1,
                ..old(self)@
            }),
    {
        self.produtores_finalizados = self.produtores_finalizados + 1;
        self.produtores_finalizados
    }

    /// One attempt of a consumer: take the oldest item if there is one;
    /// otherwise stop when every producer has finished, or wait.
    pub fn passo_consumidor(&mut self) -> (r: PassoConsumidor)
        requires
            old(self).bem_formado(),
        ensures
            final(self).bem_formado(),
            old(self)@.itens.len() > 0 ==> {
                &&& r == (PassoConsumidor::Consumiu {
                    item: old(self)@.itens[0],
                    tamanho: (old(self)@.itens.len() - 1) as usize,
                })
                &&& final(self)@ == (EstadoBuffer {
                    itens: old(self)@.itens.drop_first(),
                    consumidos: old(self)@.consumidos.push(old(self)@.itens[0]),
                    ..old(self)@
                })
            },
            old(self)@.itens.len() == 0 ==> {
                &&& final(self)@ == old(self)@
                &&& r == if old(self)@.produtores_finalizados == old(self)@.total_produtores {
                    PassoConsumidor::Encerra
                } else {
                    PassoConsumidor::Espera
                }
            },
    {
        match self.buffer.pop_front() {
            Some(item) => {
                proof {
                    let old_itens = old(self)@.itens;
                    self.consumidos@ = self.consumidos@.push(item);
                    assert(self@.itens =~= old_itens.drop_first());
                    assert(self@.consumidos + self@.itens =~= old(self)@.consumidos + old_itens);
                }
                PassoConsumidor::Consumiu { item, tamanho: self.buffer.len() }
            },
            None => {
                if self.produtores_finalizados == self.total_produtores {
                    PassoConsumidor::Encerra
                } else {
                    PassoConsumidor::Espera
                }
            },
        }
    }

    /// One round of producer `p`, under the lock: while it still has items,
    /// deliver the next one (or wait if the buffer is full); once all are
    /// delivered, signal that it has finished.
    pub fn rodada_produtor(&mut self, p: &mut Produtor) -> (r: RodadaProdutor)
        requires
            old(self).bem_formado(),
            old(p).proximo <= old(p).quantidade,
            old(p).proximo < old(p).quantidade && old(self)@.itens.len() < old(self)@.capacidade ==> {
                &&& i32::MIN <= (old(p).id as i32) * 1000 <= i32::MAX
                &&& i32::MIN <= item_de(old(p).id, old(p).proximo) <= i32::MAX
                &&& old(self)@.itens_produzidos < usize::MAX
            },
            old(p).proximo == old(p).quantidade ==> old(self)@.produtores_finalizados < usize::MAX,
        ensures
            final(self).bem_formado(),
            final(p).id == old(p).id,
            final(p).quantidade == old(p).quantidade,
            final(p).proximo <= final(p).quantidade,
            old(p).proximo < old(p).quantidade && old(self)@.itens.len() == old(self)@.capacidade ==> {
                &&& r == RodadaProdutor::Espera
                &&& final(self)@ == old(self)@
                &&& final(p).proximo == old(p).proximo
            },
            old(p).proximo < old(p).quantidade && old(self)@.itens.len() < old(self)@.capacidade ==> {
                let item = item_de(old(p).id, old(p).proximo) as i32;
                &&& r == (RodadaProdutor::Produziu { item, tamanho: (old(self)@.itens.len() + 1) as usize })
                &&& final(self)@ == (EstadoBuffer {
                    itens: old(self)@.itens.push(item),
                    itens_produzidos: old(self)@.itens_produzidos + 1,
                    produzidos: old(self)@.produzidos.push(item),
                    ..old(self)@
                })
                &&& final(p).proximo == old(p).proximo + 1
            },
            old(p).proximo == old(p).quantidade ==> {
                &&& r == (RodadaProdutor::Finalizou { finalizados: (old(self)@.produtores_finalizados + 1) as usize })
                &&& final(self)@ == (EstadoBuffer {
                    produtores_finalizados: old(self)@.produtores_finalizados + 1,
                    ..old(self)@
                })
                &&& final(p).proximo == old(p).proximo
            },
    {
        if p.proximo == p.quantidade {
            let finalizados = self.finaliza_produtor();
            return RodadaProdutor::Finalizou { finalizados };
        }
        match self.passo_produtor(p.id, p.proximo) {
            PassoProdutor::Espera => RodadaProdutor::Espera,
            PassoProdutor::Produziu { item, tamanho } => {
                p.proximo = p.proximo + 1;
                RodadaProdutor::Produziu { item, tamanho }
            },
        }
    }
}

/// Items leave the buffer in the order they entered it: what has been
/// consumed is always a prefix of what has been produced.
pub proof fn lemma_ordem_de_chegada(e: EstadoBuffer)
    requires
        invariante(e),
    ensures
        e.consumidos.len() <= e.produzidos.len(),
        e.consumidos == e.produzidos.take(e.consumidos.len() as int),
{
    assert(e.consumidos =~= (e.consumidos + e.itens).take(e.consumidos.len() as int));
}

/// Nothing is lost: every item produced has either been consumed or is still
/// waiting, and the buffer never holds more than its capacity.
pub proof fn lemma_conservacao(e: EstadoBuffer)
    requires
        invariante(e),
    ensures
        e.itens_produzidos == e.consumidos.len() + e.itens.len(),
        e.itens.len() <= e.capacidade,
{
    assert((e.consumidos + e.itens).len() == e.consumidos.len() + e.itens.len());
}

/// Each item tells who made it and in which round: as long as the rounds
/// stay below 1000 and the value fits in an `i32`, two different
/// (producer, round) pairs never give the same item.
pub proof fn lemma_item_identifica(id1: usize, i1: usize, id2: usize, i2: usize)
    requires
        id1 <= i32::MAX,
        id2 <= i32::MAX,
        i1 < 1000,
        i2 < 1000,
        item_de(id1, i1) == item_de(id2, i2),
    ensures
        id1 == id2,
        i1 == i2,
{
    assert(id1 as i32 == id1 && id2 as i32 == id2 && i1 as i32 == i1 && i2 as i32 == i2);
    assert(id1 * 1000 + i1 == id2 * 1000 + i2);
    assert(id1 == id2 && i1 == i2) by (nonlinear_arith)
        requires
            id1 * 1000 + i1 == id2 * 1000 + i2,
            0 <= i1 < 1000,
            0 <= i2 < 1000,
            id1 >= 0,
            id2 >= 0;
}

} // verus!
