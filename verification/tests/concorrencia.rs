use exercicios_sd::buffer::{BufferCompartilhado, PassoConsumidor, PassoProdutor, Produtor, RodadaProdutor};
use exercicios_sd::ping_pong::{divisores_latencia, Acao, PingPong};

#[test]
fn produtor_espera_buffer_cheio() {
    let mut b = BufferCompartilhado::new(2, 1);
    assert_eq!(b.passo_produtor(0, 0), PassoProdutor::Produziu { item: 0, tamanho: 1 });
    assert_eq!(b.passo_produtor(0, 1), PassoProdutor::Produziu { item: 1, tamanho: 2 });
    assert_eq!(b.passo_produtor(0, 2), PassoProdutor::Espera);
    assert_eq!(b.len(), 2);
    assert_eq!(b.itens_produzidos(), 2);
}

#[test]
fn item_identifica_o_produtor() {
    let mut b = BufferCompartilhado::new(10, 3);
    assert_eq!(b.passo_produtor(2, 49), PassoProdutor::Produziu { item: 2049, tamanho: 1 });
    assert_eq!(b.passo_produtor(1, 0), PassoProdutor::Produziu { item: 1000, tamanho: 2 });
}

#[test]
fn consumidor_na_ordem_de_chegada() {
    let mut b = BufferCompartilhado::new(10, 2);
    b.passo_produtor(1, 0);
    b.passo_produtor(0, 5);
    b.passo_produtor(1, 1);
    assert_eq!(b.passo_consumidor(), PassoConsumidor::Consumiu { item: 1000, tamanho: 2 });
    assert_eq!(b.passo_consumidor(), PassoConsumidor::Consumiu { item: 5, tamanho: 1 });
    assert_eq!(b.passo_consumidor(), PassoConsumidor::Consumiu { item: 1001, tamanho: 0 });
    assert_eq!(b.passo_consumidor(), PassoConsumidor::Espera);
}

#[test]
fn consumidor_encerra_quando_todos_finalizam() {
    let mut b = BufferCompartilhado::new(1, 2);
    assert_eq!(b.finaliza_produtor(), 1);
    assert_eq!(b.passo_consumidor(), PassoConsumidor::Espera);
    b.passo_produtor(1, 0);
    assert_eq!(b.finaliza_produtor(), 2);
    // items still waiting are consumed before stopping
    assert_eq!(b.passo_consumidor(), PassoConsumidor::Consumiu { item: 1000, tamanho: 0 });
    assert_eq!(b.passo_consumidor(), PassoConsumidor::Encerra);
    assert_eq!(b.produtores_finalizados(), 2);
}

#[test]
fn buffer_capacidade_zero_sempre_espera() {
    let mut b = BufferCompartilhado::new(0, 1);
    assert_eq!(b.passo_produtor(0, 0), PassoProdutor::Espera);
    assert_eq!(b.len(), 0);
}

#[test]
fn execucao_completa_tres_produtores_dois_consumidores() {
    // the configuration of the exercise: capacity 10, 3 producers of 50 items,
    // 2 consumers, interleaved round robin
    let mut b = BufferCompartilhado::new(10, 3);
    let mut proximo = [0usize; 3];
    let mut finalizado = [false; 3];
    let mut consumidos: Vec<Vec<i32>> = vec![vec![], vec![]];
    let mut encerrado = [false; 2];
    let mut todos: Vec<i32> = vec![];
    let mut passos = 0;
    while !(encerrado[0] && encerrado[1]) {
        passos += 1;
        assert!(passos < 100_000);
        for id in 0..3 {
            if proximo[id] < 50 {
                if let PassoProdutor::Produziu { item, .. } = b.passo_produtor(id, proximo[id]) {
                    todos.push(item);
                    proximo[id] += 1;
                }
                assert!(b.len() <= 10);
            } else if !finalizado[id] {
                b.finaliza_produtor();
                finalizado[id] = true;
            }
        }
        for c in 0..2 {
            if !encerrado[c] {
                match b.passo_consumidor() {
                    PassoConsumidor::Consumiu { item, .. } => consumidos[c].push(item),
                    PassoConsumidor::Encerra => encerrado[c] = true,
                    PassoConsumidor::Espera => {}
                }
            }
        }
    }
    assert_eq!(b.itens_produzidos(), 150);
    assert_eq!(b.len(), 0);
    let mut recebidos: Vec<i32> = consumidos.concat();
    assert_eq!(recebidos.len(), 150);
    recebidos.sort();
    todos.sort();
    assert_eq!(recebidos, todos);
}

#[test]
fn ping_pong_exige_dois_processos() {
    assert!(PingPong::new(0, 3, 10).is_none());
    assert!(PingPong::new(0, 1, 10).is_none());
    let p = PingPong::new(1, 2, 10).unwrap();
    assert_eq!((p.rank, p.parceiro, p.contador, p.max_msgs), (1, 0, 0, 10));
}

#[test]
fn ping_pong_dois_processos_alternam() {
    let max = 5;
    let mut p0 = PingPong::new(0, 2, max).unwrap();
    let mut p1 = PingPong::new(1, 2, max).unwrap();
    let mut enviados: Vec<(i32, i32)> = vec![];
    loop {
        let a0 = p0.proxima_acao();
        let a1 = p1.proxima_acao();
        match (a0, a1) {
            (Acao::Envia { destino, valor }, Acao::Recebe { origem }) => {
                assert_eq!((destino, origem), (1, 0));
                p1.recebeu(valor);
                enviados.push((0, valor));
            }
            (Acao::Recebe { origem }, Acao::Envia { destino, valor }) => {
                assert_eq!((destino, origem), (0, 1));
                p0.recebeu(valor);
                enviados.push((1, valor));
            }
            (Acao::Fim, Acao::Fim) => break,
            outro => panic!("unexpected pair of actions {:?}", outro),
        }
    }
    assert_eq!(enviados, vec![(0, 1), (1, 2), (0, 3), (1, 4), (0, 5)]);
    assert_eq!((p0.contador, p1.contador), (5, 5));
}

#[test]
fn ping_pong_sem_mensagens() {
    let mut p = PingPong::new(0, 2, 0).unwrap();
    assert_eq!(p.proxima_acao(), Acao::Fim);
    let mut p = PingPong::new(1, 2, -3).unwrap();
    assert_eq!(p.proxima_acao(), Acao::Fim);
}

#[test]
fn divisores_nunca_zero() {
    assert_eq!(divisores_latencia(1000), (1000, 500));
    assert_eq!(divisores_latencia(1), (1, 1));
    assert_eq!(divisores_latencia(0), (1, 1));
    assert_eq!(divisores_latencia(-7), (1, 1));
    assert_eq!(divisores_latencia(3), (3, 1));
}

#[test]
fn rodadas_de_um_produtor() {
    let mut b = BufferCompartilhado::new(1, 1);
    let mut p = Produtor::new(3, 2);
    assert_eq!(b.rodada_produtor(&mut p), RodadaProdutor::Produziu { item: 3000, tamanho: 1 });
    assert_eq!(b.rodada_produtor(&mut p), RodadaProdutor::Espera);
    assert_eq!(p.proximo, 1);
    assert_eq!(b.passo_consumidor(), PassoConsumidor::Consumiu { item: 3000, tamanho: 0 });
    assert_eq!(b.rodada_produtor(&mut p), RodadaProdutor::Produziu { item: 3001, tamanho: 1 });
    assert_eq!(b.passo_consumidor(), PassoConsumidor::Consumiu { item: 3001, tamanho: 0 });
    assert_eq!(b.passo_consumidor(), PassoConsumidor::Espera);
    assert_eq!(b.rodada_produtor(&mut p), RodadaProdutor::Finalizou { finalizados: 1 });
    assert_eq!(b.passo_consumidor(), PassoConsumidor::Encerra);
}

#[test]
fn produtor_sem_itens_finaliza_logo() {
    let mut b = BufferCompartilhado::new(5, 2);
    let mut p = Produtor::new(0, 0);
    assert_eq!(b.rodada_produtor(&mut p), RodadaProdutor::Finalizou { finalizados: 1 });
}
