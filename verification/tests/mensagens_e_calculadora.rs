use exercicios_sd::calculadora::{interpreta_operacao, Operacao};
use exercicios_sd::enums::{process_message, Message};
use exercicios_sd::iterators::soma_e_quantidade;

#[test]
fn mensagem_de_texto() {
    let m = Message::Text(String::from("Olá, mundo!"));
    assert_eq!(process_message(m), "Mensagem de texto: Olá, mundo!");
}

#[test]
fn mensagem_de_imagem() {
    let m = Message::Image {
        url: String::from("https://exemplo.com/imagem.png"),
        width: 800,
        height: 600,
    };
    assert_eq!(process_message(m), "Imagem: https://exemplo.com/imagem.png (800x600)");
}

#[test]
fn mensagem_de_video() {
    let m = Message::Video(String::from("https://exemplo.com/video.mp4"), 120);
    assert_eq!(process_message(m), "Vídeo: https://exemplo.com/video.mp4 (120s)");
    let m = Message::Video(String::new(), 0);
    assert_eq!(process_message(m), "Vídeo:  (0s)");
}

#[test]
fn operacoes_validas() {
    assert_eq!(interpreta_operacao("+"), Ok(Operacao::Soma));
    assert_eq!(interpreta_operacao("-"), Ok(Operacao::Subtracao));
    assert_eq!(interpreta_operacao("*"), Ok(Operacao::Multiplicacao));
    assert_eq!(interpreta_operacao("/"), Ok(Operacao::Divisao));
}

#[test]
fn operacao_invalida() {
    assert_eq!(interpreta_operacao("%"), Err(String::from("Operação inválida: %")));
    assert_eq!(interpreta_operacao("++"), Err(String::from("Operação inválida: ++")));
    assert_eq!(interpreta_operacao(""), Err(String::from("Operação inválida: ")));
    assert_eq!(interpreta_operacao("x"), Err(String::from("Operação inválida: x")));
}

#[test]
fn soma_dos_maiores_que_dez() {
    let numbers = vec![1, 21, 3, 47, 5];
    assert_eq!(soma_e_quantidade(&numbers), (68, 2));
}

#[test]
fn nenhum_maior_que_dez() {
    assert_eq!(soma_e_quantidade(&vec![1, 10, -50, 3]), (0, 0));
    assert_eq!(soma_e_quantidade(&vec![]), (0, 0));
    assert_eq!(soma_e_quantidade(&vec![11]), (11, 1));
}
