//! Messages of different kinds and the line that describes each one.

use vstd::prelude::*;
use vstd::string::StringExecFns;
use crate::texto::{decimal, escreve_decimal};

verus! {

/// A message: plain text, an image with its size, or a video with its length.
pub enum Message {
    Text(String),
    Image { url: String, width: u32, height: u32 },
    /// (url, duration in seconds)
    Video(String, u32),
}

/// The line that describes `msg`.
pub open spec fn descricao(msg: &Message) -> Seq<char> {
    match msg {
        Message::Text(texto) => "Mensagem de texto: "@ + texto@,
        Message::Image { url, width, height } => "Imagem: "@ + url@ + " ("@ + decimal(*width as nat)
            + "x"@ + decimal(*height as nat) + ")"@,
        Message::Video(url, duracao) => "Vídeo: "@ + url@ + " ("@ + decimal(*duracao as nat) + "s)"@,
    }
}

/// Describes a message according to its kind.
pub fn process_message(msg: Message) -> (r: String)
    ensures
        r@ == descricao(&msg),
{
    match msg {
        Message::Text(texto) => {
            let mut r = String::from_str("Mensagem de texto: ");
            r.append(texto.as_str());
            r
        },
        Message::Image { url, width, height } => {
            let mut r = String::from_str("Imagem: ");
            r.append(url.as_str());
            r.append(" (");
            escreve_decimal(&mut r, width as u64);
            r.append("x");
            escreve_decimal(&mut r, height as u64);
            r.append(")");
            r
        },
        Message::Video(url, duracao) => {
            let mut r = String::from_str("Vídeo: ");
            r.append(url.as_str());
            r.append(" (");
            escreve_decimal(&mut r, duracao as u64);
            r.append("s)");
            r
        },
    }
}

/// The image line gives the width first and the height second: after
/// "Imagem: ", the url and " (" come the decimal digits of the width, then
/// "x", then the digits of the height, then ")".
pub proof fn lemma_largura_antes_da_altura(url: String, width: u32, height: u32)
    ensures
        ({
            let d = descricao(&Message::Image { url, width, height });
            let p = ("Imagem: "@ + url@ + " ("@).len() as int;
            let lw = decimal(width as nat).len() as int;
            &&& d.subrange(0, p) == "Imagem: "@ + url@ + " ("@
            &&& d.subrange(p, p + lw) == decimal(width as nat)
            &&& d[p + lw] == 'x'
            &&& d.subrange(p + lw + 1, d.len() - 1) == decimal(height as nat)
            &&& d[d.len() - 1] == ')'
        }),
{
    reveal_strlit("x");
    reveal_strlit(")");
    let pre = "Imagem: "@ + url@ + " ("@;
    let dw = decimal(width as nat);
    let dh = decimal(height as nat);
    let d = descricao(&Message::Image { url, width, height });
    assert(d == pre + dw + "x"@ + dh + ")"@);
    let p = pre.len() as int;
    let lw = dw.len() as int;
    assert(d.subrange(0, p) =~= pre);
    assert(d.subrange(p, p + lw) =~= dw);
    assert(d[p + lw] == "x"@[0]);
    assert(d.subrange(p + lw + 1, d.len() - 1) =~= dh);
    assert(d[d.len() - 1] == ")"@[0]);
}

/// The video line gives the duration in seconds: after "Vídeo: ", the url
/// and " (" come the decimal digits of the duration, then "s)".
pub proof fn lemma_duracao_do_video(url: String, duracao: u32)
    ensures
        ({
            let d = descricao(&Message::Video(url, duracao));
            let p = ("Vídeo: "@ + url@ + " ("@).len() as int;
            let ld = decimal(duracao as nat).len() as int;
            &&& d.len() == p + ld + 2
            &&& d.subrange(0, p) == "Vídeo: "@ + url@ + " ("@
            &&& d.subrange(p, p + ld) == decimal(duracao as nat)
            &&& d[p + ld] == 's'
            &&& d[p + ld + 1] == ')'
        }),
{
    reveal_strlit("s)");
    let pre = "Vídeo: "@ + url@ + " ("@;
    let dd = decimal(duracao as nat);
    let d = descricao(&Message::Video(url, duracao));
    assert(d == pre + dd + "s)"@);
    let p = pre.len() as int;
    let ld = dd.len() as int;
    assert(d.subrange(0, p) =~= pre);
    assert(d.subrange(p, p + ld) =~= dd);
    assert(d[p + ld] == "s)"@[0]);
    assert(d[p + ld + 1] == "s)"@[1]);
}

/// The text line is the text itself after "Mensagem de texto: ".
pub proof fn lemma_texto_inteiro(texto: String)
    ensures
        ({
            let d = descricao(&Message::Text(texto));
            let p = "Mensagem de texto: "@.len() as int;
            &&& d.len() == p + texto@.len()
            &&& d.subrange(p, d.len() as int) == texto@
        }),
{
    let d = descricao(&Message::Text(texto));
    assert(d.subrange("Mensagem de texto: "@.len() as int, d.len() as int) =~= texto@);
}

} // verus!
