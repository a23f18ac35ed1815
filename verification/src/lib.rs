//! Verified core of a collection of small exercises on strings, collections and
//! concurrent / distributed programs.

pub mod ownership;
pub mod buffer;
pub mod ping_pong;
pub mod calculo_pi;
pub mod texto;
pub mod palavras;
pub mod saudacao;
pub mod enums;
pub mod calculadora;
pub mod iterators;
pub mod mandelbrot;
