# exercicios_sd

Verified core of a set of small exercises on Rust basics, concurrency and
distributed computing (threads, a bounded producer/consumer buffer, MPI
ping-pong and pi, a parallel Mandelbrot renderer, word counting).

- `src/` is the library, verified with Verus: the decisions of the
  producer/consumer buffer (`buffer`), of the ping-pong exchange
  (`ping_pong`), the split of the pi series among processes (`calculo_pi`),
  the row-major rendering, sequential and with rayon, and the PGM text
  (`mandelbrot`), word splitting and counting (`palavras`), greeting
  (`saudacao`), message descriptions (`enums`), the calculator's operator
  (`calculadora`), the filtered sum (`iterators`) and shared text helpers
  (`texto`).
- `app/` runs each exercise (`<binary> <programa> [args]`): threads, locks,
  MPI, files, standard input and all floating-point arithmetic live there.
- `tests/` exercises the library on concrete values.
