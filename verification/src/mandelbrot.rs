//! Rendering an image pixel by pixel, sequentially or in parallel, and
//! writing it as an ASCII grayscale PGM file.
//!
//! The escape-time computation of each pixel is floating-point arithmetic and
//! is supplied by the caller as a function of the pixel's coordinates. The
//! image is laid out row by row: pixel `(x, y)` is at index `y * width + x`.

use vstd::prelude::*;
use vstd::string::StringExecFns;
use crate::texto::{decimal, escreve_decimal};
use rayon::iter::{IntoParallelIterator, ParallelIterator};

verus! {

/// `img` is the image of `pixel` over a `width` by `height` grid: it has one
/// entry per pixel, and the entry of pixel `(x, y)`, at index `y * width + x`,
/// is a value that `pixel(x, y)` can return.
pub open spec fn imagem_de<F: Fn(usize, usize) -> u32>(pixel: F, width: nat, height: nat, img: Seq<u32>) -> bool {
    &&& img.len() == width * height
    &&& forall|x: usize, y: usize|
        x < width && y < height ==> #[trigger] call_ensures(pixel, (x, y), img[y * width + x])
}

/// `pixel` may be called on every pixel of the grid.
pub open spec fn pode_calcular<F: Fn(usize, usize) -> u32>(pixel: F, width: nat, height: nat) -> bool {
    forall|x: usize, y: usize| x < width && y < height ==> #[trigger] call_requires(pixel, (x, y))
}

/// `pixel` always gives the same value for the same pixel.
pub open spec fn deterministica<F: Fn(usize, usize) -> u32>(pixel: F) -> bool {
    forall|x: usize, y: usize, a: u32, b: u32|
        #[trigger] call_ensures(pixel, (x, y), a) && #[trigger] call_ensures(pixel, (x, y), b) ==> a == b
}

proof fn lemma_indice(x: int, y: int, width: int, height: int)
    requires
        0 <= x < width,
        0 <= y < height,
    ensures
        0 <= y * width + x < width * height,
        y * width + x + 1 <= width * height,
{
    assert(y * width + x < width * height) by (nonlinear_arith)
        requires 0 <= x < width, 0 <= y < height;
    assert(0 <= y * width) by (nonlinear_arith)
        requires 0 <= y, 0 <= width;
}

proof fn lemma_indices_distintos(x1: int, y1: int, x2: int, y2: int, width: int)
    requires
        0 <= x1 < width,
        0 <= x2 < width,
        0 <= y1,
        0 <= y2,
        x1 != x2 || y1 != y2,
    ensures
        y1 * width + x1 != y2 * width + x2,
{
    if y1 == y2 {
    } else if y1 < y2 {
        assert(y1 * width + x1 < y2 * width + x2) by (nonlinear_arith)
            requires 0 <= x1 < width, 0 <= x2, y1 < y2, 0 <= y1;
    } else {
        assert(y2 * width + x2 < y1 * width + x1) by (nonlinear_arith)
            requires 0 <= x2 < width, 0 <= x1, y2 < y1, 0 <= y2;
    }
}

/// Renders the image sequentially, row after row.
pub fn render_mandelbrot_seq<F: Fn(usize, usize) -> u32>(width: usize, height: usize, pixel: F) -> (img: Vec<u32>)
    requires
        width * height <= usize::MAX,
        pode_calcular(pixel, width as nat, height as nat),
    ensures
        imagem_de(pixel, width as nat, height as nat, img@),
{
    let total = width * height;
    let mut data: Vec<u32> = vec![0u32; total];
    let mut y: usize = 0;
    while y < height
        invariant
            total == width * height,
            data@.len() == total,
            0 <= y <= height,
            pode_calcular(pixel, width as nat, height as nat),
            forall|x1: usize, y1: usize| x1 < width && y1 < y ==>
                #[trigger] call_ensures(pixel, (x1, y1), data@[y1 * width + x1]),
        decreases height - y,
    {
        let mut x: usize = 0;
        while x < width
            invariant
                total == width * height,
                data@.len() == total,
                0 <= y < height,
                0 <= x <= width,
                pode_calcular(pixel, width as nat, height as nat),
                forall|x1: usize, y1: usize| (y1 < y && x1 < width) || (y1 == y && x1 < x) ==>
                    #[trigger] call_ensures(pixel, (x1, y1), data@[y1 * width + x1]),
            decreases width - x,
        {
            proof {
                lemma_indice(x as int, y as int, width as int, height as int);
            }
            let valor = pixel(x, y);
            let idx = y * width + x;
            let ghost antes = data@;
            data.set(idx, valor);
            proof {
                assert forall|x1: usize, y1: usize| (y1 < y && x1 < width) || (y1 == y && x1 < x + 1) implies
                    #[trigger] call_ensures(pixel, (x1, y1), data@[y1 * width + x1]) by {
                    if x1 != x || y1 != y {
                        lemma_indices_distintos(x1 as int, y1 as int, x as int, y as int, width as int);
                        lemma_indice(x1 as int, y1 as int, width as int, height as int);
                        assert(data@[y1 * width + x1] == antes[y1 * width + x1]);
                    }
                }
            }
            x = x + 1;
        }
        y = y + 1;
    }
    data
}

/// Row `y` of the image: `pixel(x, y)` for `x` in `0..width`, in order.
pub fn linha<F: Fn(usize, usize) -> u32>(width: usize, y: usize, pixel: &F) -> (v: Vec<u32>)
    requires
        forall|x: usize| x < width ==> #[trigger] call_requires(*pixel, (x, y)),
    ensures
        v@.len() == width,
        forall|x: usize| x < width ==> #[trigger] call_ensures(*pixel, (x, y), v@[x as int]),
{
    let mut v: Vec<u32> = Vec::with_capacity(width);
    let mut x: usize = 0;
    while x < width
        invariant
            0 <= x <= width,
            v@.len() == x,
            forall|x1: usize| x1 < width ==> #[trigger] call_requires(*pixel, (x1, y)),
            forall|x1: usize| x1 < x ==> #[trigger] call_ensures(*pixel, (x1, y), v@[x1 as int]),
        decreases width - x,
    {
        let valor = pixel(x, y);
        v.push(valor);
        x = x + 1;
    }
    v
}

/// Row `y` of the image together with its row number.
fn linha_numerada<F: Fn(usize, usize) -> u32>(width: usize, y: usize, pixel: &F) -> (r: (usize, Vec<u32>))
    requires
        forall|x: usize| x < width ==> #[trigger] call_requires(*pixel, (x, y)),
    ensures
        r.0 == y,
        r.1@.len() == width,
        forall|x: usize| x < width ==> #[trigger] call_ensures(*pixel, (x, y), r.1@[x as int]),
{
    (y, linha(width, y, pixel))
}

/// Calls rayon: the rows `0..height` are spread over the current thread pool
/// (`into_par_iter`), each is computed by the verified [`linha_numerada`]
/// (`map`), and `collect` gathers the numbered rows into a vector. The
/// contract only says that every item gathered is a numbered row that
/// [`linha_numerada`] gave for a row number below `height`; where each row
/// ends up in the vector, and whether every row is there, is not stated
/// here: the caller checks the numbers.
#[verifier::external_body]
fn coleta_em_paralelo<F: Fn(usize, usize) -> u32 + Sync + Send>(width: usize, height: usize, pixel: &F) -> (linhas: Vec<(usize, Vec<u32>)>)
    requires
        pode_calcular(*pixel, width as nat, height as nat),
    ensures
        forall|i: int| 0 <= i < linhas@.len() ==> {
            &&& #[trigger] linhas@[i].0 < height
            &&& linhas@[i].1@.len() == width
            &&& forall|x: usize| x < width ==> #[trigger] call_ensures(*pixel, (x, linhas@[i].0), linhas@[i].1@[x as int])
        },
{
    (0..height).into_par_iter().map(|y| linha_numerada(width, y, pixel)).collect()
}

proof fn lemma_linhas_anteriores(x1: int, y1: int, y: int, width: int)
    requires
        0 <= x1 < width,
        0 <= y1 < y,
    ensures
        y1 * width + x1 < y * width,
        (y + 1) * width == y * width + width,
{
    assert(y1 * width + x1 < y * width) by (nonlinear_arith)
        requires 0 <= x1 < width, 0 <= y1 < y;
    assert((y + 1) * width == y * width + width) by (nonlinear_arith);
}

/// Renders the image in parallel, distributing the rows over the threads of
/// the current rayon pool, then laying the rows out one after the other; a
/// row that does not come back under its own number is computed here.
#[verifier::spinoff_prover]
pub fn render_mandelbrot_par<F: Fn(usize, usize) -> u32 + Sync + Send>(width: usize, height: usize, pixel: F) -> (img: Vec<u32>)
    requires
        width * height <= usize::MAX,
        pode_calcular(pixel, width as nat, height as nat),
    ensures
        imagem_de(pixel, width as nat, height as nat, img@),
{
    let linhas = coleta_em_paralelo(width, height, &pixel);
    proof {
        assert forall|i: int| 0 <= i < linhas@.len() implies {
            &&& #[trigger] linhas@[i].0 < height
            &&& linhas@[i].1@.len() == width
            &&& forall|x: usize| x < width ==> #[trigger] call_ensures(pixel, (x, linhas@[i].0), linhas@[i].1@[x as int])
        } by {
            assert(linhas@[i].0 < height);
        }
    }
    let mut img: Vec<u32> = Vec::new();
    let mut y: usize = 0;
    while y < height
        invariant
            0 <= y <= height,
            width * height <= usize::MAX,
            pode_calcular(pixel, width as nat, height as nat),
            forall|i: int| 0 <= i < linhas@.len() ==> {
                &&& #[trigger] linhas@[i].0 < height
                &&& linhas@[i].1@.len() == width
                &&& forall|x: usize| x < width ==> #[trigger] call_ensures(pixel, (x, linhas@[i].0), linhas@[i].1@[x as int])
            },
            img@.len() == y * width,
            forall|x1: usize, y1: usize| x1 < width && y1 < y ==>
                #[trigger] call_ensures(pixel, (x1, y1), img@[y1 * width + x1]),
        decreases height - y,
    {
        let calculada: Vec<u32>;
        let fila: &Vec<u32> = if y < linhas.len() && linhas[y].0 == y {
            &linhas[y].1
        } else {
            calculada = linha(width, y, &pixel);
            &calculada
        };
        let ghost inicio = img@;
        let mut x: usize = 0;
        while x < width
            invariant
                0 <= x <= width,
                y < height,
                width * height <= usize::MAX,
                fila@.len() == width,
                forall|x1: usize| x1 < width ==> #[trigger] call_ensures(pixel, (x1, y), fila@[x1 as int]),
                img@.len() == y * width + x,
                img@.subrange(0, y * width) == inicio,
                inicio.len() == y * width,
                forall|x1: usize| x1 < x ==> #[trigger] call_ensures(pixel, (x1, y), img@[y * width + x1]),
            decreases width - x,
        {
            proof {
                lemma_indice(x as int, y as int, width as int, height as int);
            }
            let ghost antes = img@;
            img.push(fila[x]);
            proof {
                assert(img@.subrange(0, y * width) =~= antes.subrange(0, y * width));
                assert forall|x1: usize| x1 < x + 1 implies #[trigger] call_ensures(pixel, (x1, y), img@[y * width + x1]) by {
                    if x1 < x {
                        assert(img@[y * width + x1] == antes[y * width + x1]);
                    }
                }
            }
            x = x + 1;
        }
        proof {
            assert forall|x1: usize, y1: usize| x1 < width && y1 < y + 1 implies
                #[trigger] call_ensures(pixel, (x1, y1), img@[y1 * width + x1]) by {
                if y1 < y {
                    lemma_linhas_anteriores(x1 as int, y1 as int, y as int, width as int);
                    assert(img@[y1 * width + x1] == img@.subrange(0, y * width)[y1 * width + x1]);
                    assert(inicio[y1 * width + x1] == img@[y1 * width + x1]);
                }
            }
            assert((y + 1) * width == y * width + width) by (nonlinear_arith);
        }
        y = y + 1;
    }
    proof {
        assert(height * width == width * height) by (nonlinear_arith);
    }
    img
}

/// With a deterministic pixel function there is only one image of it: the
/// sequential and the parallel renderings are the same image.
pub proof fn lemma_mesma_imagem<F: Fn(usize, usize) -> u32>(pixel: F, width: nat, height: nat, a: Seq<u32>, b: Seq<u32>)
    requires
        width <= usize::MAX,
        height <= usize::MAX,
        deterministica(pixel),
        imagem_de(pixel, width, height, a),
        imagem_de(pixel, width, height, b),
    ensures
        a == b,
{
    assert forall|i: int| 0 <= i < a.len() implies a[i] == b[i] by {
        let x = i % (width as int);
        let y = i / (width as int);
        assert(width > 0) by {
            if width == 0 {
                assert(a.len() == 0) by (nonlinear_arith) requires a.len() == width * height, width == 0;
            }
        }
        assert(i == y * width + x && 0 <= x < width && 0 <= y < height) by (nonlinear_arith)
            requires width > 0, 0 <= i < width * height, x == i % (width as int), y == i / (width as int);
        let xu = x as usize;
        let yu = y as usize;
        assert(call_ensures(pixel, (xu, yu), a[yu * width + xu]));
        assert(call_ensures(pixel, (xu, yu), b[yu * width + xu]));
    }
    assert(a =~= b);
}

/// Row `y` of the PGM body up to column `ate`: each gray level in decimal
/// followed by a space.
pub open spec fn linha_pgm(niveis: Seq<u32>, width: nat, y: nat, ate: nat) -> Seq<char>
    decreases ate,
{
    if ate == 0 {
        Seq::empty()
    } else {
        linha_pgm(niveis, width, y, (ate - 1) as nat) + decimal(niveis[y * width + ate - 1] as nat) + seq![' ']
    }
}

/// The first `ate` rows of the PGM body, each ended by a newline.
pub open spec fn corpo_pgm(niveis: Seq<u32>, width: nat, ate: nat) -> Seq<char>
    decreases ate,
{
    if ate == 0 {
        Seq::empty()
    } else {
        corpo_pgm(niveis, width, (ate - 1) as nat) + linha_pgm(niveis, width, (ate - 1) as nat, width) + seq!['\n']
    }
}

/// An ASCII ("P2") PGM file: the magic line, the size, the maximum gray
/// level 255, then the rows of gray levels.
pub open spec fn pgm(niveis: Seq<u32>, width: nat, height: nat) -> Seq<char> {
    seq!['P', '2', '\n'] + decimal(width) + seq![' '] + decimal(height) + seq!['\n']
        + seq!['2', '5', '5', '\n'] + corpo_pgm(niveis, width, height)
}

/// Writes a `width` by `height` image of gray levels (`niveis`, pixel
/// `(x, y)` at `y * width + x`) as the text of an ASCII PGM file.
pub fn texto_pgm(niveis: &[u32], width: usize, height: usize) -> (r: String)
    requires
        width * height <= niveis@.len(),
    ensures
        r@ == pgm(niveis@, width as nat, height as nat),
{
    let tamanho = niveis.len();
    let mut r = String::new();
    r.append("P2\n");
    escreve_decimal(&mut r, width as u64);
    r.append(" ");
    escreve_decimal(&mut r, height as u64);
    r.append("\n");
    r.append("255\n");
    proof {
        reveal_strlit("P2\n");
        reveal_strlit(" ");
        reveal_strlit("\n");
        reveal_strlit("255\n");
        assert(r@ =~= pgm(niveis@, width as nat, height as nat).subrange(0, r@.len() as int));
    }
    let ghost cabecalho = r@;
    proof {
        assert(cabecalho + corpo_pgm(niveis@, width as nat, 0) =~= cabecalho);
    }
    let mut y: usize = 0;
    while y < height
        invariant
            width * height <= niveis@.len(),
            tamanho == niveis@.len(),
            0 <= y <= height,
            r@ == cabecalho + corpo_pgm(niveis@, width as nat, y as nat),
            cabecalho + corpo_pgm(niveis@, width as nat, height as nat) == pgm(niveis@, width as nat, height as nat),
        decreases height - y,
    {
        let ghost antes = r@;
        let mut x: usize = 0;
        while x < width
            invariant
                width * height <= niveis@.len(),
                tamanho == niveis@.len(),
                0 <= y < height,
                0 <= x <= width,
                r@ == antes + linha_pgm(niveis@, width as nat, y as nat, x as nat),
            decreases width - x,
        {
            proof {
                lemma_indice(x as int, y as int, width as int, height as int);
            }
            let nivel = niveis[y * width + x];
            escreve_decimal(&mut r, nivel as u64);
            r.append(" ");
            proof {
                reveal_strlit(" ");
                assert(r@ =~= antes + linha_pgm(niveis@, width as nat, y as nat, (x + 1) as nat));
            }
            x = x + 1;
        }
        r.append("\n");
        proof {
            reveal_strlit("\n");
            assert(r@ =~= cabecalho + corpo_pgm(niveis@, width as nat, (y + 1) as nat));
        }
        y = y + 1;
    }
    r
}

/// An image is its rows laid one after the other: it holds `height` blocks
/// of `width` entries, and block `y` is row `y`, its entry `x` being a value
/// of `pixel(x, y)`.
pub proof fn lemma_imagem_em_linhas<F: Fn(usize, usize) -> u32>(pixel: F, width: nat, height: nat, img: Seq<u32>)
    requires
        width <= usize::MAX,
        height <= usize::MAX,
        imagem_de(pixel, width, height, img),
    ensures
        img.len() == width * height,
        forall|y: usize| y < height ==> {
            let linha = #[trigger] img.subrange(y * width, (y + 1) * width);
            &&& linha.len() == width
            &&& forall|x: usize| x < width ==> #[trigger] call_ensures(pixel, (x, y), linha[x as int])
        },
{
    assert forall|y: usize| y < height implies {
        let linha = #[trigger] img.subrange(y * width, (y + 1) * width);
        &&& linha.len() == width
        &&& forall|x: usize| x < width ==> #[trigger] call_ensures(pixel, (x, y), linha[x as int])
    } by {
        assert((y + 1) * width <= width * height && 0 <= y * width && (y + 1) * width == y * width + width) by (nonlinear_arith)
            requires y < height;
        let linha = img.subrange(y * width, (y + 1) * width);
        assert forall|x: usize| x < width implies #[trigger] call_ensures(pixel, (x, y), linha[x as int]) by {
            assert(linha[x as int] == img[y * width + x]);
        }
    }
}

/// One row of the PGM body written out: for every column, the gray level in
/// decimal and a space, then a newline.
pub open spec fn linha_escrita(niveis: Seq<u32>, width: nat, y: nat) -> Seq<char> {
    Seq::new(width, |x: int| decimal(niveis[y * width + x] as nat) + seq![' ']).flatten_alt() + seq!['\n']
}

proof fn lemma_linha_pgm(niveis: Seq<u32>, width: nat, y: nat, ate: nat)
    ensures
        linha_pgm(niveis, width, y, ate)
            == Seq::new(ate, |x: int| decimal(niveis[y * width + x] as nat) + seq![' ']).flatten_alt(),
    decreases ate,
{
    let f = |x: int| decimal(niveis[y * width + x] as nat) + seq![' '];
    if ate > 0 {
        lemma_linha_pgm(niveis, width, y, (ate - 1) as nat);
        assert(Seq::new(ate, f).drop_last() =~= Seq::new((ate - 1) as nat, f));
    } else {
        assert(Seq::new(0, f).flatten_alt() == Seq::<char>::empty());
    }
}

proof fn lemma_corpo_pgm(niveis: Seq<u32>, width: nat, ate: nat)
    ensures
        corpo_pgm(niveis, width, ate) == Seq::new(ate, |y: int| linha_escrita(niveis, width, y as nat)).flatten_alt(),
    decreases ate,
{
    let g = |y: int| linha_escrita(niveis, width, y as nat);
    if ate > 0 {
        lemma_corpo_pgm(niveis, width, (ate - 1) as nat);
        lemma_linha_pgm(niveis, width, (ate - 1) as nat, width);
        assert(Seq::new(ate, g).drop_last() =~= Seq::new((ate - 1) as nat, g));
        assert(Seq::new(ate, g).last() == linha_escrita(niveis, width, (ate - 1) as nat));
    } else {
        assert(Seq::new(0, g).flatten_alt() == Seq::<char>::empty());
    }
}

/// The PGM text is the header "P2", the size "width height", the maximum
/// "255", each on its own line, followed by the rows from top to bottom,
/// each row listing its gray levels from left to right.
pub proof fn lemma_texto_pgm_por_linhas(niveis: Seq<u32>, width: nat, height: nat)
    ensures
        pgm(niveis, width, height) == seq!['P', '2', '\n'] + decimal(width) + seq![' '] + decimal(height)
            + seq!['\n', '2', '5', '5', '\n']
            + Seq::new(height, |y: int| linha_escrita(niveis, width, y as nat)).flatten_alt(),
{
    lemma_corpo_pgm(niveis, width, height);
    let cab = seq!['P', '2', '\n'] + decimal(width) + seq![' '] + decimal(height);
    assert(cab + seq!['\n'] + seq!['2', '5', '5', '\n'] =~= cab + seq!['\n', '2', '5', '5', '\n']);
}

} // verus!
