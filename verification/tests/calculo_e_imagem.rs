use exercicios_sd::calculo_pi::make_ranges_flat;
use exercicios_sd::mandelbrot::{linha, render_mandelbrot_par, render_mandelbrot_seq, texto_pgm};

#[test]
fn intervalos_divisao_exata() {
    assert_eq!(make_ranges_flat(100, 4), vec![0, 25, 25, 50, 50, 75, 75, 100]);
}

#[test]
fn intervalos_ultimo_leva_o_resto() {
    assert_eq!(make_ranges_flat(10, 3), vec![0, 3, 3, 6, 6, 10]);
    assert_eq!(make_ranges_flat(2, 4), vec![0, 0, 0, 0, 0, 0, 0, 2]);
    assert_eq!(make_ranges_flat(7, 1), vec![0, 7]);
}

#[test]
fn intervalos_cobrem_tudo() {
    let n = 100_000_000i64;
    for p in 1..=9 {
        let flat = make_ranges_flat(n, p);
        assert_eq!(flat.len(), 2 * p as usize);
        assert_eq!(flat[0], 0);
        assert_eq!(flat[flat.len() - 1], n);
        for r in 0..(p as usize - 1) {
            assert_eq!(flat[2 * r + 1], flat[2 * r + 2]);
        }
        let total: i64 = (0..p as usize).map(|r| flat[2 * r + 1] - flat[2 * r]).sum();
        assert_eq!(total, n);
    }
}

#[test]
fn intervalos_n_negativo() {
    assert_eq!(make_ranges_flat(-7, 2), vec![0, -3, -3, -7]);
}

#[test]
fn imagem_sequencial_linha_a_linha() {
    let img = render_mandelbrot_seq(3, 2, |x, y| (10 * y + x) as u32);
    assert_eq!(img, vec![0, 1, 2, 10, 11, 12]);
}

#[test]
fn imagem_paralela_igual_a_sequencial() {
    let f = |x: usize, y: usize| ((x * 7 + y * 13) % 17) as u32;
    let a = render_mandelbrot_seq(40, 30, f);
    let b = render_mandelbrot_par(40, 30, f);
    assert_eq!(a.len(), 1200);
    assert_eq!(a, b);
    assert_eq!(b[2 * 40 + 5], f(5, 2));
}

#[test]
fn imagem_vazia() {
    assert!(render_mandelbrot_seq(0, 5, |_, _| 1).is_empty());
    assert!(render_mandelbrot_par(5, 0, |_, _| 1).is_empty());
}

#[test]
fn pgm_pequeno() {
    let t = texto_pgm(&vec![0, 255, 7, 128, 1, 2], 3, 2);
    assert_eq!(t, "P2\n3 2\n255\n0 255 7 \n128 1 2 \n");
}

#[test]
fn pgm_sem_pixels() {
    assert_eq!(texto_pgm(&vec![], 0, 2), "P2\n0 2\n255\n\n\n");
    assert_eq!(texto_pgm(&vec![9, 9], 2, 0), "P2\n2 0\n255\n");
}

#[test]
fn uma_linha_da_imagem() {
    let f = |x: usize, y: usize| (100 * y + x) as u32;
    assert_eq!(linha(4, 2, &f), vec![200, 201, 202, 203]);
    assert!(linha(0, 2, &f).is_empty());
}
