use magrustte::driver::Context;
use magrustte::filters::blur::{Blur, Mode};
use magrustte::filters::compose::{ChainError, Compose};
use magrustte::filters::grayscale::Grayscale;
use magrustte::filters::invert::Invert;
use magrustte::filters::lighting::Lighting;
use magrustte::filters::sepia::Sepia;
use magrustte::filters::threshold::Threshold;
use magrustte::filters::Filter;
use magrustte::imgarray::Raster;

fn varied(w: usize, h: usize) -> Raster {
    let mut r = Raster::new(w, h);
    for x in 0..w {
        for y in 0..h {
            for c in 0..3 {
                r.set_sample(x, y, c, ((x * 37 + y * 91 + c * 53 + 11) % 256) as u8);
            }
        }
    }
    r
}

fn samples(r: &Raster) -> Vec<u8> {
    let mut out = Vec::new();
    for x in 0..r.width() {
        for y in 0..r.height() {
            for c in 0..3 {
                out.push(r.sample(x, y, c));
            }
        }
    }
    out
}

fn make(i: usize) -> Filter {
    match i % 5 {
        0 => Filter::Lighting(Lighting::new(20, 40)),
        1 => Filter::Sepia(Sepia::new()),
        2 => Filter::Blur(Blur::new(1, Mode::Box, vec![])),
        3 => Filter::Invert(Invert::new()),
        _ => Filter::Threshold(Threshold::new(90)),
    }
}

fn full_render(img: &Raster, ids: &[usize]) -> Vec<u8> {
    let mut c = Compose::new(ids.iter().map(|&i| make(i)).collect());
    samples(&c.apply(img))
}

#[test]
fn batch_render_equals_stepwise_render() {
    let base = varied(5, 4);
    let mut batch = Compose::new(vec![]);
    for i in 0..4 {
        batch.add(make(i));
    }
    let batch_out = batch.render(&base, &base);
    assert_eq!(batch.rerender_index(), 4);

    let mut step = Compose::new(vec![]);
    let mut cached = base.duplicate();
    for i in 0..4 {
        step.add(make(i));
        cached = step.render(&base, &cached);
        assert_eq!(step.rerender_index(), i + 1);
    }
    assert_eq!(samples(&batch_out), samples(&cached));
    assert_eq!(samples(&cached), full_render(&base, &[0, 1, 2, 3]));
}

#[test]
fn remove_before_cursor_rerenders_from_base() {
    let base = varied(4, 4);
    let mut chain = Compose::new(vec![]);
    for i in 0..3 {
        chain.add(make(i));
    }
    let cached = chain.render(&base, &base);
    assert_eq!(chain.rerender_index(), 3);
    assert_eq!(chain.remove(1), Ok(()));
    assert_eq!(chain.rerender_index(), 0);
    let out = chain.render(&base, &cached);
    assert_eq!(samples(&out), full_render(&base, &[0, 2]));
}

#[test]
fn remove_after_cursor_keeps_cache() {
    let base = varied(4, 4);
    let mut chain = Compose::new(vec![]);
    chain.add(make(0));
    let cached = chain.render(&base, &base);
    chain.add(make(1));
    chain.add(make(3));
    assert_eq!(chain.remove(1), Ok(()));
    assert_eq!(chain.rerender_index(), 1);
    let out = chain.render(&base, &cached);
    assert_eq!(samples(&out), full_render(&base, &[0, 3]));
}

#[test]
fn remove_out_of_bounds_fails_and_keeps_chain() {
    let mut chain = Compose::new(vec![make(0), make(1)]);
    assert_eq!(chain.remove(2), Err(ChainError::IndexOutOfBounds { index: 2, len: 2 }));
    assert_eq!(chain.len(), 2);
    assert_eq!(chain.details_str(), "0 Lighting -> brightness: 20, contrast: 40\n1 Sepia");
}

#[test]
fn apply_runs_pending_filters_only() {
    let base = varied(3, 3);
    let mut chain = Compose::new(vec![make(3)]);
    let once = chain.apply(&base);
    assert_eq!(chain.rerender_index(), 1);
    let again = chain.apply(&once);
    assert_eq!(samples(&again), samples(&once));
}

#[test]
fn chain_listing() {
    let empty = Compose::new(vec![]);
    assert_eq!(empty.details_str(), "No filters applied yet.");
    let chain = Compose::new(vec![
        Filter::Threshold(Threshold::new(-3)),
        Filter::Invert(Invert::new()),
        Filter::Grayscale(Grayscale::new()),
        Filter::Blur(Blur::new(2, Mode::Median, vec![])),
        Filter::Lighting(Lighting::new(-300, 12)),
    ]);
    assert_eq!(
        chain.details_str(),
        "0 Threshold -> threshold: 0\n1 Color invert\n2 Grayscale\n3 Blur -> radius: 2, mode: Median\n4 Lighting -> brightness: -255, contrast: 12"
    );
}

#[test]
fn session_renders_whole_chain() {
    let base = varied(4, 3);
    let mut ctx = Context::new();
    assert!(!ctx.is_img_open());
    assert!(ctx.is_running());
    ctx.open("pic.png".to_string(), base.duplicate());
    assert!(ctx.is_img_open());
    assert_eq!(ctx.path(), "pic.png");
    ctx.add(make(0));
    ctx.render();
    ctx.add(make(1));
    ctx.add(make(2));
    ctx.render();
    assert_eq!(samples(ctx.result_img()), full_render(&base, &[0, 1, 2]));
    assert!(ctx.remove(0).is_ok());
    assert!(ctx.remove(7).is_err());
    ctx.render();
    assert_eq!(samples(ctx.result_img()), full_render(&base, &[1, 2]));
    assert_eq!(ctx.chain_len(), 2);
    assert_eq!(ctx.details_str(), "0 Sepia\n1 Blur -> radius: 1, mode: Box");
    ctx.open("other.png".to_string(), varied(2, 2));
    assert_eq!(ctx.chain_len(), 0);
    assert_eq!(ctx.details_str(), "No filters applied yet.");
    ctx.clear();
    assert!(!ctx.is_img_open());
    assert_eq!(ctx.chain_len(), 0);
    assert_eq!(ctx.result_img().width(), 1);
    ctx.stop();
    assert!(!ctx.is_running());
}
