use rucaptcha::canvas::Canvas;
use rucaptcha::interference::{
    draw_interference, draw_interference_ellipse, draw_interference_line, random_disc,
    random_stroke,
};
use rucaptcha::noise::{add_noise, NoiseLevel};
use rucaptcha::palette::{cycle_colors, Color};

const WHITE: Color = Color { r: 255, g: 255, b: 255, a: 255 };

const RED: Color = Color { r: 200, g: 10, b: 20, a: 255 };

fn pixels(canvas: &Canvas) -> Vec<Color> {
    let mut all = Vec::new();
    for y in 0..canvas.height() {
        for x in 0..canvas.width() {
            all.push(canvas.pixel(x, y).unwrap());
        }
    }
    all
}

#[test]
fn new_canvas_is_white() {
    let canvas = Canvas::new(220, 70).unwrap();
    assert_eq!(canvas.width(), 220);
    assert_eq!(canvas.height(), 70);
    let all = pixels(&canvas);
    assert_eq!(all.len(), 220 * 70);
    assert!(all.iter().all(|p| *p == WHITE));
}

#[test]
fn canvas_size_must_be_supported() {
    assert!(Canvas::new(25, 15).is_some());
    assert!(Canvas::new(24, 15).is_none());
    assert!(Canvas::new(25, 14).is_none());
    assert!(Canvas::new(0, 0).is_none());
    assert!(Canvas::new(16385, 70).is_none());
    assert!(Canvas::new(220, 16385).is_none());
    assert!(Canvas::new(u32::MAX, u32::MAX).is_none());
    let widest = Canvas::new(16384, 15).unwrap();
    assert_eq!(widest.width(), 16384);
    assert_eq!(widest.height(), 15);
}

#[test]
fn pixel_is_none_outside_the_canvas() {
    let canvas = Canvas::new(30, 20).unwrap();
    assert_eq!(canvas.pixel(29, 19), Some(WHITE));
    assert_eq!(canvas.pixel(30, 19), None);
    assert_eq!(canvas.pixel(29, 20), None);
    assert_eq!(canvas.pixel(u32::MAX, 0), None);
}

#[test]
fn strokes_sweep_the_canvas() {
    for _ in 0..200 {
        let s = random_stroke(220, 70);
        assert_eq!(s.start.x, 5);
        assert!((5..=35).contains(&s.start.y));
        assert_eq!(s.end.x, 215);
        assert!((5..=65).contains(&s.end.y));
        assert!((36..=165).contains(&s.control_a.x));
        assert!((5..=65).contains(&s.control_a.y));
        assert!((18..=55).contains(&s.control_b.x));
        assert!((5..=65).contains(&s.control_b.y));
    }
}

#[test]
fn strokes_fit_the_smallest_canvas() {
    for _ in 0..50 {
        let s = random_stroke(25, 15);
        assert_eq!(s.start.x, 5);
        assert!((5..=7).contains(&s.start.y));
        assert_eq!(s.end.x, 20);
        assert!((5..=10).contains(&s.end.y));
        assert!((4..=18).contains(&s.control_a.x));
        assert!((2..=6).contains(&s.control_b.x));
    }
}

#[test]
fn discs_keep_clear_of_the_far_edges() {
    let mut radii = Vec::new();
    for _ in 0..400 {
        let d = random_disc(220, 70);
        assert!((10..=19).contains(&d.radius));
        assert!(d.center.x <= 195);
        assert!(d.center.y <= 55);
        radii.push(d.radius);
    }
    assert!(radii.contains(&10));
    assert!(radii.contains(&19));
    let d = random_disc(25, 15);
    assert_eq!((d.center.x, d.center.y), (0, 0));
}

#[test]
fn lines_paint_only_their_colour() {
    let mut canvas = Canvas::new(220, 70).unwrap();
    let strokes = draw_interference_line(3, &mut canvas, RED);
    assert_eq!(strokes.len(), 3);
    assert!(strokes.iter().all(|s| s.start.x == 5 && s.end.x == 215));
    assert_eq!((canvas.width(), canvas.height()), (220, 70));
    let all = pixels(&canvas);
    assert!(all.iter().all(|p| *p == WHITE || *p == RED));
    assert!(all.iter().any(|p| *p == RED));
    assert!(all.iter().any(|p| *p == WHITE));
}

#[test]
fn no_lines_paint_nothing() {
    let mut canvas = Canvas::new(220, 70).unwrap();
    assert!(draw_interference_line(0, &mut canvas, RED).is_empty());
    assert!(draw_interference_ellipse(0, &mut canvas, RED).is_empty());
    assert!(pixels(&canvas).iter().all(|p| *p == WHITE));
}

#[test]
fn discs_paint_only_their_colour() {
    let mut canvas = Canvas::new(220, 70).unwrap();
    let discs = draw_interference_ellipse(2, &mut canvas, RED);
    assert_eq!(discs.len(), 2);
    for d in discs.iter() {
        assert_eq!(canvas.pixel(d.center.x as u32, d.center.y as u32), Some(RED));
        assert_eq!(canvas.pixel(d.center.x as u32 + 9, d.center.y as u32), Some(RED));
    }
    assert_eq!((canvas.width(), canvas.height()), (220, 70));
    let all = pixels(&canvas);
    assert!(all.iter().all(|p| *p == WHITE || *p == RED));
    let red = all.iter().filter(|p| **p == RED).count();
    assert!(red >= 100);
}

#[test]
fn a_disc_on_the_smallest_canvas_covers_its_corner() {
    let mut canvas = Canvas::new(25, 15).unwrap();
    let discs = draw_interference_ellipse(1, &mut canvas, RED);
    assert_eq!((discs[0].center.x, discs[0].center.y), (0, 0));
    assert_eq!(canvas.pixel(0, 0), Some(RED));
    assert_eq!(canvas.pixel(9, 0), Some(RED));
    assert_eq!(canvas.pixel(0, 9), Some(RED));
}

#[test]
fn interference_paints_one_disc_for_every_colour() {
    let colors = cycle_colors(2, 5);
    let mut canvas = Canvas::new(220, 70).unwrap();
    let drawn = draw_interference(&mut canvas, &colors, true, true);
    assert_eq!(drawn.strokes.len(), 5);
    assert_eq!(drawn.discs.len(), 5);
    let last = drawn.discs[4].center;
    assert_eq!(canvas.pixel(last.x as u32, last.y as u32), Some(colors[4]));
    let all = pixels(&canvas);
    assert!(all.iter().all(|p| *p == WHITE || colors.contains(p)));
    assert!(all.iter().any(|p| *p == colors[4]));

    let mut canvas = Canvas::new(220, 70).unwrap();
    let drawn = draw_interference(&mut canvas, &colors, false, true);
    assert_eq!(drawn.strokes.len(), 0);
    assert_eq!(drawn.discs.len(), 5);
    assert!(pixels(&canvas).iter().any(|p| *p == colors[4]));
}

#[test]
fn interference_needs_the_disc_flag() {
    let colors = cycle_colors(0, 5);
    for lines in [true, false] {
        let mut canvas = Canvas::new(220, 70).unwrap();
        let drawn = draw_interference(&mut canvas, &colors, lines, false);
        assert!(drawn.strokes.is_empty());
        assert!(drawn.discs.is_empty());
        assert!(pixels(&canvas).iter().all(|p| *p == WHITE));
    }
}

#[test]
fn interference_for_no_colours_paints_nothing() {
    let mut canvas = Canvas::new(220, 70).unwrap();
    let drawn = draw_interference(&mut canvas, &Vec::new(), true, true);
    assert!(drawn.strokes.is_empty());
    assert!(drawn.discs.is_empty());
    assert!(pixels(&canvas).iter().all(|p| *p == WHITE));
}

#[test]
fn noise_reports_its_level() {
    let mut canvas = Canvas::new(40, 30).unwrap();
    assert_eq!(add_noise(&mut canvas, 1), NoiseLevel { mean: 0, deviation: 0, seed: 0 });
    assert_eq!(add_noise(&mut canvas, 4), NoiseLevel { mean: 3, deviation: 30, seed: 15 });
    assert_eq!(add_noise(&mut canvas, 10), NoiseLevel { mean: 9, deviation: 90, seed: 45 });
}

#[test]
fn noise_grains_the_canvas() {
    let mut canvas = Canvas::new(220, 70).unwrap();
    add_noise(&mut canvas, 5);
    assert_eq!((canvas.width(), canvas.height()), (220, 70));
    let all = pixels(&canvas);
    let grained = all.iter().filter(|p| **p != WHITE).count();
    assert!(grained * 2 > all.len());
}

#[test]
fn noise_of_one_complexity_is_repeatable() {
    let mut a = Canvas::new(60, 40).unwrap();
    add_noise(&mut a, 7);
    let mut b = Canvas::new(60, 40).unwrap();
    add_noise(&mut b, 7);
    assert_eq!(pixels(&a), pixels(&b));
    let mut c = Canvas::new(60, 40).unwrap();
    add_noise(&mut c, 8);
    assert_ne!(pixels(&a), pixels(&c));
}

#[test]
fn lowest_complexity_adds_no_noise() {
    let mut canvas = Canvas::new(220, 70).unwrap();
    add_noise(&mut canvas, 1);
    assert!(pixels(&canvas).iter().all(|p| *p == WHITE));
}
