use noise_lines::line::{Line, Point, Sample};

#[test]
fn construct_full_span() {
    // Half-width 800: one point per whole x in [-750, 750), all at the base height.
    let line = Line::new(0, 800);
    assert_eq!(line.points.len(), 1500);
    assert_eq!(line.points[0].x, -750_000);
    assert_eq!(line.points[1499].x, 749_000);
    for (k, p) in line.points.iter().enumerate() {
        assert_eq!(p.x, -750_000 + 1000 * k as i64);
        assert_eq!(p.y, 0);
    }
}

#[test]
fn construct_count_formula() {
    // Above the margin the count is 2 * half_width - 100.
    let line = Line::new(5_000, 101);
    assert_eq!(line.points.len(), 102);
    assert_eq!(line.points[0].x, -51_000);
    assert_eq!(line.points[101].x, 50_000);
    for p in line.points.iter() {
        assert_eq!(p.y, 5_000);
    }

    let narrow = Line::new(-3_000, 75);
    assert_eq!(narrow.points.len(), 50);
    assert_eq!(narrow.points[0].x, -25_000);
    assert_eq!(narrow.points[49].x, 24_000);
}

#[test]
fn construct_degenerate_empty() {
    // At or below the 50-unit margin no points are generated, without error.
    assert_eq!(Line::new(7_000, 50).points.len(), 0);
    assert_eq!(Line::new(0, 0).points.len(), 0);
    assert_eq!(Line::new(123, -40).points.len(), 0);
}

#[test]
fn update_identity_is_noop() {
    let mut line = Line::new(64_000, 200);
    let before = line.points.clone();
    line.update(|_x, y| y);
    assert_eq!(line.points, before);
}

#[test]
fn update_replaces_y_from_transform() {
    let mut line = Line::new(1_000, 55);
    line.update(|x, y| y + x / 2);
    assert_eq!(line.points.len(), 10);
    for (k, p) in line.points.iter().enumerate() {
        let x = -5_000 + 1000 * k as i64;
        assert_eq!(p.x, x);
        assert_eq!(p.y, 1_000 + x / 2);
    }
}

#[test]
fn draw_leaves_line_untouched() {
    let line = Line::new(10_000, 60);
    let before = line.points.clone();
    let samples: Vec<Sample> = line
        .points
        .iter()
        .map(|p| Sample { noise: (p.x / 1000) * 50, wave: -300 })
        .collect();
    let _ = line.draw(&samples);
    assert_eq!(line.points, before);
}

#[test]
fn draw_twice_same_output() {
    // Drawing is a pure function of the points and the samples.
    let line = Line::new(-8_000, 70);
    let samples: Vec<Sample> = (0..line.points.len())
        .map(|k| Sample { noise: (k as i64 * 37) % 1000 - 500, wave: (k as i64 * 13) % 1000 - 500 })
        .collect();
    let first = line.draw(&samples);
    let second = line.draw(&samples);
    assert_eq!(first, second);
}

#[test]
fn draw_zero_noise_scenario() {
    // A noise source pinned to 0.0 gives alpha 0.5: color (1.0, 0.25, 0.25, 0.125)
    // and a vertex displaced by the wave value alone.
    let line = Line::new(12_000, 60);
    let samples: Vec<Sample> = line.points.iter().map(|_| Sample { noise: 0, wave: 345 }).collect();
    let out = line.draw(&samples);
    assert_eq!(out.len(), line.points.len());
    for (k, v) in out.iter().enumerate() {
        assert_eq!(v.x, line.points[k].x);
        assert_eq!(v.y, 12_000 + 345);
        assert_eq!(v.color.r, 1000);
        assert_eq!(v.color.g, 250);
        assert_eq!(v.color.b, 250);
        assert_eq!(v.color.a, 125);
    }
}

#[test]
fn draw_displacement_adds_wave_and_noise() {
    let line = Line::new(0, 51);
    assert_eq!(line.points.len(), 2);
    let samples = vec![
        Sample { noise: 1000, wave: -7 },
        Sample { noise: -1000, wave: 250 },
    ];
    let out = line.draw(&samples);
    assert_eq!(out[0].y, 1000 - 7);
    assert_eq!(out[0].color.g, 1000);
    assert_eq!(out[0].color.a, 1000);
    assert_eq!(out[1].y, -1000 + 250);
    assert_eq!(out[1].color.g, 0);
    assert_eq!(out[1].color.a, 0);
}

#[test]
fn draw_empty_line() {
    let line = Line::new(0, 10);
    let samples: Vec<Sample> = Vec::new();
    let out = line.draw(&samples);
    assert!(out.is_empty());
}

#[test]
fn points_are_plain_pairs() {
    let p = Point { x: 4_000, y: -2_500 };
    let q = p;
    assert_eq!(p, q);
}
