use ray_tracer::schedule::{RenderAction, RenderCursor};

fn run(width: u32, height: u32, samples: u32) -> Vec<RenderAction> {
    let mut cursor = RenderCursor::new(width, height, samples);
    let mut out = Vec::new();
    loop {
        let a = cursor.next();
        out.push(a);
        if a == RenderAction::Done {
            break;
        }
    }
    out
}

#[test]
fn two_by_two_with_two_samples() {
    let expected = vec![
        RenderAction::Scanline { remaining: 2 },
        RenderAction::Sample { i: 0, j: 0 },
        RenderAction::Sample { i: 0, j: 0 },
        RenderAction::Write { i: 0, j: 0 },
        RenderAction::Sample { i: 1, j: 0 },
        RenderAction::Sample { i: 1, j: 0 },
        RenderAction::Write { i: 1, j: 0 },
        RenderAction::Scanline { remaining: 1 },
        RenderAction::Sample { i: 0, j: 1 },
        RenderAction::Sample { i: 0, j: 1 },
        RenderAction::Write { i: 0, j: 1 },
        RenderAction::Sample { i: 1, j: 1 },
        RenderAction::Sample { i: 1, j: 1 },
        RenderAction::Write { i: 1, j: 1 },
        RenderAction::Done,
    ];
    assert_eq!(run(2, 2, 2), expected);
}

#[test]
fn writes_are_row_major() {
    let writes: Vec<(u32, u32)> = run(3, 2, 1)
        .into_iter()
        .filter_map(|a| match a {
            RenderAction::Write { i, j } => Some((i, j)),
            _ => None,
        })
        .collect();
    assert_eq!(writes, vec![(0, 0), (1, 0), (2, 0), (0, 1), (1, 1), (2, 1)]);
}

#[test]
fn zero_samples_writes_each_pixel_directly() {
    assert_eq!(
        run(2, 1, 0),
        vec![
            RenderAction::Scanline { remaining: 1 },
            RenderAction::Write { i: 0, j: 0 },
            RenderAction::Write { i: 1, j: 0 },
            RenderAction::Done,
        ]
    );
}

#[test]
fn zero_width_only_announces_rows() {
    assert_eq!(
        run(0, 3, 4),
        vec![
            RenderAction::Scanline { remaining: 3 },
            RenderAction::Scanline { remaining: 2 },
            RenderAction::Scanline { remaining: 1 },
            RenderAction::Done,
        ]
    );
}

#[test]
fn zero_height_is_done_at_once() {
    assert_eq!(run(5, 0, 4), vec![RenderAction::Done]);
}

#[test]
fn done_is_repeated_after_the_end() {
    let mut cursor = RenderCursor::new(1, 1, 1);
    for _ in 0..3 {
        cursor.next();
    }
    assert_eq!(cursor.next(), RenderAction::Done);
    assert_eq!(cursor.next(), RenderAction::Done);
}

#[test]
fn each_pixel_gets_its_samples_before_it_is_written() {
    let actions = run(4, 3, 5);
    let mut pending = 0u32;
    let mut written = 0u32;
    for a in actions {
        match a {
            RenderAction::Sample { .. } => pending += 1,
            RenderAction::Write { .. } => {
                assert_eq!(pending, 5);
                pending = 0;
                written += 1;
            }
            _ => assert_eq!(pending, 0),
        }
    }
    assert_eq!(written, 12);
}
