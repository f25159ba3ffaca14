use artichat::layout::{plan, Region, ScreenPlan};

fn region(x: u16, y: u16, width: u16, height: u16) -> Region {
    Region { x, y, width, height }
}

#[test]
fn plain_screen_is_history_over_input() {
    assert_eq!(
        plan(80, 24, false, false),
        ScreenPlan {
            key_box: None,
            users_box: None,
            history_box: region(0, 0, 80, 20),
            input_box: region(0, 20, 80, 4),
            history_rows: 18,
        }
    );
}

#[test]
fn key_takes_the_top_and_users_the_left() {
    assert_eq!(
        plan(80, 24, true, true),
        ScreenPlan {
            key_box: Some(region(0, 0, 80, 3)),
            users_box: Some(region(0, 3, 20, 21)),
            history_box: region(20, 3, 60, 17),
            input_box: region(20, 20, 60, 4),
            history_rows: 15,
        }
    );
    assert_eq!(
        plan(80, 24, true, false),
        ScreenPlan {
            key_box: Some(region(0, 0, 80, 3)),
            users_box: None,
            history_box: region(0, 3, 80, 17),
            input_box: region(0, 20, 80, 4),
            history_rows: 15,
        }
    );
    assert_eq!(
        plan(80, 24, false, true),
        ScreenPlan {
            key_box: None,
            users_box: Some(region(0, 0, 20, 24)),
            history_box: region(20, 0, 60, 20),
            input_box: region(20, 20, 60, 4),
            history_rows: 18,
        }
    );
}

#[test]
fn small_screen_shrinks_the_boxes() {
    assert_eq!(
        plan(10, 5, true, true),
        ScreenPlan {
            key_box: Some(region(0, 0, 10, 3)),
            users_box: Some(region(0, 3, 10, 2)),
            history_box: region(10, 3, 0, 0),
            input_box: region(10, 3, 0, 2),
            history_rows: 0,
        }
    );
    assert_eq!(
        plan(0, 0, true, true),
        ScreenPlan {
            key_box: Some(region(0, 0, 0, 0)),
            users_box: Some(region(0, 0, 0, 0)),
            history_box: region(0, 0, 0, 0),
            input_box: region(0, 0, 0, 0),
            history_rows: 0,
        }
    );
    assert_eq!(plan(80, 5, false, false).history_rows, 0);
    assert_eq!(plan(80, 6, false, false).history_rows, 0);
    assert_eq!(plan(80, 7, false, false).history_rows, 1);
}

#[test]
fn largest_screen_does_not_overflow() {
    let p = plan(u16::MAX, u16::MAX, true, true);
    assert_eq!(p.history_box, region(20, 3, u16::MAX - 20, u16::MAX - 7));
    assert_eq!(p.input_box, region(20, u16::MAX - 4, u16::MAX - 20, 4));
    assert_eq!(p.history_rows, u16::MAX - 9);
}
