use guessing_game::difficulty::{select_difficulty, Difficulty, Selection};

#[test]
fn menu_line_one_selects_easy() {
    let s = select_difficulty("1");
    assert_eq!(s, Selection { difficulty: Difficulty::Easy((1, 100)), fell_back: false });
    assert_eq!(s.difficulty.range(), (1, 100));
}

#[test]
fn menu_line_two_selects_medium() {
    let s = select_difficulty("2");
    assert_eq!(s, Selection { difficulty: Difficulty::Medium((1, 500)), fell_back: false });
    assert_eq!(s.difficulty.range(), (1, 500));
}

#[test]
fn menu_line_three_selects_hard() {
    let s = select_difficulty("3");
    assert_eq!(s, Selection { difficulty: Difficulty::Hard((1, 1000)), fell_back: false });
    assert_eq!(s.difficulty.range(), (1, 1000));
}

#[test]
fn menu_line_is_trimmed_first() {
    assert_eq!(select_difficulty("2\n").difficulty, Difficulty::Medium((1, 500)));
    assert_eq!(select_difficulty("  3\r\n").difficulty, Difficulty::Hard((1, 1000)));
    assert!(!select_difficulty(" 1 ").fell_back);
}

#[test]
fn any_other_menu_line_falls_back_to_easy() {
    let lines = ["", "\n", "   ", "4", "0", "easy", "11", "1 2", "+1", "01", "1.", "abc", "２"];
    for line in lines {
        let s = select_difficulty(line);
        assert_eq!(
            s,
            Selection { difficulty: Difficulty::Easy((1, 100)), fell_back: true },
            "{:?}",
            line
        );
    }
}

#[test]
fn each_tier_hands_out_its_own_range() {
    assert_eq!(Difficulty::Easy((3, 9)).range(), (3, 9));
    assert_eq!(Difficulty::Medium((0, 0)).range(), (0, 0));
    assert_eq!(Difficulty::Hard((7, u32::MAX)).range(), (7, u32::MAX));
}
