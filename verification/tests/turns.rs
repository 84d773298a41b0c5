use four_in_a_row::{App, Field, Turn};

fn enter(app: &mut App, entry: &str) {
    for c in entry.chars() {
        app.push_digit(c);
    }
    app.turn();
}

fn entry_of(app: &App) -> String {
    app.input().iter().collect()
}

fn tokens(app: &App) -> usize {
    let mut n = 0;
    for r in 0..app.rows() {
        for c in 0..app.columns() {
            if app.field(r, c) != Field::Empty {
                n += 1;
            }
        }
    }
    n
}

#[test]
fn new_game_is_empty_with_red_to_move() {
    let app = App::new();
    assert_eq!(app.rows(), 6);
    assert_eq!(app.columns(), 7);
    assert_eq!(app.player(), Turn::Red);
    assert_eq!(entry_of(&app), "");
    assert_eq!(tokens(&app), 0);
}

#[test]
fn with_size_makes_the_grid_asked_for() {
    let mut app = App::with_size(2, 3);
    assert_eq!(app.rows(), 2);
    assert_eq!(app.columns(), 3);
    enter(&mut app, "3");
    assert_eq!(app.field(0, 2), Field::Red);
    enter(&mut app, "4");
    assert_eq!(tokens(&app), 1);
    assert_eq!(app.player(), Turn::Blue);
    assert_eq!(entry_of(&app), "4");
}

#[test]
fn a_player_becomes_its_token() {
    assert_eq!(Field::from(Turn::Red), Field::Red);
    assert_eq!(Field::from(Turn::Blue), Field::Blue);
    let f: Field = Turn::Blue.into();
    assert_eq!(f, Field::Blue);
}

#[test]
fn the_other_player_follows() {
    assert_eq!(Turn::Red.other(), Turn::Blue);
    assert_eq!(Turn::Blue.other(), Turn::Red);
}

#[test]
fn only_the_empty_field_is_empty() {
    assert!(Field::Empty.is_empty());
    assert!(!Field::Red.is_empty());
    assert!(!Field::Blue.is_empty());
}

#[test]
fn digits_join_the_entry_and_touch_nothing_else() {
    let mut app = App::new();
    app.push_digit('1');
    app.push_digit('0');
    app.push_digit('7');
    assert_eq!(entry_of(&app), "107");
    assert_eq!(app.player(), Turn::Red);
    assert_eq!(tokens(&app), 0);
}

#[test]
fn pop_takes_the_last_digit_back() {
    let mut app = App::new();
    app.push_digit('1');
    app.push_digit('2');
    app.pop_digit();
    assert_eq!(entry_of(&app), "1");
    app.pop_digit();
    assert_eq!(entry_of(&app), "");
}

#[test]
fn pop_on_an_empty_entry_does_nothing() {
    let mut app = App::new();
    let before = app.clone();
    app.pop_digit();
    assert_eq!(app, before);
}

#[test]
fn an_empty_entry_is_no_move() {
    let mut app = App::new();
    let before = app.clone();
    app.turn();
    assert_eq!(app, before);
}

#[test]
fn zero_is_no_column() {
    let mut app = App::new();
    enter(&mut app, "0");
    assert_eq!(tokens(&app), 0);
    assert_eq!(app.player(), Turn::Red);
    assert_eq!(entry_of(&app), "0");
}

#[test]
fn a_number_beyond_the_last_column_is_no_move() {
    let mut app = App::new();
    enter(&mut app, "8");
    assert_eq!(tokens(&app), 0);
    assert_eq!(app.player(), Turn::Red);
    assert_eq!(entry_of(&app), "8");
}

#[test]
fn a_number_too_large_for_the_machine_is_no_move() {
    let mut app = App::new();
    let mut before = app.clone();
    let huge = "340282366920938463463374607431768211456";
    for c in huge.chars() {
        before.push_digit(c);
    }
    enter(&mut app, huge);
    assert_eq!(app, before);
    assert_eq!(entry_of(&app), huge);
}

#[test]
fn leading_zeros_do_not_change_the_number() {
    let mut app = App::new();
    enter(&mut app, "0007");
    assert_eq!(app.field(0, 6), Field::Red);
    assert_eq!(app.player(), Turn::Blue);
    assert_eq!(entry_of(&app), "");
}

#[test]
fn first_and_last_column_are_moves() {
    let mut app = App::new();
    enter(&mut app, "1");
    enter(&mut app, "7");
    assert_eq!(app.field(0, 0), Field::Red);
    assert_eq!(app.field(0, 6), Field::Blue);
    assert_eq!(tokens(&app), 2);
}

#[test]
fn a_token_lands_on_the_lowest_empty_cell() {
    let mut app = App::new();
    enter(&mut app, "2");
    enter(&mut app, "2");
    enter(&mut app, "5");
    enter(&mut app, "2");
    assert_eq!(app.field(0, 1), Field::Red);
    assert_eq!(app.field(1, 1), Field::Blue);
    assert_eq!(app.field(2, 1), Field::Blue);
    assert_eq!(app.field(3, 1), Field::Empty);
    assert_eq!(app.field(0, 4), Field::Red);
    assert_eq!(app.field(1, 4), Field::Empty);
    assert_eq!(tokens(&app), 4);
    assert_eq!(app.player(), Turn::Red);
    assert_eq!(entry_of(&app), "");
}

#[test]
fn a_full_column_takes_no_token_and_keeps_the_entry() {
    let mut app = App::with_size(2, 2);
    enter(&mut app, "1");
    enter(&mut app, "1");
    let mut before = app.clone();
    before.push_digit('1');
    enter(&mut app, "1");
    assert_eq!(app, before);
    assert_eq!(entry_of(&app), "1");
    assert_eq!(app.player(), Turn::Red);
    assert_eq!(tokens(&app), 2);
}

#[test]
fn a_rejected_entry_can_be_corrected() {
    let mut app = App::new();
    enter(&mut app, "9");
    app.pop_digit();
    enter(&mut app, "3");
    assert_eq!(app.field(0, 2), Field::Red);
    assert_eq!(app.player(), Turn::Blue);
}

#[test]
fn players_alternate_with_each_token_placed() {
    let mut app = App::new();
    let entries = ["1", "9", "2", "", "2", "0", "7", "3", "3", "3"];
    let mut placed = 0;
    for e in entries {
        for _ in 0..app.input().len() {
            app.pop_digit();
        }
        let before = tokens(&app);
        enter(&mut app, e);
        placed += tokens(&app) - before;
        let expected = if placed % 2 == 0 { Turn::Red } else { Turn::Blue };
        assert_eq!(app.player(), expected);
    }
    assert_eq!(placed, 7);
    assert_eq!(app.player(), Turn::Blue);
}

#[test]
fn no_empty_cell_lies_below_a_token() {
    let mut app = App::new();
    for e in ["4", "4", "1", "4", "7", "7", "4", "2", "4", "4", "4"] {
        for _ in 0..app.input().len() {
            app.pop_digit();
        }
        enter(&mut app, e);
        for c in 0..app.columns() {
            for r in 1..app.rows() {
                if app.field(r, c) != Field::Empty {
                    assert_ne!(app.field(r - 1, c), Field::Empty);
                }
            }
        }
    }
}

#[test]
fn filling_one_column_end_to_end() {
    let mut app = App::new();
    app.push_digit('4');
    app.turn();
    assert_eq!(app.field(0, 3), Field::Red);
    assert_eq!(app.player(), Turn::Blue);
    assert_eq!(tokens(&app), 1);
    for _ in 1..6 {
        app.push_digit('4');
        app.turn();
    }
    let expected = [Field::Red, Field::Blue, Field::Red, Field::Blue, Field::Red, Field::Blue];
    for r in 0..6 {
        assert_eq!(app.field(r, 3), expected[r]);
    }
    assert_eq!(tokens(&app), 6);
    assert_eq!(app.player(), Turn::Red);
    let after_sixth = app.clone();
    app.push_digit('4');
    app.turn();
    assert_eq!(app.player(), after_sixth.player());
    for r in 0..6 {
        for c in 0..7 {
            assert_eq!(app.field(r, c), after_sixth.field(r, c));
        }
    }
    assert_eq!(entry_of(&app), "4");
}

#[test]
fn a_full_grid_takes_no_more_tokens() {
    let mut app = App::with_size(1, 2);
    enter(&mut app, "1");
    enter(&mut app, "2");
    assert_eq!(tokens(&app), 2);
    for e in ["1", "2", "1"] {
        for _ in 0..app.input().len() {
            app.pop_digit();
        }
        enter(&mut app, e);
        assert_eq!(tokens(&app), 2);
        assert_eq!(app.player(), Turn::Red);
    }
}

#[test]
fn a_clone_is_the_same_game_and_plays_on_alone() {
    let mut app = App::new();
    enter(&mut app, "3");
    app.push_digit('5');
    let mut copy = app.clone();
    assert_eq!(copy, app);
    copy.turn();
    assert_eq!(copy.field(0, 4), Field::Blue);
    assert_eq!(app.field(0, 4), Field::Empty);
    assert_eq!(app.player(), Turn::Blue);
    assert_eq!(copy.player(), Turn::Red);
}
