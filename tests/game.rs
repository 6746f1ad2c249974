use tictactoe::board::Player;
use tictactoe::game::{Game, InvalidMove};
use tictactoe::moves::Move;

fn play(g: &mut Game, cells: &[(i32, i32)]) {
    for &(x, y) in cells {
        assert_eq!(g.make_move(&Move(x, y)), Ok(()));
    }
}

#[test]
fn turns_alternate_from_x() {
    let mut g = Game::new();
    assert_eq!(g.turn(), Player::X);
    assert_eq!(g.make_move(&Move(0, 0)), Ok(()));
    assert_eq!(g.turn(), Player::O);
    assert_eq!(g.make_move(&Move(1, 0)), Ok(()));
    assert_eq!(g.turn(), Player::X);
    assert_eq!(g.make_move(&Move(1, 0)), Err(InvalidMove));
    assert_eq!(g.turn(), Player::X);
    assert_eq!(g.board().get(0, 0), Some(Player::X));
    assert_eq!(g.board().get(1, 0), Some(Player::O));
}

#[test]
fn default_game_is_fresh() {
    let g = Game::default();
    assert_eq!(g.turn(), Player::X);
    assert_eq!(g.winner(), None);
    assert!(g.is_legal(&Move(1, 1)));
}

#[test]
fn occupied_cell_is_rejected_and_nothing_changes() {
    let mut g = Game::new();
    play(&mut g, &[(0, 0)]);
    let before = g.render();
    let turn = g.turn();
    assert!(!g.is_legal(&Move(0, 0)));
    assert_eq!(g.make_move(&Move(0, 0)), Err(InvalidMove));
    assert_eq!(g.render(), before);
    assert_eq!(g.turn(), turn);
    assert_eq!(g.board().get(0, 0), Some(Player::X));
}

#[test]
fn empty_board_has_no_winner() {
    assert_eq!(Game::new().winner(), None);
}

fn is_line(cells: &[(usize, usize)]) -> bool {
    cells.len() == 3
        && LINES
            .iter()
            .any(|line| line.iter().all(|c| cells.contains(c)))
}

/// A game in which `p` has taken the three cells of `line`, and the other
/// player has moved on cells that form no line.
fn game_with_line(p: Player, line: [(usize, usize); 3]) -> Game {
    let free: Vec<(usize, usize)> = (0..3)
        .flat_map(|y| (0..3).map(move |x| (x, y)))
        .filter(|c| !line.contains(c))
        .collect();
    let needed = if p == Player::X { 2 } else { 3 };
    let mut other = Vec::new();
    'pick: for a in 0..free.len() {
        for b in a + 1..free.len() {
            for c in b + 1..free.len() {
                let pick = vec![free[a], free[b], free[c]];
                if !is_line(&pick) {
                    other = pick[..needed].to_vec();
                    break 'pick;
                }
            }
        }
    }
    let mut g = Game::new();
    let mut mine = line.to_vec();
    let (first, second) = if p == Player::X {
        (&mut mine, &mut other)
    } else {
        (&mut other, &mut mine)
    };
    while !first.is_empty() || !second.is_empty() {
        for side in [&mut *first, &mut *second] {
            if let Some((x, y)) = side.pop() {
                assert_eq!(g.make_move(&Move(x as i32, y as i32)), Ok(()));
            }
        }
    }
    for (x, y) in line {
        assert_eq!(g.board().get(x, y), Some(p));
    }
    g
}

const LINES: [[(usize, usize); 3]; 8] = [
    [(0, 0), (1, 0), (2, 0)],
    [(0, 1), (1, 1), (2, 1)],
    [(0, 2), (1, 2), (2, 2)],
    [(0, 0), (0, 1), (0, 2)],
    [(1, 0), (1, 1), (1, 2)],
    [(2, 0), (2, 1), (2, 2)],
    [(0, 0), (1, 1), (2, 2)],
    [(2, 0), (1, 1), (0, 2)],
];

#[test]
fn each_full_line_wins_for_x() {
    for line in LINES {
        let g = game_with_line(Player::X, line);
        assert_eq!(g.winner(), Some(Player::X), "line {:?}", line);
    }
}

#[test]
fn each_full_line_wins_for_o() {
    for line in LINES {
        let g = game_with_line(Player::O, line);
        assert_eq!(g.winner(), Some(Player::O), "line {:?}", line);
    }
}

#[test]
fn mixed_line_does_not_win() {
    let mut g = Game::new();
    play(&mut g, &[(0, 0), (1, 0), (2, 0)]);
    assert_eq!(g.winner(), None);
}

#[test]
fn full_board_without_line_has_no_winner() {
    let mut g = Game::new();
    // X O X / X O O / O X X
    play(
        &mut g,
        &[(0, 0), (1, 0), (2, 0), (1, 1), (0, 1), (2, 1), (1, 2), (0, 2), (2, 2)],
    );
    assert_eq!(g.winner(), None);
    for x in 0..3 {
        for y in 0..3 {
            assert_eq!(g.make_move(&Move(x, y)), Err(InvalidMove));
        }
    }
}

#[test]
fn diagonal_game_end_to_end() {
    let mut g = Game::new();
    for line in ["1 1\n", "1 2\n", "2 2\n", "1 3\n"] {
        let m = Move::parse(line).unwrap();
        assert_eq!(g.make_move(&m), Ok(()));
        assert_eq!(g.winner(), None);
    }
    let m = Move::parse("3 3\n").unwrap();
    assert_eq!(g.make_move(&m), Ok(()));
    assert_eq!(g.winner(), Some(Player::X));
    assert_eq!(g.render(), "X| | \n-+-+-\nO|X| \n-+-+-\nO| |X\n");
}
