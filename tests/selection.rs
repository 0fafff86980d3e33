use hook_diagram::{Direction, Hook, HookFamily, ProtoFamily, CATALOG_LEN};

const DIRECTIONS: [Direction; 4] = [Direction::Up, Direction::Down, Direction::Left, Direction::Right];

fn point(hook: Hook, family: ProtoFamily) -> HookFamily {
    HookFamily::catalog()
        .into_iter()
        .find(|p| p.hook() == hook && p.family() == family)
        .unwrap()
}

fn at(x: u16, y: u16) -> HookFamily {
    HookFamily::catalog().into_iter().find(|p| p.to_xy() == (x, y)).unwrap()
}

#[test]
fn catalog_holds_the_twelve_points_in_order() {
    let expected = [
        (Hook::In, ProtoFamily::Inet, 9, 1),
        (Hook::Out, ProtoFamily::Inet, 15, 1),
        (Hook::PreRouting, ProtoFamily::Inet, 7, 3),
        (Hook::Forward, ProtoFamily::Inet, 11, 3),
        (Hook::PostRouting, ProtoFamily::Inet, 15, 3),
        (Hook::In, ProtoFamily::Bridge, 9, 5),
        (Hook::Out, ProtoFamily::Bridge, 15, 5),
        (Hook::PreRouting, ProtoFamily::Bridge, 7, 7),
        (Hook::Forward, ProtoFamily::Bridge, 11, 7),
        (Hook::PostRouting, ProtoFamily::Bridge, 15, 7),
        (Hook::In, ProtoFamily::Arp, 9, 9),
        (Hook::Out, ProtoFamily::Arp, 15, 9),
    ];
    let catalog = HookFamily::catalog();
    assert_eq!(catalog.len(), CATALOG_LEN);
    for (i, (hook, family, x, y)) in expected.iter().enumerate() {
        assert_eq!(catalog[i].hook(), *hook);
        assert_eq!(catalog[i].family(), *family);
        assert_eq!(catalog[i].to_xy(), (*x, *y));
        assert_eq!(HookFamily::catalog_entry(i), catalog[i]);
    }
}

#[test]
fn initial_selection_is_first_entry() {
    assert_eq!(HookFamily::new(), point(Hook::In, ProtoFamily::Inet));
    assert_eq!(HookFamily::default(), HookFamily::new());
    assert_eq!(HookFamily::new().to_xy(), (9, 1));
}

#[test]
fn every_move_lands_on_a_catalog_point() {
    let catalog = HookFamily::catalog();
    for p in &catalog {
        for d in DIRECTIONS {
            let r = p.move_by_direction(d);
            assert!(catalog.contains(&r));
        }
    }
}

#[test]
fn moves_outwards_at_the_edges_keep_the_point() {
    for p in HookFamily::catalog() {
        let (x, y) = p.to_xy();
        if y == 1 {
            assert_eq!(p.move_by_direction(Direction::Up), p);
        }
        if y == 9 {
            assert_eq!(p.move_by_direction(Direction::Down), p);
        }
        if x == 7 {
            assert_eq!(p.move_by_direction(Direction::Left), p);
        }
        if x == 15 {
            assert_eq!(p.move_by_direction(Direction::Right), p);
        }
    }
}

#[test]
fn down_from_inet_input_prefers_the_same_column() {
    let start = point(Hook::In, ProtoFamily::Inet);
    let r = start.move_by_direction(Direction::Down);
    assert_eq!(r, point(Hook::In, ProtoFamily::Bridge));
    assert_eq!(r.to_xy(), (9, 5));
    assert_ne!(r, point(Hook::PreRouting, ProtoFamily::Inet));
}

#[test]
fn down_then_up_returns_to_inet_input() {
    let start = point(Hook::In, ProtoFamily::Inet);
    let there = start.move_by_direction(Direction::Down);
    assert_eq!(there.move_by_direction(Direction::Up), start);
}

#[test]
fn repeated_moves_give_the_same_result() {
    for p in HookFamily::catalog() {
        for d in DIRECTIONS {
            let first = p.move_by_direction(d);
            for _ in 0..5 {
                assert_eq!(p.move_by_direction(d), first);
            }
        }
    }
}

#[test]
fn moves_follow_the_weighted_score() {
    // left from (11,3): (7,3) scores 4, (9,1) and (9,5) score 2 + 3*2 = 8
    assert_eq!(at(11, 3).move_by_direction(Direction::Left), at(7, 3));
    // right from (9,1): (15,1) scores 6, (11,3) scores 2 + 3*2 = 8
    assert_eq!(at(9, 1).move_by_direction(Direction::Right), at(15, 1));
    // right from (9,5): (15,5) scores 6, (11,3) and (11,7) score 8
    assert_eq!(at(9, 5).move_by_direction(Direction::Right), at(15, 5));
    // down from (7,3): (7,7) scores 4, (9,5) scores 8
    assert_eq!(at(7, 3).move_by_direction(Direction::Down), at(7, 7));
    // up from (11,7): (11,3) scores 4, (9,5) scores 8
    assert_eq!(at(11, 7).move_by_direction(Direction::Up), at(11, 3));
    // left from (15,5): (9,5) scores 6, (11,3) and (11,7) score 10
    assert_eq!(at(15, 5).move_by_direction(Direction::Left), at(9, 5));
    // left from (15,9): (9,9) scores 6, (11,7) scores 10
    assert_eq!(at(15, 9).move_by_direction(Direction::Left), at(9, 9));
    // up from (15,9): (15,7) scores 2
    assert_eq!(at(15, 9).move_by_direction(Direction::Up), at(15, 7));
}

#[test]
fn diagonal_candidates_win_when_nothing_is_on_the_axis() {
    // up from (7,3): nothing in the column, (9,1) scores 2 + 3*2 = 8 and
    // (15,1) scores 2 + 3*8 = 26; left from (9,1): (7,3) scores 8, (7,7) 20
    assert_eq!(at(7, 3).move_by_direction(Direction::Up), at(9, 1));
    assert_eq!(at(9, 1).move_by_direction(Direction::Left), at(7, 3));
}
