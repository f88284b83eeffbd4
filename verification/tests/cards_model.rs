use cards::card::{
    card_instances, default_grid, quad_indices, quad_vertices, Card, Instance, Position, Suit,
    HEIGHT, WIDTH,
};

#[test]
fn texture_index_is_the_fixed_table() {
    assert_eq!(Suit::Hearts.texture_index(), 0);
    assert_eq!(Suit::Diamonds.texture_index(), 1);
    assert_eq!(Suit::Spades.texture_index(), 2);
    assert_eq!(Suit::Clubs.texture_index(), 3);
}

#[test]
fn texture_index_hits_each_row_once() {
    let suits = [Suit::Clubs, Suit::Spades, Suit::Hearts, Suit::Diamonds];
    let mut seen = [false; 4];
    for s in suits {
        let i = s.texture_index() as usize;
        assert!(i < 4);
        assert!(!seen[i]);
        seen[i] = true;
    }
    assert!(seen.iter().all(|&b| b));
}

#[test]
fn doppelkopf_strength_orders_the_suits() {
    assert_eq!(Suit::Clubs.doppelkopf_suit_strength(), 4);
    assert_eq!(Suit::Spades.doppelkopf_suit_strength(), 3);
    assert_eq!(Suit::Hearts.doppelkopf_suit_strength(), 2);
    assert_eq!(Suit::Diamonds.doppelkopf_suit_strength(), 1);
}

#[test]
fn to_instance_packs_the_card() {
    let card = Card {
        position: Position { x: 408, y: -864, z: 0 },
        facedown: true,
        rank: 11,
        suit: Suit::Spades,
    };
    let inst = card.to_instance();
    assert_eq!(
        inst,
        Instance { position: Position { x: 408, y: -864, z: 0 }, rank: 11, suit: 2, facedown: 1 }
    );

    let up = Card { facedown: false, ..card };
    assert_eq!(up.to_instance().facedown, 0);
}

#[test]
fn default_grid_is_52_cards_with_unique_pairs() {
    let cards = default_grid();
    assert_eq!(cards.len(), 52);
    for i in 0..52 {
        for j in 0..i {
            assert!(
                !(cards[i].rank == cards[j].rank && cards[i].suit == cards[j].suit),
                "cards {i} and {j} show the same face"
            );
        }
    }
}

#[test]
fn default_grid_positions_follow_the_spacing_formula() {
    let cards = default_grid();
    for (i, card) in cards.iter().enumerate() {
        let rank = (i % 13) as i32;
        let suit_index = (i / 13) as i32;
        assert_eq!(card.rank as i32, rank);
        assert!(!card.facedown);
        // Tenths of a world unit: 1.2 * WIDTH * (rank - 6) and
        // 1.2 * HEIGHT * (suit - 1.5), both exact integers.
        assert_eq!(card.position.x, 12 * WIDTH as i32 * (rank - 6));
        assert_eq!(card.position.y, 6 * HEIGHT as i32 * (2 * suit_index - 3));
        assert_eq!(card.position.z, 0);
        let x_world = card.position.x as f32 / 10.0;
        let y_world = card.position.y as f32 / 10.0;
        assert!((x_world - 1.2 * WIDTH as f32 * (rank as f32 - 6.0)).abs() < 1e-3);
        assert!((y_world - 1.2 * HEIGHT as f32 * (suit_index as f32 - 1.5)).abs() < 1e-3);
    }
}

#[test]
fn default_grid_covers_all_suits_and_ranks() {
    let cards = default_grid();
    for suit in [Suit::Clubs, Suit::Spades, Suit::Hearts, Suit::Diamonds] {
        let count = cards.iter().filter(|c| c.suit == suit).count();
        assert_eq!(count, 13);
    }
    for rank in 0..13u8 {
        let count = cards.iter().filter(|c| c.rank == rank).count();
        assert_eq!(count, 4);
    }
}

#[test]
fn card_instances_packs_every_card_in_order() {
    let cards = default_grid();
    let insts = card_instances(&cards);
    assert_eq!(insts.len(), 52);
    for (card, inst) in cards.iter().zip(insts.iter()) {
        assert_eq!(*inst, card.to_instance());
    }
}

#[test]
fn quad_vertices_span_one_card() {
    let vs = quad_vertices();
    assert_eq!(vs.len(), 4);
    let half_w = WIDTH as i32 / 2;
    let half_h = HEIGHT as i32 / 2;
    assert_eq!((vs[0].x, vs[0].y, vs[0].z, vs[0].u, vs[0].v), (half_w, half_h, 0, 1, 0));
    assert_eq!((vs[1].x, vs[1].y, vs[1].z, vs[1].u, vs[1].v), (half_w, -half_h, 0, 1, 1));
    assert_eq!((vs[2].x, vs[2].y, vs[2].z, vs[2].u, vs[2].v), (-half_w, half_h, 0, 0, 0));
    assert_eq!((vs[3].x, vs[3].y, vs[3].z, vs[3].u, vs[3].v), (-half_w, -half_h, 0, 0, 1));
}

#[test]
fn quad_indices_draw_two_triangles() {
    let is = quad_indices();
    assert_eq!(is, vec![2, 3, 0, 0, 3, 1]);
    assert!(is.iter().all(|&i| i < 4));
}
