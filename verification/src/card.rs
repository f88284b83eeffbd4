//! Cards: suits, their texture-atlas indices, and the per-card placement
//! that becomes a GPU instance record.

use vstd::prelude::*;

use crate::util::{
    build_layout, lemma_offset_step, lemma_offset_zero, VertexAttribute, VertexBufferLayout,
    VertexFormat, VertexStepMode,
};

verus! {

/// The four suits of a French-suited deck.
#[derive(Clone, Copy, Debug, PartialEq, Eq, Structural)]
pub enum Suit {
    Clubs,
    Spades,
    Hearts,
    Diamonds,
}

/// Strength order of the suits under Doppelkopf rules: Clubs highest.
pub open spec fn spec_doppelkopf_suit_strength(s: Suit) -> u8 {
    match s {
        Suit::Clubs => 4,
        Suit::Spades => 3,
        Suit::Hearts => 2,
        Suit::Diamonds => 1,
    }
}

/// Row of the texture atlas that holds a suit's card faces.  This table is
/// fixed by the atlas image; it is deliberately not alphabetical.
pub open spec fn spec_texture_index(s: Suit) -> u8 {
    match s {
        Suit::Clubs => 3,
        Suit::Spades => 2,
        Suit::Hearts => 0,
        Suit::Diamonds => 1,
    }
}

impl Suit {
    pub fn doppelkopf_suit_strength(&self) -> (r: u8)
        ensures
            r == spec_doppelkopf_suit_strength(*self),
    {
        match self {
            Suit::Clubs => 4,
            Suit::Spades => 3,
            Suit::Hearts => 2,
            Suit::Diamonds => 1,
        }
    }

    pub fn texture_index(&self) -> (r: u8)
        ensures
            r == spec_texture_index(*self),
    {
        match self {
            Suit::Clubs => 3,
            Suit::Spades => 2,
            Suit::Hearts => 0,
            Suit::Diamonds => 1,
        }
    }
}

/// Whether some suit's atlas row is `i`.
pub open spec fn atlas_row_used(i: u8) -> bool {
    exists|s: Suit| spec_texture_index(s) == i
}

/// The atlas-row table is a bijection between the four suits and the indices
/// `0..4`: every suit has exactly one row, and every row belongs to exactly
/// one suit.
pub proof fn lemma_texture_index_bijective()
    ensures
        forall|s: Suit| spec_texture_index(s) < 4,
        forall|a: Suit, b: Suit|
            spec_texture_index(a) == spec_texture_index(b) ==> a == b,
        forall|i: u8| i < 4 ==> #[trigger] atlas_row_used(i),
{
    assert forall|i: u8| i < 4 implies #[trigger] atlas_row_used(i) by {
        if i == 0 {
            assert(spec_texture_index(Suit::Hearts) == i);
        } else if i == 1 {
            assert(spec_texture_index(Suit::Diamonds) == i);
        } else if i == 2 {
            assert(spec_texture_index(Suit::Spades) == i);
        } else {
            assert(spec_texture_index(Suit::Clubs) == i);
        }
    }
}

/// Width of a card in world units.
pub const WIDTH: u32 = 34;

/// Height of a card in world units.
pub const HEIGHT: u32 = 48;

/// A point of the card table.  Coordinates are in tenths of a world unit,
/// so that the grid spacing of 1.2 card-sizes is exact.
#[derive(Clone, Copy, Debug, PartialEq, Eq, Structural)]
pub struct Position {
    pub x: i32,
    pub y: i32,
    pub z: i32,
}

/// One card on the table: where it lies and which face it shows.
#[derive(Clone, Copy, Debug, PartialEq, Eq, Structural)]
pub struct Card {
    pub position: Position,
    pub facedown: bool,
    pub rank: u8,
    pub suit: Suit,
}

/// The per-card record handed to the GPU, one per drawn instance.  The
/// position becomes the translation column of the instance's model matrix;
/// the three scalars select the atlas cell and the face shown.
#[derive(Clone, Copy, Debug, PartialEq, Eq, Structural)]
pub struct Instance {
    pub position: Position,
    pub rank: u32,
    pub suit: u32,
    pub facedown: u32,
}

/// The instance record that a card packs to.
pub open spec fn spec_instance(c: Card) -> Instance {
    Instance {
        position: c.position,
        rank: c.rank as u32,
        suit: spec_texture_index(c.suit) as u32,
        facedown: if c.facedown { 1 } else { 0 },
    }
}

impl Card {
    /// Pack this card into its GPU instance record.
    pub fn to_instance(&self) -> (inst: Instance)
        ensures
            inst == spec_instance(*self),
    {
        Instance {
            position: self.position,
            rank: self.rank as u32,
            suit: self.suit.texture_index() as u32,
            facedown: if self.facedown { 1 } else { 0 },
        }
    }
}

/// Pack a whole card list into instance records, in order.
pub fn card_instances(cards: &Vec<Card>) -> (insts: Vec<Instance>)
    ensures
        insts@.len() == cards@.len(),
        forall|i: int| 0 <= i < cards@.len() ==> insts@[i] == spec_instance(#[trigger] cards@[i]),
{
    let mut insts: Vec<Instance> = Vec::new();
    let mut i: usize = 0;
    while i < cards.len()
        invariant
            i <= cards@.len(),
            insts@.len() == i,
            forall|j: int| 0 <= j < i ==> insts@[j] == spec_instance(#[trigger] cards@[j]),
        decreases cards@.len() - i,
    {
        insts.push(cards[i].to_instance());
        i = i + 1;
    }
    insts
}

/// The suit laid out in grid row `i`, in declaration order.
pub open spec fn suit_of_index(i: int) -> Suit {
    if i == 0 {
        Suit::Clubs
    } else if i == 1 {
        Suit::Spades
    } else if i == 2 {
        Suit::Hearts
    } else {
        Suit::Diamonds
    }
}

/// Grid column position: cards sit 1.2 card-widths apart, centred on the
/// rank-6 column.  In tenths of a world unit, 1.2 * WIDTH is exactly
/// 12 * WIDTH.
pub open spec fn grid_x(rank: int) -> int {
    12 * (WIDTH as int) * (rank - 6)
}

/// Grid row position: rows sit 1.2 card-heights apart, centred between the
/// middle two of the four suit rows.  In tenths of a world unit,
/// 1.2 * HEIGHT * (suit - 1.5) is exactly 6 * HEIGHT * (2 * suit - 3).
pub open spec fn grid_y(suit_index: int) -> int {
    6 * (HEIGHT as int) * (2 * suit_index - 3)
}

/// Card number `i` of the default 52-card table: row `i / 13` holds one
/// suit, column `i % 13` one rank, every card face up.
pub open spec fn grid_card(i: int) -> Card {
    Card {
        position: Position {
            x: grid_x(i % 13) as i32,
            y: grid_y(i / 13) as i32,
            z: 0,
        },
        facedown: false,
        rank: (i % 13) as u8,
        suit: suit_of_index(i / 13),
    }
}

/// The suit of grid row `i`.
fn suit_from_index(i: usize) -> (s: Suit)
    requires
        i < 4,
    ensures
        s == suit_of_index(i as int),
{
    if i == 0 {
        Suit::Clubs
    } else if i == 1 {
        Suit::Spades
    } else if i == 2 {
        Suit::Hearts
    } else {
        Suit::Diamonds
    }
}

/// Build the default table: all 52 cards, one per (rank, suit) pair, laid
/// out in a 13-column, 4-row grid.
pub fn default_grid() -> (cards: Vec<Card>)
    ensures
        cards@.len() == 52,
        forall|i: int| 0 <= i < 52 ==> #[trigger] cards@[i] == grid_card(i),
{
    let mut cards: Vec<Card> = Vec::new();
    let mut i: usize = 0;
    while i < 52
        invariant
            i <= 52,
            cards@.len() == i,
            forall|j: int| 0 <= j < i ==> #[trigger] cards@[j] == grid_card(j),
        decreases 52 - i,
    {
        let suit_index: usize = i / 13;
        let rank: usize = i % 13;
        assert(suit_index < 4 && rank < 13) by (nonlinear_arith)
            requires
                i < 52,
                suit_index == i / 13,
                rank == i % 13,
        ;
        let x: i32 = 12 * (WIDTH as i32) * (rank as i32 - 6);
        let y: i32 = 6 * (HEIGHT as i32) * (2 * (suit_index as i32) - 3);
        cards.push(Card {
            position: Position { x, y, z: 0 },
            facedown: false,
            rank: rank as u8,
            suit: suit_from_index(suit_index),
        });
        i = i + 1;
    }
    cards
}

/// In the default grid no two cards show the same (rank, suit) pair.
pub proof fn lemma_grid_pairs_unique()
    ensures
        forall|i: int, j: int|
            0 <= i < 52 && 0 <= j < 52 && i != j
                ==> !(#[trigger] grid_card(i).rank == #[trigger] grid_card(j).rank
                    && grid_card(i).suit == grid_card(j).suit),
{
    assert forall|i: int, j: int|
        0 <= i < 52 && 0 <= j < 52 && i != j
            implies !(#[trigger] grid_card(i).rank == #[trigger] grid_card(j).rank
                && grid_card(i).suit == grid_card(j).suit) by {
        if grid_card(i).rank == grid_card(j).rank && grid_card(i).suit == grid_card(j).suit {
            assert(i % 13 == j % 13);
            assert(suit_of_index(i / 13) == suit_of_index(j / 13));
            assert(0 <= i / 13 < 4 && 0 <= j / 13 < 4) by (nonlinear_arith)
                requires
                    0 <= i < 52,
                    0 <= j < 52,
            ;
            assert(i / 13 == j / 13);
            assert(i == 13 * (i / 13) + i % 13 && j == 13 * (j / 13) + j % 13) by (nonlinear_arith);
            assert(false);
        }
    }
}

/// One vertex of the shared card quad.  Positions are in world units (the
/// quad spans one card, centred on the origin); texture coordinates are the
/// unit square, with `v` flipped so the image is upright.
#[derive(Clone, Copy, Debug, PartialEq, Eq, Structural)]
pub struct Vertex {
    pub x: i32,
    pub y: i32,
    pub z: i32,
    pub u: i32,
    pub v: i32,
}

/// The quad corner with coordinates `(cx, cy)` in the unit square: the
/// position is centred on the origin, `(cx - 1/2) * WIDTH` across and
/// `(cy - 1/2) * HEIGHT` up, and the texture coordinate is flipped
/// vertically so the image is upright.
pub open spec fn quad_corner(cx: int, cy: int) -> Vertex {
    Vertex {
        x: ((2 * cx - 1) * (WIDTH as int) / 2) as i32,
        y: ((2 * cy - 1) * (HEIGHT as int) / 2) as i32,
        z: 0,
        u: cx as i32,
        v: (1 - cy) as i32,
    }
}

/// The four vertices of the shared card quad.
pub fn quad_vertices() -> (vs: Vec<Vertex>)
    ensures
        vs@.len() == 4,
        vs@[0] == quad_corner(1, 1),
        vs@[1] == quad_corner(1, 0),
        vs@[2] == quad_corner(0, 1),
        vs@[3] == quad_corner(0, 0),
{
    let mut vs: Vec<Vertex> = Vec::new();
    vs.push(Vertex { x: 17, y: 24, z: 0, u: 1, v: 0 });
    vs.push(Vertex { x: 17, y: -24, z: 0, u: 1, v: 1 });
    vs.push(Vertex { x: -17, y: 24, z: 0, u: 0, v: 0 });
    vs.push(Vertex { x: -17, y: -24, z: 0, u: 0, v: 1 });
    vs
}

impl Vertex {
    /// Layout of the shared quad's vertex buffer: a three-float position,
    /// then a two-float texture coordinate, 20 bytes per vertex, advancing
    /// per vertex, at shader locations 0 and 1.
    pub fn buffer_layout() -> (l: VertexBufferLayout)
        ensures
            l.step_mode == VertexStepMode::Vertex,
            l.array_stride == 20,
            l.attributes@.len() == 2,
            l.attributes@[0] == (VertexAttribute {
                offset: 0,
                shader_location: 0,
                format: VertexFormat::Float32x3,
            }),
            l.attributes@[1] == (VertexAttribute {
                offset: 12,
                shader_location: 1,
                format: VertexFormat::Float32x2,
            }),
    {
        let formats: Vec<VertexFormat> = vec![VertexFormat::Float32x3, VertexFormat::Float32x2];
        proof {
            lemma_offset_zero(formats@);
            lemma_offset_step(formats@, 0);
            lemma_offset_step(formats@, 1);
            crate::util::lemma_stride_is_total(formats@);
        }
        build_layout(0, VertexStepMode::Vertex, &formats)
    }
}

impl Instance {
    /// Layout of the instance buffer: four four-float rows of the model
    /// matrix, then the rank, atlas row and face-down scalars, 76 bytes per
    /// record, advancing per instance, at shader locations 5 through 11.
    pub fn buffer_layout() -> (l: VertexBufferLayout)
        ensures
            l.step_mode == VertexStepMode::Instance,
            l.array_stride == 76,
            l.attributes@.len() == 7,
            forall|i: int| 0 <= i < 4 ==> (#[trigger] l.attributes@[i]) == (VertexAttribute {
                offset: (16 * i) as u64,
                shader_location: (5 + i) as u32,
                format: VertexFormat::Float32x4,
            }),
            forall|i: int| 4 <= i < 7 ==> (#[trigger] l.attributes@[i]) == (VertexAttribute {
                offset: (64 + 4 * (i - 4)) as u64,
                shader_location: (5 + i) as u32,
                format: VertexFormat::Uint32,
            }),
    {
        let formats: Vec<VertexFormat> = vec![
            VertexFormat::Float32x4,
            VertexFormat::Float32x4,
            VertexFormat::Float32x4,
            VertexFormat::Float32x4,
            VertexFormat::Uint32,
            VertexFormat::Uint32,
            VertexFormat::Uint32,
        ];
        proof {
            lemma_offset_zero(formats@);
            lemma_offset_step(formats@, 0);
            lemma_offset_step(formats@, 1);
            lemma_offset_step(formats@, 2);
            lemma_offset_step(formats@, 3);
            lemma_offset_step(formats@, 4);
            lemma_offset_step(formats@, 5);
            lemma_offset_step(formats@, 6);
            crate::util::lemma_stride_is_total(formats@);
        }
        build_layout(5, VertexStepMode::Instance, &formats)
    }
}

/// The index list that draws the quad as two counter-clockwise triangles.
pub fn quad_indices() -> (is: Vec<u16>)
    ensures
        is@ == seq![2u16, 3u16, 0u16, 0u16, 3u16, 1u16],
        forall|i: int| 0 <= i < is@.len() ==> #[trigger] is@[i] < 4,
{
    let is: Vec<u16> = vec![2, 3, 0, 0, 3, 1];
    assert(is@ =~= seq![2u16, 3u16, 0u16, 0u16, 3u16, 1u16]);
    is
}

} // verus!
