use vstd::prelude::*;
use crate::bytes::{push_u32_le, u32_le};
use crate::crypto::{sha256, sha256_digest};
use crate::primitives::hash;
use crate::primitives::GameId;

verus! {

/// A square of the maze grid.
#[derive(Debug, Clone, Copy, PartialEq, Eq, Structural, Hash)]
pub struct Cell {
    pub x: u32,
    pub y: u32,
}

/// The distance along one axis, after reading both coordinates as `i32`.
pub open spec fn axis_gap(a: u32, b: u32) -> int {
    let d = (a as i32) - (b as i32);
    if d < 0 {
        -d
    } else {
        d
    }
}

/// The `i32` difference of the two coordinates neither overflows nor is
/// `i32::MIN`, whose absolute value does not fit.
pub open spec fn axis_gap_fits(a: u32, b: u32) -> bool {
    i32::MIN < (a as i32) - (b as i32) <= i32::MAX
}

/// Chebyshev distance: the larger of the two axis gaps.
pub open spec fn spec_distance(a: Cell, b: Cell) -> int {
    let dx = axis_gap(a.x, b.x);
    let dy = axis_gap(a.y, b.y);
    if dx >= dy {
        dx
    } else {
        dy
    }
}

impl Cell {
    pub fn new(x: u32, y: u32) -> (res: Self)
        ensures
            res.x == x,
            res.y == y,
    {
        Cell { x, y }
    }

    /// Chebyshev distance to `other`.
    pub fn distance_to(&self, other: Cell) -> (res: u32)
        requires
            axis_gap_fits(self.x, other.x),
            axis_gap_fits(self.y, other.y),
        ensures
            res == spec_distance(*self, other),
    {
        let ddx: i32 = self.x as i32 - other.x as i32;
        let ddy: i32 = self.y as i32 - other.y as i32;
        let adx: i32 = if ddx < 0 { -ddx } else { ddx };
        let ady: i32 = if ddy < 0 { -ddy } else { ddy };
        let dx = adx as u32;
        let dy = ady as u32;
        if dx >= dy {
            dx
        } else {
            dy
        }
    }
}

/// Distance is symmetric, and a cell is at distance 0 from itself.
pub proof fn lemma_distance_symmetric(a: Cell, b: Cell)
    ensures
        spec_distance(a, b) == spec_distance(b, a),
        spec_distance(a, a) == 0,
        spec_distance(a, b) >= 0,
{
}

/// A wall between two cells.
#[derive(Debug, Clone, Copy, PartialEq, Eq, Structural)]
pub struct Wall {
    pub from: Cell,
    pub to: Cell,
}

/// A trap and its damage.
#[derive(Debug, Clone, Copy, PartialEq, Eq, Structural)]
pub struct Trap {
    pub cell: Cell,
    pub damage: u32,
}

/// How valuable a coin is.
#[derive(Debug, Clone, Copy, PartialEq, Eq, Structural)]
pub enum CoinRarity {
    Common,
    Uncommon,
    Rare,
}

/// The coin value of each rarity.
pub open spec fn rarity_value(r: CoinRarity) -> u32 {
    match r {
        CoinRarity::Common => 1,
        CoinRarity::Uncommon => 3,
        CoinRarity::Rare => 5,
    }
}

/// The number a rarity is hashed as: its position in the declaration.
pub open spec fn rarity_code(r: CoinRarity) -> u32 {
    match r {
        CoinRarity::Common => 0,
        CoinRarity::Uncommon => 1,
        CoinRarity::Rare => 2,
    }
}

impl CoinRarity {
    pub fn value(&self) -> (res: u32)
        ensures
            res == rarity_value(*self),
    {
        match self {
            CoinRarity::Common => 1,
            CoinRarity::Uncommon => 3,
            CoinRarity::Rare => 5,
        }
    }

    fn code(&self) -> (res: u32)
        ensures
            res == rarity_code(*self),
    {
        match self {
            CoinRarity::Common => 0,
            CoinRarity::Uncommon => 1,
            CoinRarity::Rare => 2,
        }
    }
}

/// A coin placed on the floor.
#[derive(Debug, Clone, Copy, PartialEq, Eq, Structural)]
pub struct CoinSpawn {
    pub id: u32,
    pub cell: Cell,
    pub rarity: CoinRarity,
}

/// A deterministically generated Maze Runner floor.
#[derive(Debug, Clone)]
pub struct GeneratedMazeFloor {
    pub game_id: GameId,
    pub game_rules_version: u32,
    pub floor_number: u32,
    pub width: u32,
    pub height: u32,
    pub start_cell: Cell,
    pub exit_cell: Cell,
    pub walls: Vec<Wall>,
    pub traps: Vec<Trap>,
    pub coins: Vec<CoinSpawn>,
    pub floor_hash: hash::Hash,
}

pub open spec fn cell_bytes(c: Cell) -> Seq<u8> {
    u32_le(c.x) + u32_le(c.y)
}

pub open spec fn walls_bytes(s: Seq<Wall>) -> Seq<u8>
    decreases s.len(),
{
    if s.len() == 0 {
        Seq::empty()
    } else {
        walls_bytes(s.drop_last()) + cell_bytes(s.last().from) + cell_bytes(s.last().to)
    }
}

pub open spec fn traps_bytes(s: Seq<Trap>) -> Seq<u8>
    decreases s.len(),
{
    if s.len() == 0 {
        Seq::empty()
    } else {
        traps_bytes(s.drop_last()) + cell_bytes(s.last().cell) + u32_le(s.last().damage)
    }
}

pub open spec fn coins_bytes(s: Seq<CoinSpawn>) -> Seq<u8>
    decreases s.len(),
{
    if s.len() == 0 {
        Seq::empty()
    } else {
        coins_bytes(s.drop_last()) + u32_le(s.last().id) + cell_bytes(s.last().cell) + u32_le(
            rarity_code(s.last().rarity),
        )
    }
}

/// The bytes a floor is hashed from: its numbers, start and exit in
/// little-endian, then every wall, trap and coin in order.
pub open spec fn floor_preimage(f: GeneratedMazeFloor) -> Seq<u8> {
    u32_le(f.game_id.0) + u32_le(f.game_rules_version) + u32_le(f.floor_number) + u32_le(f.width)
        + u32_le(f.height) + cell_bytes(f.start_cell) + cell_bytes(f.exit_cell) + walls_bytes(
        f.walls@,
    ) + traps_bytes(f.traps@) + coins_bytes(f.coins@)
}

fn push_cell(buf: &mut Vec<u8>, c: Cell)
    ensures
        final(buf)@ == old(buf)@ + cell_bytes(c),
{
    push_u32_le(buf, c.x);
    push_u32_le(buf, c.y);
    assert(final(buf)@ =~= old(buf)@ + cell_bytes(c));
}

impl GeneratedMazeFloor {
    /// The hash of every deterministic property of the floor.
    pub fn compute_hash(&self) -> (res: hash::Hash)
        ensures
            res.0@ == sha256(floor_preimage(*self)),
    {
        let mut buf: Vec<u8> = Vec::new();
        push_u32_le(&mut buf, self.game_id.0);
        push_u32_le(&mut buf, self.game_rules_version);
        push_u32_le(&mut buf, self.floor_number);
        push_u32_le(&mut buf, self.width);
        push_u32_le(&mut buf, self.height);
        push_cell(&mut buf, self.start_cell);
        push_cell(&mut buf, self.exit_cell);
        let ghost head = buf@;
        let mut i: usize = 0;
        while i < self.walls.len()
            invariant
                i <= self.walls@.len(),
                buf@ == head + walls_bytes(self.walls@.take(i as int)),
            decreases self.walls@.len() - i,
        {
            let w = self.walls[i];
            push_cell(&mut buf, w.from);
            push_cell(&mut buf, w.to);
            assert(self.walls@.take(i + 1).drop_last() =~= self.walls@.take(i as int));
            assert(buf@ =~= head + walls_bytes(self.walls@.take(i + 1)));
            i = i + 1;
        }
        assert(self.walls@.take(i as int) =~= self.walls@);
        let ghost head = buf@;
        let mut i: usize = 0;
        while i < self.traps.len()
            invariant
                i <= self.traps@.len(),
                buf@ == head + traps_bytes(self.traps@.take(i as int)),
            decreases self.traps@.len() - i,
        {
            let t = self.traps[i];
            push_cell(&mut buf, t.cell);
            push_u32_le(&mut buf, t.damage);
            assert(self.traps@.take(i + 1).drop_last() =~= self.traps@.take(i as int));
            assert(buf@ =~= head + traps_bytes(self.traps@.take(i + 1)));
            i = i + 1;
        }
        assert(self.traps@.take(i as int) =~= self.traps@);
        let ghost head = buf@;
        let mut i: usize = 0;
        while i < self.coins.len()
            invariant
                i <= self.coins@.len(),
                buf@ == head + coins_bytes(self.coins@.take(i as int)),
            decreases self.coins@.len() - i,
        {
            let c = self.coins[i];
            push_u32_le(&mut buf, c.id);
            push_cell(&mut buf, c.cell);
            push_u32_le(&mut buf, c.rarity.code());
            assert(self.coins@.take(i + 1).drop_last() =~= self.coins@.take(i as int));
            assert(buf@ =~= head + coins_bytes(self.coins@.take(i + 1)));
            i = i + 1;
        }
        assert(self.coins@.take(i as int) =~= self.coins@);
        assert(buf@ =~= floor_preimage(*self));
        hash::Hash::new(sha256_digest(buf.as_slice()))
    }
}

proof fn lemma_cell_bytes_injective(a: Cell, b: Cell)
    requires
        cell_bytes(a) == cell_bytes(b),
    ensures
        a == b,
{
    crate::bytes::lemma_le_lengths(a.x, 0);
    crate::bytes::lemma_le_lengths(b.x, 0);
    crate::bytes::lemma_concat_split(u32_le(a.x), u32_le(a.y), u32_le(b.x), u32_le(b.y));
    crate::bytes::lemma_u32_le_injective(a.x, b.x);
    crate::bytes::lemma_u32_le_injective(a.y, b.y);
}

proof fn lemma_cell_bytes_len(c: Cell)
    ensures
        cell_bytes(c).len() == 8,
{
    crate::bytes::lemma_le_lengths(c.x, 0);
    crate::bytes::lemma_le_lengths(c.y, 0);
}

proof fn lemma_walls_bytes(a: Seq<Wall>, b: Seq<Wall>)
    ensures
        walls_bytes(a).len() == 16 * a.len(),
        a.len() == b.len() && walls_bytes(a) == walls_bytes(b) ==> a == b,
    decreases a.len(),
{
    if a.len() > 0 {
        lemma_walls_bytes(a.drop_last(), if b.len() > 0 { b.drop_last() } else { b });
        lemma_cell_bytes_len(a.last().from);
        lemma_cell_bytes_len(a.last().to);
        if a.len() == b.len() && walls_bytes(a) == walls_bytes(b) {
            lemma_walls_bytes(b.drop_last(), b.drop_last());
            lemma_cell_bytes_len(b.last().from);
            lemma_cell_bytes_len(b.last().to);
            let pa = walls_bytes(a.drop_last()) + cell_bytes(a.last().from);
            let pb = walls_bytes(b.drop_last()) + cell_bytes(b.last().from);
            crate::bytes::lemma_concat_split(pa, cell_bytes(a.last().to), pb, cell_bytes(b.last().to));
            crate::bytes::lemma_concat_split(walls_bytes(a.drop_last()), cell_bytes(a.last().from),
                walls_bytes(b.drop_last()), cell_bytes(b.last().from));
            lemma_cell_bytes_injective(a.last().from, b.last().from);
            lemma_cell_bytes_injective(a.last().to, b.last().to);
            assert(a =~= a.drop_last().push(a.last()));
            assert(b =~= b.drop_last().push(b.last()));
        }
    } else if b.len() == 0 {
        assert(a =~= b);
    }
}

proof fn lemma_traps_bytes(a: Seq<Trap>, b: Seq<Trap>)
    ensures
        traps_bytes(a).len() == 12 * a.len(),
        a.len() == b.len() && traps_bytes(a) == traps_bytes(b) ==> a == b,
    decreases a.len(),
{
    if a.len() > 0 {
        lemma_traps_bytes(a.drop_last(), if b.len() > 0 { b.drop_last() } else { b });
        lemma_cell_bytes_len(a.last().cell);
        crate::bytes::lemma_le_lengths(a.last().damage, 0);
        if a.len() == b.len() && traps_bytes(a) == traps_bytes(b) {
            lemma_traps_bytes(b.drop_last(), b.drop_last());
            lemma_cell_bytes_len(b.last().cell);
            crate::bytes::lemma_le_lengths(b.last().damage, 0);
            let pa = traps_bytes(a.drop_last()) + cell_bytes(a.last().cell);
            let pb = traps_bytes(b.drop_last()) + cell_bytes(b.last().cell);
            crate::bytes::lemma_concat_split(pa, u32_le(a.last().damage), pb, u32_le(b.last().damage));
            crate::bytes::lemma_concat_split(traps_bytes(a.drop_last()), cell_bytes(a.last().cell),
                traps_bytes(b.drop_last()), cell_bytes(b.last().cell));
            lemma_cell_bytes_injective(a.last().cell, b.last().cell);
            crate::bytes::lemma_u32_le_injective(a.last().damage, b.last().damage);
            assert(a =~= a.drop_last().push(a.last()));
            assert(b =~= b.drop_last().push(b.last()));
        }
    } else if b.len() == 0 {
        assert(a =~= b);
    }
}

proof fn lemma_coins_bytes(a: Seq<CoinSpawn>, b: Seq<CoinSpawn>)
    ensures
        coins_bytes(a).len() == 16 * a.len(),
        a.len() == b.len() && coins_bytes(a) == coins_bytes(b) ==> a == b,
    decreases a.len(),
{
    if a.len() > 0 {
        lemma_coins_bytes(a.drop_last(), if b.len() > 0 { b.drop_last() } else { b });
        lemma_cell_bytes_len(a.last().cell);
        crate::bytes::lemma_le_lengths(a.last().id, 0);
        crate::bytes::lemma_le_lengths(rarity_code(a.last().rarity), 0);
        if a.len() == b.len() && coins_bytes(a) == coins_bytes(b) {
            lemma_coins_bytes(b.drop_last(), b.drop_last());
            lemma_cell_bytes_len(b.last().cell);
            crate::bytes::lemma_le_lengths(b.last().id, 0);
            crate::bytes::lemma_le_lengths(rarity_code(b.last().rarity), 0);
            let qa = coins_bytes(a.drop_last()) + u32_le(a.last().id);
            let qb = coins_bytes(b.drop_last()) + u32_le(b.last().id);
            crate::bytes::lemma_concat_split(qa + cell_bytes(a.last().cell), u32_le(rarity_code(a.last().rarity)),
                qb + cell_bytes(b.last().cell), u32_le(rarity_code(b.last().rarity)));
            crate::bytes::lemma_concat_split(qa, cell_bytes(a.last().cell), qb, cell_bytes(b.last().cell));
            crate::bytes::lemma_concat_split(coins_bytes(a.drop_last()), u32_le(a.last().id),
                coins_bytes(b.drop_last()), u32_le(b.last().id));
            lemma_cell_bytes_injective(a.last().cell, b.last().cell);
            crate::bytes::lemma_u32_le_injective(a.last().id, b.last().id);
            crate::bytes::lemma_u32_le_injective(rarity_code(a.last().rarity), rarity_code(b.last().rarity));
            assert(a.last().rarity == b.last().rarity);
            assert(a =~= a.drop_last().push(a.last()));
            assert(b =~= b.drop_last().push(b.last()));
        }
    } else if b.len() == 0 {
        assert(a =~= b);
    }
}

/// The floor hash commits to every generated property of the floor: two
/// floors hashed from the same bytes agree on game, rules version, floor
/// number, size, start and exit cells; and, given as many walls, traps and
/// coins, on every wall, trap and coin in order.
pub proof fn lemma_floor_preimage_injective(f: GeneratedMazeFloor, g: GeneratedMazeFloor)
    requires
        floor_preimage(f) == floor_preimage(g),
    ensures
        f.game_id == g.game_id,
        f.game_rules_version == g.game_rules_version,
        f.floor_number == g.floor_number,
        f.width == g.width,
        f.height == g.height,
        f.start_cell == g.start_cell,
        f.exit_cell == g.exit_cell,
        f.walls@.len() == g.walls@.len() && f.traps@.len() == g.traps@.len() && f.coins@.len()
            == g.coins@.len() ==> f.walls@ == g.walls@ && f.traps@ == g.traps@ && f.coins@
            == g.coins@,
{
    let fa = u32_le(f.game_id.0) + u32_le(f.game_rules_version) + u32_le(f.floor_number) + u32_le(
        f.width,
    ) + u32_le(f.height) + cell_bytes(f.start_cell) + cell_bytes(f.exit_cell);
    let ga = u32_le(g.game_id.0) + u32_le(g.game_rules_version) + u32_le(g.floor_number) + u32_le(
        g.width,
    ) + u32_le(g.height) + cell_bytes(g.start_cell) + cell_bytes(g.exit_cell);
    crate::bytes::lemma_le_lengths(f.game_id.0, 0);
    crate::bytes::lemma_le_lengths(f.game_rules_version, 0);
    crate::bytes::lemma_le_lengths(f.floor_number, 0);
    crate::bytes::lemma_le_lengths(f.width, 0);
    crate::bytes::lemma_le_lengths(f.height, 0);
    crate::bytes::lemma_le_lengths(g.game_id.0, 0);
    crate::bytes::lemma_le_lengths(g.game_rules_version, 0);
    crate::bytes::lemma_le_lengths(g.floor_number, 0);
    crate::bytes::lemma_le_lengths(g.width, 0);
    crate::bytes::lemma_le_lengths(g.height, 0);
    lemma_cell_bytes_len(f.start_cell);
    lemma_cell_bytes_len(f.exit_cell);
    lemma_cell_bytes_len(g.start_cell);
    lemma_cell_bytes_len(g.exit_cell);
    let fw = walls_bytes(f.walls@);
    let gw = walls_bytes(g.walls@);
    let ft = traps_bytes(f.traps@);
    let gt = traps_bytes(g.traps@);
    let fc = coins_bytes(f.coins@);
    let gc = coins_bytes(g.coins@);
    assert(floor_preimage(f) == fa + (fw + ft + fc)) by {
        assert(floor_preimage(f) =~= fa + (fw + ft + fc));
    }
    assert(floor_preimage(g) == ga + (gw + gt + gc)) by {
        assert(floor_preimage(g) =~= ga + (gw + gt + gc));
    }
    assert(fa.len() == 36 && ga.len() == 36);
    crate::bytes::lemma_concat_split(fa, fw + ft + fc, ga, gw + gt + gc);
    let f6 = u32_le(f.game_id.0) + u32_le(f.game_rules_version) + u32_le(f.floor_number) + u32_le(
        f.width,
    ) + u32_le(f.height) + cell_bytes(f.start_cell);
    let g6 = u32_le(g.game_id.0) + u32_le(g.game_rules_version) + u32_le(g.floor_number) + u32_le(
        g.width,
    ) + u32_le(g.height) + cell_bytes(g.start_cell);
    crate::bytes::lemma_concat_split(f6, cell_bytes(f.exit_cell), g6, cell_bytes(g.exit_cell));
    let f5 = u32_le(f.game_id.0) + u32_le(f.game_rules_version) + u32_le(f.floor_number) + u32_le(
        f.width,
    ) + u32_le(f.height);
    let g5 = u32_le(g.game_id.0) + u32_le(g.game_rules_version) + u32_le(g.floor_number) + u32_le(
        g.width,
    ) + u32_le(g.height);
    crate::bytes::lemma_concat_split(f5, cell_bytes(f.start_cell), g5, cell_bytes(g.start_cell));
    let f4 = u32_le(f.game_id.0) + u32_le(f.game_rules_version) + u32_le(f.floor_number) + u32_le(
        f.width,
    );
    let g4 = u32_le(g.game_id.0) + u32_le(g.game_rules_version) + u32_le(g.floor_number) + u32_le(
        g.width,
    );
    crate::bytes::lemma_concat_split(f4, u32_le(f.height), g4, u32_le(g.height));
    let f3 = u32_le(f.game_id.0) + u32_le(f.game_rules_version) + u32_le(f.floor_number);
    let g3 = u32_le(g.game_id.0) + u32_le(g.game_rules_version) + u32_le(g.floor_number);
    crate::bytes::lemma_concat_split(f3, u32_le(f.width), g3, u32_le(g.width));
    let f2 = u32_le(f.game_id.0) + u32_le(f.game_rules_version);
    let g2 = u32_le(g.game_id.0) + u32_le(g.game_rules_version);
    crate::bytes::lemma_concat_split(f2, u32_le(f.floor_number), g2, u32_le(g.floor_number));
    crate::bytes::lemma_concat_split(u32_le(f.game_id.0), u32_le(f.game_rules_version), u32_le(g.game_id.0), u32_le(g.game_rules_version));
    crate::bytes::lemma_u32_le_injective(f.game_id.0, g.game_id.0);
    crate::bytes::lemma_u32_le_injective(f.game_rules_version, g.game_rules_version);
    crate::bytes::lemma_u32_le_injective(f.floor_number, g.floor_number);
    crate::bytes::lemma_u32_le_injective(f.width, g.width);
    crate::bytes::lemma_u32_le_injective(f.height, g.height);
    lemma_cell_bytes_injective(f.start_cell, g.start_cell);
    lemma_cell_bytes_injective(f.exit_cell, g.exit_cell);
    lemma_walls_bytes(f.walls@, g.walls@);
    lemma_traps_bytes(f.traps@, g.traps@);
    lemma_coins_bytes(f.coins@, g.coins@);
    lemma_walls_bytes(g.walls@, g.walls@);
    lemma_traps_bytes(g.traps@, g.traps@);
    lemma_coins_bytes(g.coins@, g.coins@);
    if f.walls@.len() == g.walls@.len() && f.traps@.len() == g.traps@.len() && f.coins@.len()
        == g.coins@.len() {
        crate::bytes::lemma_concat_split(fw + ft, fc, gw + gt, gc);
        crate::bytes::lemma_concat_split(fw, ft, gw, gt);
    }
}

} // verus!
