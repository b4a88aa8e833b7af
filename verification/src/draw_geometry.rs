use vstd::prelude::*;

verus! {

/// A hexagon of the map.
#[derive(Debug, Clone, Copy, PartialEq, Eq, Structural)]
pub struct Hex {
    pub x: u16,
    pub y: u16,
}

pub const DRAW_ORDER_FLAT: u32 = 0;
pub const DRAW_ORDER_FLAT_LAST: u32 = 19;
pub const DRAW_ORDER: u32 = 20;
pub const DRAW_ORDER_LAST: u32 = 39;

pub const MAXHEX_DEF: u32 = 200;
pub const MAXHEX_MIN: u32 = 10;
pub const MAXHEX_MAX: u32 = 10000;
/// One more than the greatest draw order position.
pub const MAX_DRAW_ORDER: u32 = 4000200020;

/// Sprite layers, as draw order types.
#[derive(Debug, Clone, Copy, PartialEq, Eq)]
pub enum DrawOrderType {
    DrawOrderTile,
    DrawOrderTileEnd,
    DrawOrderHexGrid,
    DrawOrderFlatScenery,
    DrawOrderLight,
    DrawOrderDeadCritter,
    DrawOrderFlatItem,
    DrawOrderTrack,
    DrawOrderScenery,
    DrawOrderItem,
    DrawOrderCritter,
    DrawOrderRain,
}

impl DrawOrderType {
    pub open spec fn spec_value(self) -> int {
        match self {
            DrawOrderType::DrawOrderTile => DRAW_ORDER_FLAT as int,
            DrawOrderType::DrawOrderTileEnd => DRAW_ORDER_FLAT + 4,
            DrawOrderType::DrawOrderHexGrid => DRAW_ORDER_FLAT + 5,
            DrawOrderType::DrawOrderFlatScenery => DRAW_ORDER_FLAT + 8,
            DrawOrderType::DrawOrderLight => DRAW_ORDER_FLAT + 9,
            DrawOrderType::DrawOrderDeadCritter => DRAW_ORDER_FLAT + 10,
            DrawOrderType::DrawOrderFlatItem => DRAW_ORDER_FLAT + 13,
            DrawOrderType::DrawOrderTrack => DRAW_ORDER_FLAT + 16,
            DrawOrderType::DrawOrderScenery => DRAW_ORDER + 3,
            DrawOrderType::DrawOrderItem => DRAW_ORDER + 6,
            DrawOrderType::DrawOrderCritter => DRAW_ORDER + 9,
            DrawOrderType::DrawOrderRain => DRAW_ORDER + 12,
        }
    }

    /// The numeric draw order type.
    pub fn value(&self) -> (r: u32)
        ensures
            r == self.spec_value(),
    {
        match self {
            DrawOrderType::DrawOrderTile => DRAW_ORDER_FLAT,
            DrawOrderType::DrawOrderTileEnd => DRAW_ORDER_FLAT + 4,
            DrawOrderType::DrawOrderHexGrid => DRAW_ORDER_FLAT + 5,
            DrawOrderType::DrawOrderFlatScenery => DRAW_ORDER_FLAT + 8,
            DrawOrderType::DrawOrderLight => DRAW_ORDER_FLAT + 9,
            DrawOrderType::DrawOrderDeadCritter => DRAW_ORDER_FLAT + 10,
            DrawOrderType::DrawOrderFlatItem => DRAW_ORDER_FLAT + 13,
            DrawOrderType::DrawOrderTrack => DRAW_ORDER_FLAT + 16,
            DrawOrderType::DrawOrderScenery => DRAW_ORDER + 3,
            DrawOrderType::DrawOrderItem => DRAW_ORDER + 6,
            DrawOrderType::DrawOrderCritter => DRAW_ORDER + 9,
            DrawOrderType::DrawOrderRain => DRAW_ORDER + 12,
        }
    }
}

/// The position of a sprite in the drawing order: flat layers by row, then
/// column, then layer; the other layers above them, interleaved per hexagon.
/// `None` for hexagons beyond the map limit and unknown layers.
pub open spec fn spec_draw_order_pos(draw_order_type: u32, hex: Hex) -> Option<u32> {
    let hx = hex.x as int;
    let hy = hex.y as int;
    let m = MAXHEX_MAX as int;
    if hx > m || hy > m {
        None
    } else if draw_order_type <= DRAW_ORDER_FLAT_LAST {
        Some((hy * m + hx + m * m * (draw_order_type - DRAW_ORDER_FLAT)) as u32)
    } else if DRAW_ORDER <= draw_order_type <= DRAW_ORDER_LAST {
        Some((m * m * DRAW_ORDER + hy * DRAW_ORDER * m + hx * DRAW_ORDER + (draw_order_type - DRAW_ORDER)) as u32)
    } else {
        None
    }
}

pub fn draw_order_pos(draw_order_type: u32, hex: Hex) -> (r: Option<u32>)
    ensures
        r == spec_draw_order_pos(draw_order_type, hex),
        r matches Some(p) ==> p < MAX_DRAW_ORDER,
{
    let hx = hex.x as u32;
    let hy = hex.y as u32;
    if hx > MAXHEX_MAX || hy > MAXHEX_MAX {
        return None;
    }
    if draw_order_type <= DRAW_ORDER_FLAT_LAST {
        assert(hy * MAXHEX_MAX <= 100000000) by (nonlinear_arith)
            requires hy <= 10000;
        assert(MAXHEX_MAX * MAXHEX_MAX * (draw_order_type - DRAW_ORDER_FLAT) <= 1900000000) by (nonlinear_arith)
            requires draw_order_type <= 19;
        Some(hy * MAXHEX_MAX + hx + MAXHEX_MAX * MAXHEX_MAX * (draw_order_type - DRAW_ORDER_FLAT))
    } else if DRAW_ORDER <= draw_order_type && draw_order_type <= DRAW_ORDER_LAST {
        assert(hy * DRAW_ORDER * MAXHEX_MAX <= 2000000000) by (nonlinear_arith)
            requires hy <= 10000;
        Some(MAXHEX_MAX * MAXHEX_MAX * DRAW_ORDER + hy * DRAW_ORDER * MAXHEX_MAX + hx * DRAW_ORDER
            + (draw_order_type - DRAW_ORDER))
    } else {
        None
    }
}

/// The draw order position shifted to be centered on zero: the position
/// minus half of `MAX_DRAW_ORDER`.
pub fn draw_order_pos_int(draw_order_type: u32, hex: Hex) -> (r: Option<i32>)
    ensures
        match spec_draw_order_pos(draw_order_type, hex) {
            Some(p) => r == Some((p - MAX_DRAW_ORDER / 2) as i32),
            None => r is None,
        },
        r matches Some(v) ==> -(MAX_DRAW_ORDER / 2) <= v < MAX_DRAW_ORDER / 2,
{
    match draw_order_pos(draw_order_type, hex) {
        Some(order) => Some((order as i64 - (MAX_DRAW_ORDER / 2) as i64) as i32),
        None => None,
    }
}

/// Inside the map's edge, every sprite of a flat layer is drawn before every
/// sprite of a raised layer. (On the edge itself, at `MAXHEX_MAX`, the last
/// flat layer runs past the first raised positions.)
pub proof fn lemma_flat_before_raised(flat: u32, raised: u32, a: Hex, b: Hex)
    requires
        flat <= DRAW_ORDER_FLAT_LAST,
        DRAW_ORDER <= raised <= DRAW_ORDER_LAST,
        a.x < MAXHEX_MAX,
        a.y < MAXHEX_MAX,
        b.x <= MAXHEX_MAX,
        b.y <= MAXHEX_MAX,
    ensures
        spec_draw_order_pos(flat, a).unwrap() < spec_draw_order_pos(raised, b).unwrap(),
{
}

/// Among the raised layers, sprites are drawn row by row, then column by
/// column, and on one hexagon layer by layer, for columns inside the map's
/// edge. (A sprite at column `MAXHEX_MAX` shares positions with the next
/// row's first column.)
pub proof fn lemma_raised_order(l1: u32, a: Hex, l2: u32, b: Hex)
    requires
        DRAW_ORDER <= l1 <= DRAW_ORDER_LAST,
        DRAW_ORDER <= l2 <= DRAW_ORDER_LAST,
        a.x < MAXHEX_MAX,
        a.y <= MAXHEX_MAX,
        b.x < MAXHEX_MAX,
        b.y <= MAXHEX_MAX,
        a.y < b.y || (a.y == b.y && a.x < b.x) || (a.y == b.y && a.x == b.x && l1 < l2),
    ensures
        spec_draw_order_pos(l1, a).unwrap() < spec_draw_order_pos(l2, b).unwrap(),
{
    let ax = a.x as int;
    let ay = a.y as int;
    let bx = b.x as int;
    let by = b.y as int;
    let d1 = l1 - 20;
    let d2 = l2 - 20;
    let pa = ay * 200000 + ax * 20 + d1;
    let pb = by * 200000 + bx * 20 + d2;
    assert(pa < pb) by (nonlinear_arith)
        requires
            0 <= ax < 10000,
            0 <= bx < 10000,
            0 <= ay,
            0 <= d1 < 20,
            0 <= d2 < 20,
            ay < by || (ay == by && ax < bx) || (ay == by && ax == bx && d1 < d2),
            pa == ay * 200000 + ax * 20 + d1,
            pb == by * 200000 + bx * 20 + d2,
    ;
    assert(spec_draw_order_pos(l1, a).unwrap() == 2000000000 + pa);
    assert(spec_draw_order_pos(l2, b).unwrap() == 2000000000 + pb);
}

/// Within the flat layers, sprites are drawn layer by layer, then row by row,
/// then column by column, for hexagons inside the map's edge.
pub proof fn lemma_flat_order(l1: u32, a: Hex, l2: u32, b: Hex)
    requires
        l1 <= DRAW_ORDER_FLAT_LAST,
        l2 <= DRAW_ORDER_FLAT_LAST,
        a.x < MAXHEX_MAX,
        a.y < MAXHEX_MAX,
        b.x < MAXHEX_MAX,
        b.y < MAXHEX_MAX,
        l1 < l2 || (l1 == l2 && a.y < b.y) || (l1 == l2 && a.y == b.y && a.x < b.x),
    ensures
        spec_draw_order_pos(l1, a).unwrap() < spec_draw_order_pos(l2, b).unwrap(),
{
    let ax = a.x as int;
    let ay = a.y as int;
    let bx = b.x as int;
    let by = b.y as int;
    let f1 = l1 as int;
    let f2 = l2 as int;
    let pa = ay * 10000 + ax + 100000000 * f1;
    let pb = by * 10000 + bx + 100000000 * f2;
    assert(pa < pb) by (nonlinear_arith)
        requires
            0 <= ax < 10000,
            0 <= bx < 10000,
            0 <= ay < 10000,
            0 <= by < 10000,
            f1 < f2 || (f1 == f2 && ay < by) || (f1 == f2 && ay == by && ax < bx),
            pa == ay * 10000 + ax + 100000000 * f1,
            pb == by * 10000 + bx + 100000000 * f2,
    ;
    assert(spec_draw_order_pos(l1, a).unwrap() == pa);
    assert(spec_draw_order_pos(l2, b).unwrap() == pb);
}

} // verus!
