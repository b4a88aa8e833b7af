use fonline_tnf::draw_geometry::{
    draw_order_pos, draw_order_pos_int, DrawOrderType, Hex, DRAW_ORDER, DRAW_ORDER_FLAT, DRAW_ORDER_FLAT_LAST,
    DRAW_ORDER_LAST, MAXHEX_MAX, MAX_DRAW_ORDER,
};

#[test]
fn test_draw_order_pos() {
    let draw_order_pos = draw_order_pos(
        DRAW_ORDER_LAST,
        Hex {
            x: MAXHEX_MAX as u16,
            y: MAXHEX_MAX as u16,
        },
    )
    .unwrap();
    assert_eq!(draw_order_pos, MAX_DRAW_ORDER - 1);
}

#[test]
fn test_draw_order_pos_int() {
    let min = draw_order_pos_int(DRAW_ORDER_FLAT, Hex { x: 0, y: 0 }).unwrap();
    let max = draw_order_pos_int(
        DRAW_ORDER_LAST,
        Hex {
            x: MAXHEX_MAX as u16,
            y: MAXHEX_MAX as u16,
        },
    )
    .unwrap();

    assert!(min < max);
    assert_eq!(min, -1 * (MAX_DRAW_ORDER / 2) as i32);
    assert_eq!(max, (MAX_DRAW_ORDER / 2 - 1) as i32);
}

#[test]
fn flat_layers_come_first() {
    let last_flat = draw_order_pos(DRAW_ORDER_FLAT_LAST, Hex { x: MAXHEX_MAX as u16 - 1, y: MAXHEX_MAX as u16 - 1 }).unwrap();
    let first_raised = draw_order_pos(DRAW_ORDER, Hex { x: 0, y: 0 }).unwrap();
    assert!(last_flat < first_raised);
    assert_eq!(draw_order_pos(DRAW_ORDER_FLAT + 1, Hex { x: 2, y: 3 }), Some(3 * 10000 + 2 + 10000 * 10000));
    assert_eq!(draw_order_pos(DRAW_ORDER + 1, Hex { x: 2, y: 3 }), Some(10000 * 10000 * 20 + 3 * 20 * 10000 + 2 * 20 + 1));
}

#[test]
fn out_of_map_or_layer_has_no_position() {
    assert_eq!(draw_order_pos(DRAW_ORDER, Hex { x: 10001, y: 0 }), None);
    assert_eq!(draw_order_pos(DRAW_ORDER, Hex { x: 0, y: 10001 }), None);
    assert_eq!(draw_order_pos(DRAW_ORDER_LAST + 1, Hex { x: 0, y: 0 }), None);
    assert_eq!(draw_order_pos_int(DRAW_ORDER_LAST + 1, Hex { x: 0, y: 0 }), None);
}

#[test]
fn draw_order_type_values() {
    assert_eq!(DrawOrderType::DrawOrderTile.value(), 0);
    assert_eq!(DrawOrderType::DrawOrderTrack.value(), 16);
    assert_eq!(DrawOrderType::DrawOrderCritter.value(), 29);
    assert_eq!(DrawOrderType::DrawOrderRain.value(), 32);
}

#[test]
fn edge_hexes_of_the_last_flat_layer_overlap_raised_layers() {
    let edge = draw_order_pos(DRAW_ORDER_FLAT_LAST, Hex { x: MAXHEX_MAX as u16, y: MAXHEX_MAX as u16 }).unwrap();
    let first_raised = draw_order_pos(DRAW_ORDER, Hex { x: 0, y: 0 }).unwrap();
    assert!(edge > first_raised);
}

#[test]
fn raised_sprites_by_row_column_layer() {
    let a = draw_order_pos(DRAW_ORDER_LAST, Hex { x: 9999, y: 0 }).unwrap();
    let b = draw_order_pos(DRAW_ORDER, Hex { x: 0, y: 1 }).unwrap();
    assert!(a < b);
    // Column MAXHEX_MAX runs into the next row.
    let edge = draw_order_pos(DRAW_ORDER_LAST, Hex { x: MAXHEX_MAX as u16, y: 0 }).unwrap();
    assert!(edge > b);
}
