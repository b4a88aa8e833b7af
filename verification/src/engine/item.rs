use vstd::prelude::*;

verus! {

/// Where an item lies on a map.
#[allow(non_camel_case_types, non_snake_case)]
#[derive(Debug, Clone, Copy)]
pub struct Item__bindgen_ty_1__bindgen_ty_1 {
    pub MapId: u32,
    pub HexX: u16,
    pub HexY: u16,
}

/// Which critter carries an item, and in which slot.
#[allow(non_camel_case_types, non_snake_case)]
#[derive(Debug, Clone, Copy)]
pub struct Item__bindgen_ty_1__bindgen_ty_2 {
    pub Id: u32,
    pub Slot: u8,
}

/// Which container holds an item, and in which stack.
#[allow(non_camel_case_types, non_snake_case)]
#[derive(Debug, Clone, Copy)]
pub struct Item__bindgen_ty_1__bindgen_ty_3 {
    pub ContainerId: u32,
    pub StackId: u32,
}

} // verus!
