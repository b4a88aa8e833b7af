use vstd::prelude::*;
use crate::critter::PARAMS_COUNT;
use crate::defines::fos::{ACCESS_MODER, COND_DEAD};
use crate::defines::param::{CritterParam, CritterParamMut};
use crate::draw_geometry::Hex;
use crate::params::raw_param::{QST_VISION, ST_ACCESS_LEVEL};

verus! {

/// A critter of the server, by the fields that the library reads.
#[derive(Debug)]
pub struct Critter {
    pub id: u32,
    pub hex_x: u16,
    pub hex_y: u16,
    /// Life, knockout or death (`COND_*`).
    pub cond: u8,
    pub critter_is_npc: bool,
    /// The engine has dropped the critter; it is not to be used.
    pub is_not_valid: bool,
    pub params: Vec<i32>,
}

/// A critter as the client sees it, by the fields that the library reads.
#[derive(Debug)]
pub struct CritterCl {
    pub id: u32,
    pub hex_x: u16,
    pub hex_y: u16,
    pub params: Vec<i32>,
}

impl Critter {
    pub open spec fn wf(&self) -> bool {
        self.params@.len() == PARAMS_COUNT
    }

    /// The hexagon it stands on.
    pub fn hex(&self) -> (r: Hex)
        ensures
            r == (Hex { x: self.hex_x, y: self.hex_y }),
    {
        Hex { x: self.hex_x, y: self.hex_y }
    }

    pub fn is_valid(&self) -> (r: bool)
        ensures
            r == !self.is_not_valid,
    {
        !self.is_not_valid
    }

    pub fn is_dead(&self) -> (r: bool)
        ensures
            r == (self.cond == COND_DEAD),
    {
        self.cond == COND_DEAD
    }

    pub fn is_npc(&self) -> (r: bool)
        ensures
            r == self.critter_is_npc,
    {
        self.critter_is_npc
    }

    pub fn is_player(&self) -> (r: bool)
        ensures
            r == !self.critter_is_npc,
    {
        !self.critter_is_npc
    }

    /// Whether it sees as a game master does: a moderator or above with the
    /// vision switched on.
    pub fn have_gm_vision(&self) -> (r: bool)
        requires
            self.wf(),
        ensures
            r == ((self.params@[ST_ACCESS_LEVEL as int] as u32) >= ACCESS_MODER && (self.params@[QST_VISION as int] as u32)
                > 0),
    {
        self.uparam(ST_ACCESS_LEVEL) >= ACCESS_MODER && self.uparam(QST_VISION) > 0
    }
}

impl CritterParam<u16> for Critter {
    open spec fn spec_params(&self) -> Seq<i32> {
        self.params@
    }

    fn params_all(&self) -> (r: &[i32]) {
        self.params.as_slice()
    }
}

impl CritterParamMut<u16> for Critter {
    fn set_param(&mut self, p: u16, val: i32) {
        self.params.set(p as usize, val);
    }
}

impl CritterCl {
    pub open spec fn wf(&self) -> bool {
        self.params@.len() == PARAMS_COUNT
    }
}

impl CritterParam<u16> for CritterCl {
    open spec fn spec_params(&self) -> Seq<i32> {
        self.params@
    }

    fn params_all(&self) -> (r: &[i32]) {
        self.params.as_slice()
    }
}

/// An item of a critter's loot list.
#[allow(non_camel_case_types, non_snake_case)]
#[derive(Debug, Clone, Copy)]
pub struct Critter__bindgen_ty_1 {
    pub ItemPid: u32,
    pub MinCnt: u32,
    pub MaxCnt: u32,
    pub ItemSlot: u32,
}

/// A player's extended record: the global map fog, known locations and the
/// addresses it played from.
#[allow(non_camel_case_types, non_snake_case)]
#[derive(Clone, Copy)]
pub struct Critter__bindgen_ty_2 {
    pub Reserved23: [u32; 10],
    pub GlobalMapFog: [u8; 2500],
    pub Reserved24: u16,
    pub LocationsCount: u16,
    pub LocationsId: [u32; 1000],
    pub Reserved25: [u32; 40],
    pub PlayIp: [u32; 20],
    pub PlayPort: [u16; 20],
    pub CurrentIp: u32,
    pub Reserved26: [u32; 29],
}

/// The global map fog as a bitmap; the bytes are held, not pointed to.
#[allow(non_camel_case_types, non_snake_case)]
#[derive(Debug)]
pub struct Critter__bindgen_ty_3 {
    pub IsAlloc: bool,
    pub Data: Vec<u8>,
    pub Width: u32,
    pub Height: u32,
    pub WidthB: u32,
}

/// An NPC's plan to walk to a hexagon.
#[allow(non_camel_case_types, non_snake_case)]
#[derive(Debug, Clone, Copy)]
pub struct NpcPlane__bindgen_ty_1__bindgen_ty_3 {
    pub IsRun: bool,
    pub HexX: u16,
    pub HexY: u16,
    pub Dir: u8,
    pub Cut: u32,
}

/// An NPC's plan to pick up or use an item.
#[allow(non_camel_case_types, non_snake_case)]
#[derive(Debug, Clone, Copy)]
pub struct NpcPlane__bindgen_ty_1__bindgen_ty_4 {
    pub IsRun: bool,
    pub HexX: u16,
    pub HexY: u16,
    pub Pid: u16,
    pub UseItemId: u32,
    pub ToOpen: bool,
}

/// The raw words of an NPC's plan.
#[allow(non_camel_case_types, non_snake_case)]
#[derive(Debug, Clone, Copy)]
pub struct NpcPlane__bindgen_ty_1__bindgen_ty_5 {
    pub Buffer: [u32; 8],
}

/// Where an NPC's plan has taken it on its path.
#[allow(non_camel_case_types, non_snake_case)]
#[derive(Debug, Clone, Copy)]
pub struct NpcPlane__bindgen_ty_2 {
    pub PathNum: u32,
    pub Iter: u32,
    pub IsRun: bool,
    pub TargId: u32,
    pub HexX: u16,
    pub HexY: u16,
    pub Cut: u32,
    pub Trace: u32,
}

/// Why the server did not run a script.
#[derive(Debug, Clone, Copy, PartialEq, Eq, Structural)]
pub enum ServerAPIError {
    CritterIsNotValid,
    CritterIsNotPlayer,
    RunClientScriptFailed,
    RunCritterScriptFailed,
}

/// Whether a client script may run for the critter: it must be valid and a
/// player; the script then runs and the engine says whether it did.
pub fn client_script_target(cr: &Critter) -> (r: Result<(), ServerAPIError>)
    ensures
        r == (if cr.is_not_valid {
            Err(ServerAPIError::CritterIsNotValid)
        } else if cr.critter_is_npc {
            Err(ServerAPIError::CritterIsNotPlayer)
        } else {
            Ok(())
        }),
{
    if !cr.is_valid() {
        Err(ServerAPIError::CritterIsNotValid)
    } else if !cr.is_player() {
        Err(ServerAPIError::CritterIsNotPlayer)
    } else {
        Ok(())
    }
}

/// Whether a critter script may run: a critter given must be valid; without
/// one the script runs globally.
pub fn critter_script_target(cr: Option<&Critter>) -> (r: Result<(), ServerAPIError>)
    ensures
        r == (match cr {
            Some(c) => if c.is_not_valid {
                Err(ServerAPIError::CritterIsNotValid)
            } else {
                Ok(())
            },
            None => Ok(()),
        }),
{
    match cr {
        Some(c) => if !c.is_valid() {
            Err(ServerAPIError::CritterIsNotValid)
        } else {
            Ok(())
        },
        None => Ok(()),
    }
}

/// The outcome of a script run by the engine: `failed` when it reports that
/// the run did not happen.
pub fn script_outcome(ran: bool, failed: ServerAPIError) -> (r: Result<(), ServerAPIError>)
    ensures
        r == (if ran { Ok(()) } else { Err(failed) }),
{
    if ran {
        Ok(())
    } else {
        Err(failed)
    }
}

} // verus!
