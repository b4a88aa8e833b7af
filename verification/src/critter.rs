use vstd::prelude::*;
use crate::defines::param::{CritterParam, CritterParamMut};

verus! {

/// Number of entries of a critter's parameter array.
pub const PARAMS_COUNT: usize = 1000;

/// Deterioration at which an item is fully worn out.
pub const MAX_DETERIORATION: u16 = 10000;

/// In-game time of day as the engine reports it.
#[derive(Clone, Copy, Debug)]
pub struct Time {
    pub hour: u16,
    pub minute: u16,
    pub second: u16,
}

pub open spec fn spec_minute_of_day(hour: u16, minute: u16) -> int {
    hour * 60 + minute
}

impl Time {
    /// The minute of the day fits in the `u16` in which it is computed.
    pub open spec fn is_computable(self) -> bool {
        spec_minute_of_day(self.hour, self.minute) <= u16::MAX
    }

    /// Night lasts from 18:01 to 06:00, both ends included.
    pub open spec fn spec_is_night(self) -> bool {
        let m = spec_minute_of_day(self.hour, self.minute);
        m <= 6 * 60 || 18 * 60 < m
    }

    pub fn is_night(&self) -> (r: bool)
        requires
            self.is_computable(),
        ensures
            r == self.spec_is_night(),
            r == (self.hour * 60 + self.minute <= 360 || 1080 < self.hour * 60 + self.minute),
    {
        let full_minute: u16 = self.hour * 60 + self.minute;
        full_minute <= 6 * 60 || 18 * 60 < full_minute
    }
}

/// Over a day's clock, night is the six hours after midnight, up to 06:00
/// itself, and everything after 18:00: every minute of the hours 19 to 23
/// and 0 to 5 is night, every minute of the hours 7 to 17 is day, and the
/// boundaries 06:00 and 18:01 are night while 06:01 and 18:00 are day.
pub proof fn lemma_night_of_clock(t: Time)
    requires
        t.hour < 24,
        t.minute < 60,
    ensures
        t.spec_is_night() == (t.hour * 60 + t.minute <= 360 || 1080 < t.hour * 60 + t.minute),
        (t.hour < 6 || 19 <= t.hour) ==> t.spec_is_night(),
        (7 <= t.hour && t.hour < 18) ==> !t.spec_is_night(),
        (t.hour == 6 && t.minute == 0) ==> t.spec_is_night(),
        (t.hour == 6 && t.minute > 0) ==> !t.spec_is_night(),
        (t.hour == 18 && t.minute == 0) ==> !t.spec_is_night(),
        (t.hour == 18 && t.minute > 0) ==> t.spec_is_night(),
{
}

/// The protective values of an armor's prototype that formulas read.
#[derive(Clone, Copy, Debug)]
pub struct ArmorProto {
    pub armor_ac: i32,
    pub dt_normal: i32,
    pub dt_laser: i32,
    pub dt_fire: i32,
    pub dt_plasma: i32,
    pub dt_electr: i32,
    pub dt_emp: i32,
    pub dt_explode: i32,
    pub dr_normal: i32,
    pub dr_laser: i32,
    pub dr_fire: i32,
    pub dr_plasma: i32,
    pub dr_electr: i32,
    pub dr_emp: i32,
    pub dr_explode: i32,
}

/// The armor a critter wears: its prototype, when the item has one, and its wear.
#[derive(Clone, Copy, Debug)]
pub struct Armor {
    pub proto: Option<ArmorProto>,
    pub deterioration: u16,
}

impl Armor {
    /// Wear in percent, at most 100.
    pub open spec fn spec_deterioration_proc(self) -> u16 {
        let p = (self.deterioration * 100) / (MAX_DETERIORATION as int);
        if p > 100 { 100 } else { p as u16 }
    }

    pub fn get_deterioration(&self) -> (r: u16)
        ensures
            r == self.deterioration,
    {
        self.deterioration
    }

    /// Wear in percent of `MAX_DETERIORATION`, rounded down and at most 100;
    /// the product is taken wide enough for every wear.
    pub fn get_deterioration_proc(&self) -> (r: u16)
        ensures
            r == self.spec_deterioration_proc(),
            r <= 100,
    {
        let proc: u32 = self.get_deterioration() as u32 * 100 / MAX_DETERIORATION as u32;
        if proc < 100 { proc as u16 } else { 100 }
    }
}

/// The data a formula is computed over: a critter's parameters, the time of
/// day and its armor.
#[derive(Debug)]
pub struct Critter {
    pub param: Vec<i32>,
    pub time: Time,
    pub armor: Option<Armor>,
}

impl Critter {
    pub open spec fn wf(&self) -> bool {
        self.param@.len() == PARAMS_COUNT
    }

    pub fn new(param: Vec<i32>, time: Time) -> (r: Critter)
        requires
            param@.len() == PARAMS_COUNT,
        ensures
            r.wf(),
            r.param@ == param@,
            r.time == time,
            r.armor is None,
    {
        Critter { param, time, armor: None }
    }

    pub fn with_armor(param: Vec<i32>, time: Time, armor: Armor) -> (r: Critter)
        requires
            param@.len() == PARAMS_COUNT,
        ensures
            r.wf(),
            r.param@ == param@,
            r.time == time,
            r.armor == Some(armor),
    {
        Critter { param, time, armor: Some(armor) }
    }

    pub fn armor(&self) -> (r: Option<Armor>)
        ensures
            r == self.armor,
    {
        self.armor
    }

    /// The parameter at `index`.
    pub fn get_param(&self, index: usize) -> (r: i32)
        requires
            index < self.param@.len(),
        ensures
            r == self.param@[index as int],
    {
        self.param[index]
    }
}

impl CritterParam<u16> for Critter {
    open spec fn spec_params(&self) -> Seq<i32> {
        self.param@
    }

    fn params_all(&self) -> (r: &[i32]) {
        self.param.as_slice()
    }
}

impl CritterParamMut<u16> for Critter {
    fn set_param(&mut self, p: u16, val: i32) {
        self.param.set(p as usize, val);
    }
}

} // verus!
