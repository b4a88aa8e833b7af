pub mod absorb;
pub mod damage;
pub mod def;
pub mod misc;
pub mod perk;
pub mod raw_param;
pub mod resist;
pub mod skill;
pub mod stat;
pub mod timeout;
pub mod traits;
pub mod values;
