pub mod emote;
pub mod say_type;
pub mod color;
pub mod chat;
pub mod geometry;
pub mod avatar;
pub mod bridge;
pub mod windowing;
pub mod state;
