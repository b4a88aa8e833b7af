use vstd::prelude::*;

verus! {

/// A rectangle on the screen: its top left corner and its size.
#[derive(Debug, Clone, Copy, PartialEq, Eq, Structural)]
pub struct Rect {
    pub x: i32,
    pub y: i32,
    pub width: u32,
    pub height: u32,
}

impl Rect {
    pub fn new(x: i32, y: i32, width: u32, height: u32) -> (r: Rect)
        ensures
            r == (Rect { x, y, width, height }),
    {
        Rect { x, y, width, height }
    }
}

/// A picture as rows of 24-bit RGB pixels.
#[derive(Debug)]
pub struct ImageData {
    pub bytes: Vec<u8>,
    pub width: u32,
    pub height: u32,
    /// Bytes per row: three per pixel.
    pub pitch: u32,
}

impl ImageData {
    /// Takes the pixels of a decoded picture.
    pub fn new(bytes: Vec<u8>, width: u32, height: u32) -> (r: ImageData)
        requires
            width * 3 <= u32::MAX,
        ensures
            r.bytes@ == bytes@,
            r.width == width,
            r.height == height,
            r.pitch == width * 3,
    {
        ImageData { width, height, pitch: width * 3, bytes }
    }
}

/// What the parent window shows.
#[derive(Debug, Clone, Copy, PartialEq, Eq, Structural)]
pub struct Parent {
    pub show_avatars: bool,
    pub show_ui: bool,
}

/// The bar of buttons that stays at the top right of the game window.
#[derive(Debug, Clone, Copy)]
pub struct Bar {
    pub client_size: (u32, u32),
    pub show_chat: bool,
    pub show_faces: bool,
}

/// The size that the bar's window is made with.
pub const BAR_SIZE: (u32, u32) = (90, 35);

impl Bar {
    pub fn new(client_size: (u32, u32)) -> (r: Bar)
        ensures
            r == (Bar { client_size, show_chat: true, show_faces: true }),
    {
        Bar { client_size, show_chat: true, show_faces: true }
    }

    /// Where the bar stays, relative to the game window: at its top right.
    pub fn sticky_pos(&self) -> (r: Option<(i32, i32)>)
        requires
            (self.client_size.0 as i32) - 90 >= i32::MIN,
        ensures
            r == Some((((self.client_size.0 as i32) - 90) as i32, 0i32)),
    {
        Some((self.client_size.0 as i32 - BAR_SIZE.0 as i32, 0))
    }
}

} // verus!
