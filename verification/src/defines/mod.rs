pub mod fos;
pub mod say;
pub mod param;
