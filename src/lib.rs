//! Status publication for a single publisher and three audience segments:
//! who may publish, which segment a reader may see, one overwritable record
//! per segment, and the page that shows it.

pub mod segment;
pub mod text;
pub mod record;
pub mod access;
pub mod repository;
pub mod html;
pub mod gateway;
pub mod sender;
