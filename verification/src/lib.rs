//! Weather report panels: a weather description centred in a fixed-width
//! field of an ASCII-art display, and the decisions around one weather request.

pub mod field;
pub mod forecast;
pub mod panel;
pub mod report;
pub mod request;

pub use field::format_response;
pub use panel::{happy_weather_crab, sad_crab};
