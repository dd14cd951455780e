use vstd::prelude::*;

verus! {

/// The failures a strip operation can report. Addressing errors carry the
/// offending index in their message; a transport error carries the bus
/// failure's text.
#[derive(Debug)]
pub enum Ws2812Error {
    LedOutOfRange(String),
    SpiError(String),
    PageOutOfRange(String),
}

} // verus!
