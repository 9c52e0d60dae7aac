use vstd::prelude::*;

verus! {

/// A foreground or background colour of a terminal cell, in the terms the
/// drawing layer understands.
#[derive(Clone, Copy, Debug, PartialEq, Eq, Structural)]
pub enum Tint {
    White,
    LightRed,
    LightCyan,
    /// One of the 256 indexed palette colours.
    Indexed(u8),
}

} // verus!
