use vstd::prelude::*;

verus! {

/// An RGB triple read from the screen. A coordinate where no sample is
/// available at all is represented by `Option::<Color>::None`, never by a
/// reserved `Color` value.
#[derive(Clone, Copy, PartialEq, Eq, Structural, Debug)]
pub struct Color {
    pub r: u8,
    pub g: u8,
    pub b: u8,
}

impl Color {
    pub fn new(r: u8, g: u8, b: u8) -> (c: Color)
        ensures
            c == (Color { r, g, b }),
    {
        Color { r, g, b }
    }
}

/// Blue/green/teal accept-button signature: low red, mid-to-high green, high blue.
pub open spec fn accept_sig(c: Color) -> bool {
    c.r < 100 && c.g >= 100 && c.b >= 150
}

/// Red-dominant pause/stop indicator, as the dedicated pause pass looks for it.
pub open spec fn pause_red_sig(c: Color) -> bool {
    c.r >= 180 && c.g < 100 && c.b < 100
}

/// The pause pass confirms a red hit by the red channel of one neighbor alone.
pub open spec fn pause_neighbor_sig(c: Color) -> bool {
    c.r >= 180
}

/// The coarser red signature used by the corner-anchored probes.
pub open spec fn corner_red_sig(c: Color) -> bool {
    c.r >= 150 && c.g < 100 && c.b < 100
}

/// Blue retry-button signature for the cluster candidate itself.
pub open spec fn retry_candidate_sig(c: Color) -> bool {
    c.r < 100 && c.g >= 100 && c.g <= 200 && c.b >= 180
}

/// Blue retry-button signature for the further cluster samples.
pub open spec fn retry_cluster_sig(c: Color) -> bool {
    c.r < 100 && c.g >= 100 && c.b >= 180
}

pub fn is_accept_color(c: Color) -> (res: bool)
    ensures
        res == accept_sig(c),
{
    c.r < 100 && c.g >= 100 && c.b >= 150
}

pub fn is_pause_red(c: Color) -> (res: bool)
    ensures
        res == pause_red_sig(c),
{
    c.r >= 180 && c.g < 100 && c.b < 100
}

pub fn is_pause_neighbor(c: Color) -> (res: bool)
    ensures
        res == pause_neighbor_sig(c),
{
    c.r >= 180
}

pub fn is_corner_red(c: Color) -> (res: bool)
    ensures
        res == corner_red_sig(c),
{
    c.r >= 150 && c.g < 100 && c.b < 100
}

pub fn is_retry_candidate(c: Color) -> (res: bool)
    ensures
        res == retry_candidate_sig(c),
{
    c.r < 100 && c.g >= 100 && c.g <= 200 && c.b >= 180
}

pub fn is_retry_cluster(c: Color) -> (res: bool)
    ensures
        res == retry_cluster_sig(c),
{
    c.r < 100 && c.g >= 100 && c.b >= 180
}

} // verus!
