use vstd::prelude::*;

verus! {

/// One palette colour: red, green and blue components, eight bits each.
#[derive(Debug, Copy, Clone, PartialEq, Eq, Structural)]
pub struct Rgb(pub u8, pub u8, pub u8);

impl Rgb {
    /// The colour every palette entry starts out with.
    pub open spec fn black() -> Rgb {
        Rgb(0, 0, 0)
    }

    /// Component `k` of the colour for `k` in 0..3, and full opacity for
    /// any other `k`.
    pub open spec fn channel(self, k: int) -> u8 {
        if k == 0 {
            self.0
        } else if k == 1 {
            self.1
        } else if k == 2 {
            self.2
        } else {
            255u8
        }
    }

    /// Builds a colour from its three components.
    pub fn new(r: u8, g: u8, b: u8) -> (c: Rgb)
        ensures
            c == Rgb(r, g, b),
    {
        Rgb(r, g, b)
    }

    pub fn red(&self) -> (r: u8)
        ensures
            r == self.0,
    {
        self.0
    }

    pub fn green(&self) -> (g: u8)
        ensures
            g == self.1,
    {
        self.1
    }

    pub fn blue(&self) -> (b: u8)
        ensures
            b == self.2,
    {
        self.2
    }
}

impl Default for Rgb {
    fn default() -> (c: Rgb)
        ensures
            c == Rgb::black(),
    {
        Rgb(0, 0, 0)
    }
}

} // verus!
