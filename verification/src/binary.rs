//! Binary (two-component) staged-separation methods.
//!
//! Everything here works on the **light component's** mole fraction: `x` in
//! the liquid, `y` in the vapor, with the more volatile component listed
//! first. The library holds the checks that every construction runs on its
//! inputs' shape before it samples or steps anything.

pub mod equilibrium;
pub mod ponchon_savarit;
