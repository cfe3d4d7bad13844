//! The column domain vocabulary shared by every binary method.
//!
//! Stages are numbered **top-down**: 1 = condenser, N = reboiler.

use vstd::prelude::*;

verus! {

/// The condenser at the top of the column (stage 1).
///
/// A **total** condenser condenses the whole overhead vapor, so the reflux
/// and distillate share the vapor's composition and the condenser is *not* an
/// equilibrium stage. A **partial** condenser condenses only the reflux and
/// takes the distillate as vapor; the vapor–liquid split makes it one extra
/// equilibrium stage.
#[derive(Debug, Clone, Copy, PartialEq, Eq, Structural)]
pub enum CondenserKind {
    /// Condense everything; distillate is liquid at composition `x_D`.
    Total,
    /// Condense only the reflux; distillate is vapor at composition `x_D`,
    /// and the condenser counts as an equilibrium stage.
    Partial,
}

impl Default for CondenserKind {
    /// Total condensers are the McCabe–Thiele default.
    fn default() -> (kind: Self)
        ensures
            kind == CondenserKind::Total,
    {
        CondenserKind::Total
    }
}

} // verus!
