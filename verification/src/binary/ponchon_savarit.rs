//! The Ponchon–Savarit construction's support check.
//!
//! The difference-point construction models a total condenser only: a
//! partial condenser would add an equilibrium stage above the top tray.

use vstd::prelude::*;

use crate::column::CondenserKind;
use crate::types::StagesError;

verus! {

/// The message for an unsupported (partial) condenser.
pub open spec fn partial_condenser_text() -> Seq<char> {
    "Ponchon–Savarit v1 supports a total condenser only; a partial condenser adds an equilibrium stage above the top tray that is not yet modelled"@
}

/// Check that the construction supports the condenser: total is supported,
/// partial is rejected as infeasible.
pub fn check_condenser(condenser: CondenserKind) -> (checked: Result<(), StagesError>)
    ensures
        checked is Ok <==> condenser == CondenserKind::Total,
        checked matches Err(e) ==> (e matches StagesError::Infeasible(m) && m@
            == partial_condenser_text()),
{
    match condenser {
        CondenserKind::Total => Ok(()),
        CondenserKind::Partial => Err(
            StagesError::Infeasible(
                "Ponchon–Savarit v1 supports a total condenser only; a partial condenser adds an equilibrium stage above the top tray that is not yet modelled".to_owned(),
            ),
        ),
    }
}

} // verus!
