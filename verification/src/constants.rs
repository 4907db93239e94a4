//! Sizes of the modelled neural populations.

use vstd::prelude::*;

verus! {

/// Number of compass columns.
pub const N_COLUMNS: usize = 8;

/// Heading-sensor units.
pub const N_TL2: usize = 16;

/// Contralateral-inhibition units.
pub const N_CL1: usize = 16;

/// Ring-attractor units.
pub const N_TB1: usize = 8;

/// Optic-flow speed sensors of the first kind.
pub const N_TN1: usize = 2;

/// Optic-flow speed sensors of the second kind.
pub const N_TN2: usize = 2;

/// Memory units.
pub const N_CPU4: usize = 16;

/// Inhibitory relay units.
pub const N_PONTINE: usize = 16;

/// Amplification units.
pub const N_AMP: usize = 16;

/// Steering units of the first kind.
pub const N_CPU1A: usize = 14;

/// Steering units of the second kind.
pub const N_CPU1B: usize = 2;

/// All steering units.
pub const N_CPU1: usize = N_CPU1A + N_CPU1B;

/// Motor channels: left and right.
pub const N_MOTOR: usize = 2;

} // verus!
