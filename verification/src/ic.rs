//! IC markers

use vstd::prelude::*;

verus! {

/// MLX90614 IC marker
#[derive(Debug)]
pub struct Mlx90614;

/// MLX90615 IC marker
#[derive(Debug)]
pub struct Mlx90615;

} // verus!
