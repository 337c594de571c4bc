//! Intermediate representation core of a GPU shader compiler backend.
//!
//! - `reg`, `ssa`: register files, packed register references, SSA values.
//! - `operand`: destinations, sources and their modifier algebra.
//! - `logic`, `types`: predicate combination, comparisons, truth tables and
//!   the small enumerations of instruction fields.
//! - `fold` and the instruction modules (`int_ops`, `shift`, `prmt`,
//!   `surface`, `imadsp`, `alu`, `float_ops`, `conv_ops`, `half_ops`,
//!   `misc_ops`, `tex`, `surface_mem`, `attr_ops`, `control`, `wave_ops`,
//!   `virtual_ops`): the instruction kinds, with bit-exact constant folding
//!   where the hardware arithmetic is integer.
//! - `slots`: every instruction's sources and destinations as indexed
//!   sequences with declared slot types.
//! - `block`, `vec_pair`: instructions, scheduling annotations, basic blocks
//!   with their phi markers, and latency classification.
//! - `text`: deterministic rendering of operands and instructions.
//! - `shader`: functions, shaders and the summary gathered from them.

mod bits;
pub mod reg;
pub mod ssa;
pub mod operand;
pub mod logic;
pub mod fold;
pub mod int_ops;
pub mod types;
pub mod shift;
pub mod prmt;
pub mod surface;
pub mod imadsp;
pub mod alu;
pub mod wave_ops;
pub mod virtual_ops;
pub mod half_ops;
pub mod control;
pub mod attr_ops;
pub mod surface_mem;
pub mod tex;
pub mod misc_ops;
pub mod conv_ops;
pub mod float_ops;
pub mod vec_pair;
pub mod block;
pub mod text;
pub mod shader;
pub mod slots;
pub mod io;
