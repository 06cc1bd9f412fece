//! Integer core of a manifold dual-contouring polygonizer: corner and edge
//! bit sets, the closure check on triangle meshes, axis markers and the
//! buffer that collects script output.

mod axis;
mod bitset;
mod mesh;
mod printbuffer;

pub use axis::{Axis, AxisX, AxisY, AxisZ, PrimitiveParameters};
pub use bitset::{all_bits, bit, bits_of, bitset_text, entries_from, is_least, BitSet};
pub use mesh::{
    directed_edges, edges_paired, edges_unique, is_closed_faces, lemma_closed_reverse_once, Mesh,
    MeshError,
};
pub use printbuffer::{join_messages, joined, PrintBuffer};
