//! Safe, typed navigation over the node tree of a WZ asset archive.
//!
//! The archive itself is decoded by a native parser that the embedding
//! program links. This crate holds the control surface around it: the type
//! tags, the mapping of native replies to typed results, the diagnostic
//! paths, the bounds of indexed access and the child iteration protocol,
//! each stated and proved against a contract.
mod describe;
mod dtype;
mod error;
mod laws;
mod node;
mod pixels;
mod value;

pub use describe::{decimal_text, describe, description, digits, shown_text, value_text, Shown};
pub use dtype::{accepts, tag_is_container, Accessor, Dtype};
pub use error::WzError;
pub use laws::{
    lemma_context_reopens, lemma_index_bounds, lemma_one_accessor_per_tag, lemma_path_round_trip,
    lemma_walk_matches_len,
};
pub use node::{
    child_name, join_path, lemma_steps_range, resolvable, steps, WzCtx, WzFile, WzNode, WzNodeIter,
};
pub use pixels::{image_len, pixel_bytes, read_image, ImageBuffer};
pub use value::{
    bytes_view, decodable, decode_text, encode_path, len_of, read_int32, read_int64, read_len,
    read_name, read_scalar, read_string, read_vector, read_vex_len, scalar_result, text_of,
};
