//! Save and load values to and from OS-conventional disk locations.
//!
//! The crate is organised around one *persistable entity*: a validated set of
//! path components that deterministically names a file, its gzip sibling and
//! the temporary siblings used by the atomic save and remove protocol.  The
//! byte-level protocol itself (write to a temporary file, then rename into
//! place) is implemented and proved over an explicit model of the entity's
//! on-disk state, so that its crash-safety guarantees are machine-checked.

mod common;
mod dir;
mod engine;
mod entity;
mod error;
mod fs_model;
mod header;
mod metadata;

pub use common::assert_safe_path;
pub use common::file_bytes;
pub use common::get_projectdir;
pub use common::gunzip_of;
pub use common::spec_is_absolute;
pub use common::spec_range_len;
pub use dir::Dir;
pub use engine::Fault;
pub use engine::blocks_atomic_save;
pub use engine::lemma_gzip_round_trip;
pub use engine::lemma_rm_tmp_idempotent;
pub use engine::spec_rm_tmp;
pub use entity::Entity;
pub use entity::bad_edge_char;
pub use entity::canonical_name;
pub use entity::edges_ok;
pub use entity::forbidden_char;
pub use entity::gzip_name;
pub use entity::gzip_tmp_name;
pub use entity::rel_dir;
pub use entity::separator_char;
pub use entity::spec_validate;
pub use entity::subs_total_len;
pub use entity::symbols_ok;
pub use entity::tmp_name;
pub use entity::validate_parts;
pub use error::ConfigError;
pub use error::DiskError;
pub use error::FrameError;
pub use fs_model::DiskState;
pub use fs_model::Sibling;
pub use fs_model::opt_view;
pub use header::Frame;
pub use header::from_versions;
pub use header::lemma_frame_mutation;
pub use header::lemma_frame_round_trip;
pub use header::lemma_frame_too_short;
pub use header::spec_from_versions;
pub use metadata::Metadata;
pub use metadata::spec_decimal;
pub use metadata::spec_digit;
