//! Identification of JetBrains IDE archives and the artifacts that integrate
//! an extracted IDE with a Linux desktop: launcher and icon paths, and the
//! desktop entry text.
//!
//! An archive name resolves, case-insensitively, to one product of a fixed
//! catalog by the first of its markers that occurs in it (`go`, `py`, `rust`,
//! `idea`, `ruby`, in that order). The build step then sets the product's
//! paths under the install root, and `generate_entry` renders its desktop entry.
use vstd::prelude::*;

mod entry;
mod installer;
mod products;
mod registry;
mod text;

pub use entry::{
    bin_dir, built, exec_path_for, icon_path_for, install_paths, lemma_build_idempotent,
    lemma_built_paths_consistent, paths_consistent, paths_unset, Buildable, Entry, EntryView,
    Readable, Writable, IDE,
};
pub use installer::{record_entry, Ide};
pub use products::{
    catalog_entry, fresh_entry, marker, Goland, Idea, Pycharm, RubyMine, RustRover,
};
pub use registry::{
    desktop_entry, detect_ide, detect_ide_lowercase, first_match, generate_entry,
    lemma_lone_marker_resolves, lemma_no_marker_unsupported, Product, UNSUPPORTED,
};
pub use text::{
    after_last_dash, contains_str, ends_in_separator, ends_with_separator, join, join_path,
    lower_of, occurs_at, occurs_in, version_of, version_suffix, without_separators,
};

verus! {

} // verus!
