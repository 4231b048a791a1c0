//! Workspace assembly for a peripheral access layer built from
//! generator output: naming rules for new crates, library and manifest
//! content assembly, a directory-tree copier, manifest mutation, and the
//! per-module decisions of the import run.

pub mod canfd_ipp_ind_canrx_select_input;
pub mod content;
pub mod copier;
pub mod manifest;
pub mod names;
pub mod run;
pub mod usdhc2_data4_select_input;
