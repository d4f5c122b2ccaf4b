pub mod abort;
pub mod continue_merging;
pub mod manifest;
pub mod start;
pub mod state;
pub mod status;
pub mod version;
