//! Argument validation for preparing game videos with the RADVideo encoder.
//!
//! The library resolves the encoder folder, checks that the encoder is
//! present, derives the output path and maps each supported game to the
//! resolution its video player expects. The caller supplies how the input
//! file is opened, and may supply how executables are looked up; reporting
//! diagnostics is left to it.
pub mod game;
pub mod paths;
pub mod validate;

pub use game::GameFormat;
pub use validate::{
    check_encoder_in_folder, encoder_path_in, precheck, precheck_with, resolve_encoder_folder,
    resolve_output_path, LaunchRequest, ResolvedConfiguration, ValidationError,
    ENCODER_EXECUTABLE, OUTPUT_EXTENSION,
};
