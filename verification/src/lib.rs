//! Scoring-machine logic for a fencing piste: the shared match state, the
//! console command language, the Cyrano protocol server, the legacy scoring
//! box decoders and the display model.

pub mod match_info;
pub mod text;
pub mod chars;
pub mod modules;
pub mod cyrano_server;
pub mod console_backend;
pub mod legacy_backend;
pub mod rc5;
pub mod gpio;
pub mod slint_frontend;
