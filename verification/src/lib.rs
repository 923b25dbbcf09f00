//! Decision logic of a native media player that draws an audio spectrum over
//! its video.

pub mod analyser;
pub mod analyser_laws;
pub mod application;
pub mod application_laws;
pub mod control_laws;
pub mod controls;
pub mod geometry;
pub mod label_laws;
pub mod labels;
pub mod media;
pub mod media_laws;
pub mod renderer;
pub mod renderer_laws;
pub mod setting_laws;
pub mod settings;
pub mod text;
pub mod text_laws;
pub mod uri;
pub mod wayland_drop;
