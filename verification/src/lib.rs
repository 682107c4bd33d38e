//! Verified core of the OBS auto-configurator: colour conversion, INI editing,
//! overlay rendering, scene-collection layout, licence-request planning and the
//! installer's decision logic.

pub mod color;
pub mod text;
pub mod ini;
pub mod overlay;
pub mod license;
pub mod system;
pub mod scene;
pub mod install;
