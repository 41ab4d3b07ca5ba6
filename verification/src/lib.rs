pub mod assist;
pub mod calibration;
pub mod diagnostics;
pub mod dualsense;
pub mod generic_hid;
pub mod preferences;
pub mod runtime;
pub mod selection;
pub mod text;
pub mod x360;
pub mod xinput;
