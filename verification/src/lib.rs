//! Sans-I/O core of a driver for an Arcus stage controller and of the raster
//! scan that sweeps one axis of the stage.
//!
//! Nothing here touches a serial port or a clock.  The driver encodes commands,
//! decodes response lines byte by byte and interprets replies; the scan is a
//! state machine that says which driver operation or pause comes next.  A shell
//! performs the operations and reports what happened.

pub mod arcus_driver;
pub mod decimal;
pub mod error;
pub mod executor;
pub mod scan;
