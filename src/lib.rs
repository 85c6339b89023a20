//! Control of the user LEDs of a BeagleBone through the files that the LED
//! class driver exposes under sysfs.
//!
//! The library decides what is written where and reads the driver's reports;
//! performing the file operations is left to the caller, which carries out a
//! plan of writes through [`run::WriteRun`].
pub mod decimal;
pub mod led;
pub mod report;
pub mod run;
