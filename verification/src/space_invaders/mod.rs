pub mod console;
pub mod external_shift;
pub mod io_devices;
pub mod screen;
pub mod sounds;
