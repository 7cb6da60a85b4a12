// Decision logic of a USB HID token service: which hardware core is attached,
// who owns the FIDO channel, and what each poll of the bus leads to.
pub mod compat;
pub mod core_select;
pub mod fido;
pub mod fido_laws;
pub mod keyboard;
pub mod service;
pub mod service_laws;
