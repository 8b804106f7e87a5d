//! The machine protocol of `flutter daemon` and `flutter run --machine`.
pub mod device;
pub mod emulator;
pub mod event;
pub mod io;
pub mod request;
pub mod response;
pub mod run;
