//! GATT protocol layer of a BLE motion-controller peripheral: the telemetry frame
//! codec, the button byte, the per-subscriber notification session, the brain
//! channel and the service registry.
pub mod brain;
pub mod frame;
pub mod registry;
pub mod session;
