[package]
name = "gatt_characteristic"
version = "0.1.0"
edition = "2021"
publish = false

[dependencies]
log = "=0.4.34"
windows = { version = "=0.52.0", features = ["Devices_Bluetooth_GenericAttributeProfile", "Foundation", "Storage_Streams"] }
