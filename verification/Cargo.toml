[package]
name = "lcd_heartbeat"
version = "0.1.0"
edition = "2021"
publish = false

[dependencies]
ag-lcd = { version = "=0.3.0", features = ["i2c"] }
embassy-executor = "=0.9.1"
embassy-time = "=0.5.1"
embassy-usb-logger = "=0.6.0"
log = "=0.4.34"
panic-halt = "=1.0.0"
port-expander = "=0.6.5"
