[package]
name = "sensor_drivers"
version = "0.1.0"
edition = "2021"
publish = false

[dependencies]
embedded-hal = "1.0.0"
embedded-hal-async = "1.0.0"
nb = "1.1.0"
serde = { version = "1", default-features = false, features = ["derive"] }
heapless = "0.8"
glam = { version = "*", default-features = false, features = ["libm"] }
bytemuck = "1"
embassy-time = "*"
embassy-sync = "*"
embassy-executor = "*"
embassy-embedded-hal = "*"
embedded-graphics = "*"
ssd1306 = "*"
icm426xx = "*"
static_cell = "*"
defmt = "*"
