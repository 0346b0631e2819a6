[package]
name = "becbot"
version = "0.1.0"
edition = "2021"
publish = false

[dependencies]
rustrict = "=0.7.39"
rand = "=0.8.8"
chrono = "=0.4.45"
chrono-tz = "=0.8.6"
Inflector = "=0.11.4"
poise = "=0.5.7"
tokio = { version = "1", features = ["macros", "rt-multi-thread", "signal", "time", "fs"] }
diesel = { version = "=1.4.8", features = ["sqlite", "chrono", "r2d2"] }
r2d2 = "0.8"
dotenv = "0.15"
log = "0.4"
simple_logger = "*"
lazy_static = "1"
regex = "1"
image = "0.24"
imageproc = "=0.23.1"
leptess = "*"
libsqlite3-sys = { version = "*", features = ["bundled"] }
