[package]
name = "djinn"
version = "0.1.0"
edition = "2021"
publish = false

[dependencies]
clap = { version = "4", features = ["derive"] }
color-eyre = "0.6"
convert_case = "0.6"
crossterm = { version = "0.28", features = ["event-stream"] }
futures = "0.3"
itertools = "0.13"
num-traits = "0.2"
pyo3 = { version = "0.22", features = ["auto-initialize"] }
ratatui = { version = "0.29", features = ["unstable-widget-ref"] }
serde = { version = "1", features = ["derive"] }
shakmaty = "0.27"
strum = { version = "0.26", features = ["derive"] }
tokio = { version = "1", features = ["full"] }
tracing = "0.1"
tui-textarea = "0.7"
tui-widgets = "0.4"
