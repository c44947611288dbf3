[package]
name = "egui_enum_plot"
version = "0.1.0"
edition = "2021"
publish = false

[dependencies]
egui = "*"
egui_plot = "*"
