[package]
name = "dattorro_reverb"
version = "0.1.0"
edition = "2021"
publish = false

[dependencies]
vst = "=0.3.0"
glicol_synth = "=0.13.5"
petgraph = "=0.6.5"
log = "=0.4.35"
simplelog = "=0.12.2"
log-panics = "=2.1.0"
dirs = "=7.0.0"
egui = "=0.37.0"
raw-window-handle = "=0.6.2"
baseview = "=0.4.2"
egui-baseview = "=0.9.0"
