[package]
name = "plinth_plugin"
version = "0.1.0"
edition = "2021"
publish = false

[dependencies]
clap-sys = "=0.5.0"
vst3 = "=0.3.0"
keyboard-types = "=0.8.3"
widestring = "=1.2.1"
rtrb = "=0.4.1"
thiserror = "=2.0.21"
log = "=0.4.35"
raw-window-handle = "=0.6.2"
num-traits = "=0.2.19"
num-derive = "=0.5.1"
