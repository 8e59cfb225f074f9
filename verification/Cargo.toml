[package]
name = "sugarloaf"
version = "0.1.0"
edition = "2021"
publish = false

[dependencies]
swash = "0.1"
ab_glyph = "0.2"
unicode-width = "0.1"
fnv = "1"
log = "0.4"
memmap2 = "0.9"
twox-hash = "1"
futures = "0.3"
raw-window-handle = "0.6"
smol_str = "0.2"
