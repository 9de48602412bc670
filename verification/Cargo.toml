[package]
name = "hir_display"
version = "0.1.0"
edition = "2021"
publish = false

[dependencies]
either = "=1.19.0"
ra_ap_hir_def = "=0.0.238"
ra_ap_hir_ty = "=0.0.238"
