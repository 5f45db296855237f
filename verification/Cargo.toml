[package]
name = "mmtk_ghc"
version = "0.1.0"
edition = "2021"
publish = false
