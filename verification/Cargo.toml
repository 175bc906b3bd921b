[package]
name = "typed_polars"
version = "0.1.0"
edition = "2021"
publish = false

[dependencies]
polars = { version = "=0.46.0", default-features = false, features = ["lazy", "csv", "parquet", "dtype-i8", "dtype-i16", "dtype-u8", "dtype-u16"] }
polars-schema = { version = "=0.46.0", default-features = false }
