[package]
name = "component_name_casing"
version = "0.1.0"
edition = "2021"
publish = false

[dependencies]
oxc_ast = "0.86"
oxc_diagnostics = "0.86"
oxc_span = "0.86"
serde_json = "1"

[dev-dependencies]
oxc_allocator = "0.86"
oxc_parser = "0.86"
oxc_ast_visit = "0.86"
