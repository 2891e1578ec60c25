[package]
name = "spss_sav"
version = "0.1.0"
edition = "2021"
publish = false

[dependencies]
encoding_rs = "=0.8.44"
ibm_hfp = "=0.1.0"
vax-floating = "*"
