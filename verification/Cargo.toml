[package]
name = "x86_vcpu"
version = "0.1.0"
edition = "2021"
publish = false

[dependencies]
raw-cpuid = "*"
x86 = "*"
axerrno = "*"
memory_addr = "*"
axvcpu = "*"
axaddrspace = "*"
