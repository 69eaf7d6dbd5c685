//! Physical memory: addresses and the layout of the kernel heap.
pub mod address;
pub mod config;
