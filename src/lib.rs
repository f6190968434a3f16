//! Kernel core of a heterogeneous multicore SoC: the interrupt controller,
//! core bring-up and inter-processor interrupts, heterogeneous task
//! placement, accelerator scheduling advice, and the bookkeeping of the
//! camera, accelerator and photo-library services built on them.
pub mod can_driver_rk;
pub mod gic500;
pub mod hmp_scheduler;
pub mod i2c_embedded_hal;
pub mod incremental_clustering;
pub mod integration;
pub mod metadata_index_sync;
pub mod mipi_csi_driver;
pub mod multicore;
pub mod npu_support;
pub mod rknn_model;
pub mod scenarios;
