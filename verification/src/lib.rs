//! Market-data feed handler core: dispatch/ordering engine and per-instrument
//! order-book reconstruction, with exchange message codecs.

pub mod atomic_utils;
pub mod book;
pub mod bse;
pub mod bse_worker;
pub mod bytesio;
pub mod constants;
pub mod depth_output;
pub mod dispatch;
pub mod distributor;
pub mod fp;
pub mod maps;
pub mod mcx_worker;
pub mod ncd;
pub mod neq;
pub mod nfo;
pub mod nse_worker;
pub mod outputs;
pub mod packet;
pub mod queues;
pub mod settings;
pub mod statistics;
pub mod threadpool;
pub mod time_utils;
pub mod work;
