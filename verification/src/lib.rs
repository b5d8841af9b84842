//! Domain logic of the KuRec recording system: mirakc version checks,
//! EPG program conversion, mirakc event dispatch and worker decisions.

pub mod epg;
pub mod epg_process;
pub mod epg_updater;
pub mod error_handling;
pub mod events;
pub mod genre;
pub mod handlers;
pub mod mirakc_dispatch;
pub mod outside;
pub mod program;
pub mod records;
pub mod streams;
pub mod text;
pub mod usecases;
pub mod version;
pub mod worker;
