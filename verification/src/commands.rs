//! What the commands decide, change and print.

pub mod apply;
pub mod attest;
pub mod audit;
pub mod capabilities;
pub mod cluster;
pub mod common;
pub mod doctor;
pub mod explain;
pub mod identity;
pub mod init;
pub mod key;
pub mod log;
pub mod measure;
pub mod nv;
pub mod object;
pub mod pcr;
pub mod policy;
pub mod recover;
pub mod repair;
pub mod secret;
pub mod simulator;
pub mod status;
pub mod template;
pub mod vtpm;
pub mod workspace;
