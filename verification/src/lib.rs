pub mod access;
pub mod capability;
pub mod complete;
pub mod flat;
pub mod lister;
pub mod memory;
pub mod path_util;
pub mod reader;
pub mod services;
pub mod types;
pub mod writer;
