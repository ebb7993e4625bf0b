//! The conversion interface: rule bases, results and parsing options.
pub mod subconverter;
