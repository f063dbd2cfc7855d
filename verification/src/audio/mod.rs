pub mod analysis;
pub mod capture;
pub mod mixer;
