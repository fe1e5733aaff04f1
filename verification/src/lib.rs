pub mod texto;
pub mod hash;
pub mod audit;
pub mod error;
pub mod facturae;
pub mod commands;
pub mod qr;
pub mod pdf;
pub mod auth;
pub mod keychain;
pub mod db;
pub mod aeat;
pub mod xades;
