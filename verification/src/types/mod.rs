pub mod common;
pub mod db;
pub mod nrf;
pub mod nsselection;
pub mod nssaiavailability;
pub mod queries;
