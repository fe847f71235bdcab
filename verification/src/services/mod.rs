pub mod audit_service;
pub mod storage;
