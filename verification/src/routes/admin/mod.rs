pub mod dashboard;
