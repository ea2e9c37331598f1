pub mod app;
pub mod digits;
pub mod nav;
pub mod pricing;
pub mod text;
pub mod ui;
