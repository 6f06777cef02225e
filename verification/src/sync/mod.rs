pub mod normalize;
pub mod model;
pub mod matcher;
pub mod engine;
pub mod report;
pub mod preview;
pub mod run;
pub mod overlay;
