pub mod bitmap;
pub mod data_representation;
pub mod grid_definition;
pub mod identification;
pub mod indicator;
pub mod product_definition;
pub mod section;
