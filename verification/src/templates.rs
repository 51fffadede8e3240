pub mod grid_tables;
pub mod latlon_template;
pub mod horizontal_analysis_template;
pub mod lambert_conformal_template;
pub mod product;
pub mod simple_packing_template;
