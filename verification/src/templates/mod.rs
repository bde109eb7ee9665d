//! Template readers: the numbered sub-formats for the variable bodies of the
//! grid definition, product definition, data representation and data
//! sections.

pub mod data;
pub mod data_representation;
pub mod grid_definition;
pub mod product_definition;

pub use data::read_data_7_200;
pub use data_representation::DataRepresentationTemplate5_200;
pub use grid_definition::GridDefinitionTemplate3_0;
pub use product_definition::ProductDefinitionTemplate4_0;
pub use product_definition::ProductDefinitionTemplate4_8;
pub use product_definition::ProductDefinitionTemplate8TimeRange;
