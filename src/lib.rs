//! Conversion of a subset of SVG into Android vector-drawable XML, with the
//! path-data grammar, dimension rules, attribute mapping and color table
//! verified against their contracts.

pub mod cleanup_renderer;
pub mod cleanup_view;
pub mod color;
pub mod config;
pub mod config_renderer;
pub mod config_view;
pub mod dimensions;
pub mod document;
pub mod element;
pub mod entrypoint;
pub mod markup;
pub mod error;
pub mod fetching_view;
pub mod figma;
pub mod gathering_view;
pub mod icons_renderer;
pub mod icons_view;
pub mod images_renderer;
pub mod images_view;
pub mod number;
pub mod path_data;
pub mod path_node;
pub mod renderer;
pub mod res_name;
pub mod resources;
pub mod suffixes;
pub mod text;
