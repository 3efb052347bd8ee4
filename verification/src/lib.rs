//! Verified core of the guise UI style system.
pub mod coerce;
pub mod apply_laws;
pub mod asset_path;
pub mod attr;
pub mod attr_laws;
pub mod error;
pub mod expr_apply_laws;
pub mod instancing;
pub mod keywords;
pub mod number;
pub mod partial;
pub mod reconcile;
pub mod pattern;
pub mod rect_laws;
pub mod render_output;
pub mod selector;
pub mod selector_laws;
pub mod selectors_map;
pub mod style;
pub mod style_attr;
pub mod style_attr_laws;
pub mod style_expr;
pub mod template;
pub mod text;
pub mod untyped;
pub mod update;
pub mod untyped_laws;
pub mod values;
pub mod vars_map;
pub mod xml;
