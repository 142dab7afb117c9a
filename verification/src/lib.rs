//! A typed model of chart configurations and of the document they are
//! written to.
//!
//! A chart is assembled from records whose fields are all optional. A record
//! is written as an object that holds a member for each field that is set and
//! nothing for a field that is not, in the order of the record's schema. The
//! contracts state this over a view of each type and over the text of the
//! document.

pub mod std_support;
pub mod text;
pub mod number;
pub mod literal;
pub mod json;
pub mod record;
pub mod element;
pub mod datatype;
pub mod series;
pub mod component;
pub mod chart;
