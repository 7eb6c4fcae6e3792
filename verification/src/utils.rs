//! Shared value types: geometry, layout constraints and edge insets.

pub mod constraints;
pub mod decimal;
pub mod edge_insets;
pub mod geometry;

pub use constraints::Constraints;
pub use edge_insets::EdgeInsets;
pub use geometry::Point;
pub use geometry::Rectangle;
pub use geometry::Rgb;
pub use geometry::Size;
