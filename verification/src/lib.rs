//! Spatial engine core: fixed-point geodesy, a spatial index over an R-tree,
//! LiDAR point-cloud processing, and proximity discovery.
//!
//! All geometry is carried in integer fixed-point units so that every rule of
//! the engine is stated and checked exactly:
//! latitudes and longitudes in microdegrees, altitudes and distances in
//! millimeters, Cartesian index coordinates in centimeters, and confidence
//! scores in thousandths (parts per thousand).

pub mod geo;
pub mod location;
pub mod spatial_index;
pub mod lidar;
pub mod proximity;
pub mod config;
pub mod services;
pub mod engine;

pub use engine::SpatialEngine;
pub use geo::haversine_distance;
