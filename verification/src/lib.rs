//! Pads raster images onto a fixed-size white canvas.
//!
//! Each source image is classified as landscape or portrait, scaled to fit the
//! interior that the border ratios of its orientation leave on the canvas,
//! centred on a solid white canvas of the target size and encoded again as
//! PNG or JPEG.  A batch of such runs is tallied in a [`summary::Summary`].

pub mod config;
pub mod error;
pub mod geometry;
pub mod raster;
pub mod canvas;
pub mod codec;
pub mod naming;
pub mod pipeline;
pub mod summary;
pub mod batch;
