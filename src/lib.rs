//! Rendering and motion core of an animated face: clipped sprite buffers,
//! procedural eye and mouth sprites, face layout, a blink sequencer and a
//! bounded servo duty generator.
pub mod geometry;
pub mod sprite;
pub mod raster;
pub mod face;
pub mod sequencer;
pub mod motion;
