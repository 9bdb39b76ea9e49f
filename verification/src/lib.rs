//! The frame pipeline of a renderer that draws the scene of an
//! entity-component engine through a render graph.
//!
//! The library holds the bookkeeping and the rules of a frame; the host holds
//! the engine, the device and the geometry. Per frame, the host creates the
//! views, asks which registered objects each view sees, turns the frame
//! packet over, declares and compiles the render graph, records and submits
//! the command buffers, and presents.
//!
//! - [`registry`] and [`mask`]: the render phases and features, their indices
//!   and the bitsets over them.
//! - [`visibility`]: the registry of visible objects and view frustums.
//! - [`view`] and [`frame_packet`]: the views of a frame, and what each sees.
//! - [`graph`], [`order`] and [`prepared_graph`]: declaring a render graph,
//!   ordering its passes, compiling it and recording it.
//! - [`pipeline_cache`], [`submit`] and [`shader`]: what the passes draw with.
//! - [`frame`]: the course of a frame as a state machine.
//! - [`plan`], [`frame_plugin`], [`mesh_plugin`] and [`rafx_plugin`]: composing
//!   the pipeline into an application.
//!
//! Numbers that the engine keeps in floating point (positions, matrices,
//! distances, colours) pass through the library as the bit patterns of single
//! precision numbers. The library stores them and hands them on, and never
//! computes with them.

pub mod sequence;
pub mod mask;
pub mod registry;
pub mod visibility;
pub mod view;
pub mod frame_packet;
pub mod graph;
pub mod order;
pub mod prepared_graph;
pub mod pipeline_cache;
pub mod submit;
pub mod shader;
pub mod frame;
pub mod plan;
pub mod frame_plugin;
pub mod mesh_plugin;
pub mod rafx_plugin;
