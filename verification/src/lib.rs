//! Conway's Game of Life: the generation engine, the simulation registry and
//! the controllers built on them.

pub mod cell;
pub mod cell_map;
pub mod cell_set;
pub mod client;
pub mod clock;
pub mod commands;
pub mod components;
pub mod config;
pub mod console_input;
pub mod controller;
pub mod coords;
pub mod display;
pub mod engine;
pub mod grid;
pub mod grid_state;
pub mod ids;
pub mod input_handler;
pub mod life;
pub mod menu;
pub mod models;
pub mod patterns;
pub mod registry;
pub mod renderer;
pub mod resources;
pub mod rules;
pub mod service;
pub mod simulation;
pub mod stream;
pub mod systems;
pub mod text;
