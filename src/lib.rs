//! Exact world-position arithmetic over a grid of square rooms: conversion
//! between room-local and world coordinates, offsets by vectors and compass
//! directions, and distance queries.
pub mod direction;
pub mod part;
pub mod position;
pub mod room;
