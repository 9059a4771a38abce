//! Session layer of a virtual tabletop: the board of one room, the hub that
//! admits clients and fans commands out to them, the registry of rooms with
//! its idle sweep, and the handshake each connection goes through. Beside
//! them stand the rules by which the service reads its settings, the records
//! of its directory and the outcomes of its web calls.

pub mod config;
pub mod counter;
pub mod db;
pub mod game;
pub mod json;
pub mod text;
pub mod web;
