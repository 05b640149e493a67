//! The parts that every request handler leans on.

pub mod db;
