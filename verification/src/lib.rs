//! A minimal memory hand-off primitive: a byte buffer that one side builds
//! from bytes it owns, hands out as a single-use transfer token, lets the
//! other side read without copying, and finally consumes exactly once to take
//! the bytes -- and the duty to free their allocation -- back.

pub mod memory;
