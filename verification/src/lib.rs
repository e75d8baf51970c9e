//! Hexagonal cells on top of an ordered member store.
//!
//! A point of the globe lies in one cell at each of sixteen resolutions, and
//! a cell is a 64-bit index whose bits name the coarser cells that hold it.
//! A store that keeps members ordered by a numeric score can therefore
//! answer "which members lie in this cell" with one range query, as long as
//! the score of a member is made from the index of its finest cell. This
//! library holds what that takes:
//!
//! - [`index`]: the bit layout of an index and the two finest cells that
//!   bound a cell;
//! - [`score`]: the codec between an index and its score;
//! - [`bounds`]: the proofs that the scores between the two bounds of a cell
//!   are the scores of the leaves of the cell, and of no other leaf;
//! - [`members`], [`scan`], [`scores`]: the calls to the store for the
//!   members of a cell and the replies handed on, with scores turned back
//!   into cells;
//! - [`add`], [`cell`], [`position`], [`remove`], [`command`]: the commands,
//!   from their arguments to the calls they make;
//! - [`lookup`], [`unit`], [`text`], [`store`], [`error`], [`outcome`]: what
//!   the commands are written in.
//!
//! The library talks to nothing. It builds each call to the store as a
//! value and reads each reply as a value; making the call is left to the
//! caller. The same holds for the geospatial indexing library, which alone
//! knows which indices are cells that exist and where they lie: its answers
//! are arguments of the functions here.
//!
//! The store holds a score as a double-precision number. Every score made
//! here is a whole number below 2^52, which such a number holds exactly, and
//! the library works on that whole number.

pub mod add;
pub mod bounds;
pub mod cell;
pub mod command;
pub mod error;
pub mod index;
pub mod lookup;
pub mod members;
pub mod outcome;
pub mod position;
pub mod remove;
pub mod scan;
pub mod score;
pub mod scores;
pub mod store;
pub mod text;
pub mod unit;
