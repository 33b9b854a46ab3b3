//! The positional state of a snake on an unbounded grid.
//!
//! A [`Snake`] is a head cell followed by an ordered tail of body cells. Its one
//! transition, [`Snake::walk`], advances the whole body by a single step in a
//! chosen [`Direction`]. Every contract is stated over the integer models
//! [`section::SectionView`] and [`snake::SnakeView`].

pub mod direction;
pub mod lemmas;
pub mod section;
pub mod snake;

pub use direction::Direction;
pub use section::BodySection;
pub use snake::Snake;
