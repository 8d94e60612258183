//! A looping ASCII sun above a house, for the terminal: the frames of the
//! animation, the controller that steps through them, where each line goes
//! on the screen, and the decisions taken at the end of each round of the
//! drawing loop.

pub mod animation;
pub mod display;
pub mod event_loop;
pub mod layout;
