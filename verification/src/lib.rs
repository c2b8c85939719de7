//! Font trait and descriptor logic for Core Text fonts: the symbolic trait
//! bits, the stylistic class of a font, and the string attributes that a
//! font descriptor carries.

pub mod symbolic;
pub mod stylistic;
pub mod descriptor;
pub mod font_traits;
