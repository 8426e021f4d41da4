//! What the widgets need to know and no toolkit has to tell them.

pub mod icon;
