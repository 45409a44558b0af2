//! The models behind the greeter's widgets: what each of them holds, and how
//! it answers a message.  Drawing the widgets is left to the front-end.
pub mod component;
