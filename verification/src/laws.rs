//! What holds of the passes as a whole, and of the values they work on, stated
//! over the same functions their contracts use.

pub mod agreement;
pub mod asking;
pub mod calls;
pub mod closures;
pub mod control;
pub mod demands;
pub mod expressions;
pub mod fields;
pub mod files;
pub mod folding;
pub mod generics;
pub mod items;
pub mod lowering;
pub mod matching;
pub mod methods;
pub mod names;
pub mod naming;
pub mod obligations;
pub mod operations;
pub mod reaching;
pub mod reading;
pub mod scope;
pub mod selection;
pub mod settling;
pub mod supplying;
pub mod sweep;
pub mod types;
pub mod typing;
pub mod values;
