//! One module per Pie type former: its terms' evaluation and elaboration,
//! its eliminators on values and its read-back.
pub mod absurd;
pub mod annotation;
pub mod atom;
pub mod cores;
pub mod either;
pub mod equality;
pub mod functions;
pub mod lists;
pub mod natural;
pub mod pairs;
pub mod reference;
pub mod todo;
pub mod values;
pub mod vectors;
