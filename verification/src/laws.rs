//! Laws of the language: how evaluation computes, what elaboration
//! produces, how names are chosen, and α-equivalence.
pub mod evaluation;
pub mod elaboration;
pub mod names;
pub mod alpha;
pub mod normal_forms;
pub mod fuel;
pub mod printing;
