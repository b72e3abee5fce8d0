//! Typed decoding of the JSON netlists that the Yosys synthesis tool writes.
//!
//! A netlist is read in two steps. `json` hands the text to the JSON reader
//! and copies what it read into a `Json` document. `netlist` and `cell`
//! decode that document into a `YosysData`: modules, ports, nets and cells,
//! each cell with the parameters of its kind. A document that does not fit
//! fails with a `DecodeError`, which says where in the document and why.
//!
//! Every decoder states what it returns as a function of the document, and
//! `laws` proves what follows from that for every document.

pub mod json;
pub mod text;
pub mod error;
pub mod coerce;
pub mod types;
pub mod decode;
pub mod netlist;
pub mod cell;
pub mod laws;
pub mod command;
