//! Verified bookkeeping core of a two-dimensional rigid-body engine for boxes:
//! contact feature identifiers, body-pair keys, the combinatorics of box-box
//! clipping, manifold matching across steps, and broad-phase scheduling.

pub mod collision;
pub mod dynamics;
