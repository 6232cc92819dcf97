//! A Monte Carlo study of the Monty Hall puzzle: one verified trial
//! simulator and a parallel aggregator that counts wins under the two
//! strategies (keep the first pick, or switch after the host's reveal).

pub mod aggregate;
pub mod trial;
