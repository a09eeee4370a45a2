//! Domain engine of a terminal dashboard for a host's periodic-job schedule:
//! the schedule text codec, expression validation and projection, the job
//! list controller, the edit form and the action-dispatch runtime.

pub mod action;
pub mod components;
pub mod decimal;
pub mod draw;
pub mod runtime;
pub mod text;
