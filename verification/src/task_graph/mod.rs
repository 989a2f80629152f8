//! The content that the dashboard draws.

pub mod task_dag;
