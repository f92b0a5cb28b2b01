//! Admission control, scheduling and lease bookkeeping for edge inference
//! workloads, with the decisions stated and proved in Verus.

pub mod admission;
pub mod change_detection;
pub mod control;
pub mod deployment;
pub mod frames;
pub mod hitl;
pub mod ingestion;
pub mod leases;
pub mod model_backend;
pub mod observability;
pub mod optimization;
pub mod profiles;
pub mod scan;
pub mod scheduler;
pub mod state_machine;
pub mod stats;
pub mod stress;
pub mod telemetry;
pub mod text;
pub mod types;
pub mod vlm;
pub mod workloads;

pub use admission::{AdmissionGates, AdmissionPolicy};
pub use deployment::{CommandOutcome, DeploymentCommand, JetsonHardeningConfig, JetsonHardeningPlan};
pub use leases::{GpuLease, GpuLeaseManager, Uuid};
pub use model_backend::RealModelBackend;
pub use observability::{default_csv_path, default_jsonl_path, ObservationStage};
pub use optimization::{percentile_u64, OptimizationRecommendation, OptimizationSignals};
pub use profiles::ExecutionProfile;
pub use scheduler::TaskScheduler;
pub use state_machine::{StateGates, StatePolicy};
pub use telemetry::TelemetrySource;
pub use types::{Decision, DecisionStatus, SchedulerState, TaskPriority, TaskRequest, TaskType};
pub use vlm::{VlmGateDecision, VlmGateReason, VlmGates, VlmModelLimits, VlmRuntimeMetadata};
