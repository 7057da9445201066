//! A typed, verified model of a hydraulic / water-quality network simulation
//! engine: rule-based controls, simple controls, and the staged stepping
//! state machines that drive hydraulic and quality analyses in lockstep.

pub mod access;
pub mod controls;
pub mod deletion;
pub mod enums;
pub mod errors;
pub mod eval;
pub mod grammar;
pub mod hydraulics;
pub mod keywords;
pub mod laws;
pub mod model;
pub mod parse;
pub mod quality;
pub mod rules;
pub mod seq_mask;
pub mod tokens;
pub mod values;

pub use enums::ActionCodeType;
pub use enums::ControlType;
pub use enums::CountType;
pub use enums::InitHydOption;
pub use enums::LinkProperty;
pub use enums::LinkStatusType;
pub use enums::LinkType;
pub use enums::LogicalOperator;
pub use enums::NodeProperty;
pub use enums::NodeType;
pub use enums::RuleObject;
pub use enums::RuleOperator;
pub use enums::RuleStatus;
pub use enums::RuleVariable;
pub use enums::TimeParameter;
pub use errors::EPANETError;
pub use errors::ErrorKind;
pub use errors::check_error;
pub use errors::check_error_with_context;
pub use model::ActionClause;
pub use model::Control;
pub use model::EPANET;
pub use model::Premise;
pub use model::Rule;
pub use model::SolverState;
