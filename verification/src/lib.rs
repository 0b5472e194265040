//! A real-time simulation runtime core: a coordinator state machine that
//! drives a fixed set of worker threads through lock-step frames, with
//! optional soft-real-time pacing, plus the interface-description helpers
//! used to generate model adapter code.

mod barrier;
mod context;
mod coordinator;
mod engine;
mod generation;
mod idl;
mod messages;
mod parser;
mod predefined;
mod rmodel;
mod state;
mod threadcontext;
mod worker;

pub use barrier::BarrierState;
pub use barrier::arrivals;
pub use barrier::barrier_state;
pub use barrier::check_trace;
pub use barrier::valid_trace;
pub use context::Context;
pub use context::ContextView;
pub use context::GenericType;
pub use context::GenericTypeView;
pub use context::Port;
pub use context::PortView;
pub use context::RsisGenType;
pub use context::RsisStruct;
pub use context::RsisStructView;
pub use coordinator::CoordView;
pub use coordinator::Coordinator;
pub use coordinator::all_initialized;
pub use coordinator::spec_coord_on_command;
pub use coordinator::spec_coord_on_result;
pub use coordinator::spec_coord_on_terminated;
pub use engine::Engine;
pub use generation::cpp_dimstr;
pub use generation::generics_deserialize;
pub use generation::generics_join;
pub use generation::i64_to_string;
pub use generation::join_string;
pub use generation::rust_dimstr;
pub use generation::rust_to_cpp_type;
pub use generation::str_eq;
pub use generation::supported_template;
pub use generation::template_output_name;
pub use generation::u64_to_string;
pub use idl::IdlTable;
pub use idl::IdlValue;
pub use idl::ValueType;
pub use idl::assoc_lookup;
pub use idl::get_type_format;
pub use idl::names_contain;
pub use idl::parse_dimensions;
pub use idl::parse_generic;
pub use idl::text_items;
pub use idl::validate_default;
pub use idl::validate_value;
pub use messages::ThreadCommand;
pub use messages::ThreadResult;
pub use parser::names_insert;
pub use parser::parse_field;
pub use parser::parse_idl;
pub use parser::parse_struct;
pub use predefined::add_predefined_structures;
pub use rmodel::ConfigStatus;
pub use rmodel::RFrameWork;
pub use rmodel::RModel;
pub use rmodel::RunStatus;
pub use state::EngineState;
pub use threadcontext::ThreadContext;
pub use threadcontext::ThreadTime;
pub use worker::FrameActions;
pub use worker::WorkerDirective;
pub use worker::WorkerMachine;
pub use worker::WorkerPhase;
pub use worker::frame_response;
pub use worker::init_response;
pub use worker::pacing_sleep_ns;
