//! The verified core of a small calculator service.
//!
//! The service answers one unary call, `calculate`, which adds or subtracts
//! two operands, and it listens on a port that its environment may name.
//! This crate holds what the service decides: which arithmetic a request
//! asks for and when a request is rejected ([`calculator`], [`operation`]),
//! which port the service listens on ([`port`]), and how its start-up
//! proceeds and fails ([`bootstrap`]). Transport, the environment and the
//! arithmetic of the operands are left to the program that embeds the crate.

pub mod bootstrap;
pub mod calculator;
pub mod decimal;
pub mod operation;
pub mod port;

pub use bootstrap::{startup_line, Action, Event, Phase, StartupError};
pub use calculator::{
    BinaryOperation, CalculationResult, CalculatorImpl, InvalidArgument, INVALID_ARGUMENT,
};
pub use operation::Operation;
pub use port::{parse_port, resolve_port, PortError, DEFAULT_PORT, PORT_VARIABLE};
