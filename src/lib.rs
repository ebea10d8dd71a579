//! Discrete core of an RSI mean-reversion backtesting engine: the decisions,
//! queues and ledgers that drive the per-bar simulation, with their contracts.

pub mod engine;
pub mod execution;
pub mod ledger;
pub mod metrics;
pub mod signals;
pub mod types;

pub use engine::{plan_bar, simulated_bar_count, warmup_bars, BarAction, BarState};
pub use execution::{calculate_fill_quantity, FillNote, FillQuantity, OrderQueue, PendingOrder};
pub use ledger::{holding_days, Ledger, LedgerError};
pub use metrics::MetricsCalculator;
pub use signals::{decide, Decision, SignalInputs};
pub use types::{PositionSide, Side, SignalType};
