use vstd::prelude::*;
use vstd::string::StringExecFns;

verus! {

/// Whether the market maker is trading.
#[derive(Debug, Clone, Copy, PartialEq, Eq, Structural)]
pub enum TradingState {
    /// Trading is running.
    Running,
    /// Trading is stopped.
    Stopped,
    /// Trading is paused; resting orders stay on the book.
    Paused,
}

/// The lowercase name the API reports for a trading state.
pub open spec fn trading_state_name(state: TradingState) -> Seq<char> {
    match state {
        TradingState::Running => "running"@,
        TradingState::Stopped => "stopped"@,
        TradingState::Paused => "paused"@,
    }
}

impl TradingState {
    /// The lowercase name of the state: `running`, `stopped` or `paused`.
    pub fn to_string(&self) -> (name: String)
        ensures
            name@ == trading_state_name(*self),
    {
        match self {
            TradingState::Running => String::from_str("running"),
            TradingState::Stopped => String::from_str("stopped"),
            TradingState::Paused => String::from_str("paused"),
        }
    }

    /// Whether trading is running.
    pub fn is_running(&self) -> (running: bool)
        ensures
            running == (*self == TradingState::Running),
    {
        *self == TradingState::Running
    }
}

} // verus!
