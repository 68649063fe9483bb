//! Models, usage and the options of a model call that are plain values.

use crate::text::same_text;
use vstd::prelude::*;

verus! {

/// Why a model stopped producing a message.
#[derive(Debug, Clone, Copy, PartialEq, Eq, Structural)]
#[non_exhaustive]
pub enum StopReason {
    Stop,
    Length,
    ToolUse,
    Error,
    Aborted,
}

/// A double-precision number, carried by its IEEE 754 bit pattern: the library hands such
/// numbers on and never computes with them. The pattern of zero is 0.
#[derive(Debug, Clone, Copy, PartialEq, Eq, Structural)]
pub struct DoubleBits {
    pub bits: u64,
}

/// What the tokens of a message cost.
#[derive(Debug, Clone, Copy, PartialEq, Eq, Structural)]
pub struct Cost {
    pub input: DoubleBits,
    pub output: DoubleBits,
    pub cache_read: DoubleBits,
    pub cache_write: DoubleBits,
    pub total: DoubleBits,
}

/// The tokens that went into a message.
#[derive(Debug, Clone, Copy, PartialEq, Eq, Structural)]
pub struct Usage {
    pub input: u64,
    pub output: u64,
    pub cache_read: u64,
    pub cache_write: u64,
    pub total_tokens: u64,
    pub cost: Cost,
}

/// How a model's reply is transported.
#[derive(Debug, Clone, Copy, PartialEq, Eq, Structural)]
#[non_exhaustive]
pub enum Transport {
    Sse,
    Ws,
}

/// The prices of a model.
#[derive(Debug, Clone, Copy, PartialEq, Eq, Structural)]
pub struct ModelCost {
    pub input: DoubleBits,
    pub output: DoubleBits,
    pub cache_read: DoubleBits,
    pub cache_write: DoubleBits,
}

/// A language model and where it is served.
#[derive(Debug)]
pub struct Model {
    pub id: String,
    pub name: String,
    pub api: String,
    pub provider: String,
    pub base_url: String,
    pub reasoning: bool,
    pub input: Vec<String>,
    pub cost: ModelCost,
    pub context_window: u64,
    pub max_tokens: u64,
}

/// Thinking/reasoning level for models that support it.
#[derive(Debug, Clone, Copy, PartialEq, Eq, Structural)]
#[non_exhaustive]
pub enum ThinkingLevel {
    Off,
    Minimal,
    Low,
    Medium,
    High,
    XHigh,
}

/// Per-level thinking token budgets.
#[derive(Debug, Clone, Copy, PartialEq, Eq)]
pub struct ThinkingBudgets {
    pub minimal: Option<u64>,
    pub low: Option<u64>,
    pub medium: Option<u64>,
    pub high: Option<u64>,
    pub xhigh: Option<u64>,
}

#[verifier::ext_equal]
pub struct ModelView {
    pub id: Seq<char>,
    pub name: Seq<char>,
    pub api: Seq<char>,
    pub provider: Seq<char>,
    pub base_url: Seq<char>,
    pub reasoning: bool,
    pub input: Seq<Seq<char>>,
    pub cost: ModelCost,
    pub context_window: u64,
    pub max_tokens: u64,
}

impl DeepView for Model {
    type V = ModelView;

    open spec fn deep_view(&self) -> ModelView {
        ModelView {
            id: self.id@,
            name: self.name@,
            api: self.api@,
            provider: self.provider@,
            base_url: self.base_url@,
            reasoning: self.reasoning,
            input: self.input.deep_view(),
            cost: self.cost,
            context_window: self.context_window,
            max_tokens: self.max_tokens,
        }
    }
}

impl Clone for Model {
    fn clone(&self) -> (copy: Self)
        ensures
            copy.deep_view() == self.deep_view(),
    {
        Model {
            id: self.id.clone(),
            name: self.name.clone(),
            api: self.api.clone(),
            provider: self.provider.clone(),
            base_url: self.base_url.clone(),
            reasoning: self.reasoning,
            input: self.input.clone(),
            cost: self.cost,
            context_window: self.context_window,
            max_tokens: self.max_tokens,
        }
    }
}

impl DoubleBits {
    /// The number zero.
    pub open spec fn zero() -> DoubleBits {
        DoubleBits { bits: 0 }
    }
}

impl Cost {
    pub open spec fn zero() -> Cost {
        Cost {
            input: DoubleBits::zero(),
            output: DoubleBits::zero(),
            cache_read: DoubleBits::zero(),
            cache_write: DoubleBits::zero(),
            total: DoubleBits::zero(),
        }
    }
}

impl Usage {
    pub open spec fn zero() -> Usage {
        Usage {
            input: 0,
            output: 0,
            cache_read: 0,
            cache_write: 0,
            total_tokens: 0,
            cost: Cost::zero(),
        }
    }
}

impl ModelCost {
    pub open spec fn zero() -> ModelCost {
        ModelCost {
            input: DoubleBits::zero(),
            output: DoubleBits::zero(),
            cache_read: DoubleBits::zero(),
            cache_write: DoubleBits::zero(),
        }
    }
}

impl Default for DoubleBits {
    fn default() -> (zero: Self)
        ensures
            zero == DoubleBits::zero(),
    {
        DoubleBits { bits: 0 }
    }
}

impl Default for Cost {
    fn default() -> (zero: Self)
        ensures
            zero == Cost::zero(),
    {
        Cost {
            input: DoubleBits::default(),
            output: DoubleBits::default(),
            cache_read: DoubleBits::default(),
            cache_write: DoubleBits::default(),
            total: DoubleBits::default(),
        }
    }
}

impl Default for Usage {
    fn default() -> (zero: Self)
        ensures
            zero == Usage::zero(),
    {
        Usage {
            input: 0,
            output: 0,
            cache_read: 0,
            cache_write: 0,
            total_tokens: 0,
            cost: Cost::default(),
        }
    }
}

impl Default for ModelCost {
    fn default() -> (zero: Self)
        ensures
            zero == ModelCost::zero(),
    {
        ModelCost {
            input: DoubleBits::default(),
            output: DoubleBits::default(),
            cache_read: DoubleBits::default(),
            cache_write: DoubleBits::default(),
        }
    }
}

impl Default for Transport {
    fn default() -> (transport: Self)
        ensures
            transport == Transport::Sse,
    {
        Transport::Sse
    }
}

impl Default for ThinkingLevel {
    fn default() -> (level: Self)
        ensures
            level == ThinkingLevel::Off,
    {
        ThinkingLevel::Off
    }
}

impl Default for ThinkingBudgets {
    fn default() -> (budgets: Self)
        ensures
            budgets == (ThinkingBudgets {
                minimal: None,
                low: None,
                medium: None,
                high: None,
                xhigh: None,
            }),
    {
        ThinkingBudgets { minimal: None, low: None, medium: None, high: None, xhigh: None }
    }
}

impl Model {
    /// The model of an agent that was given none.
    pub open spec fn unknown() -> ModelView {
        ModelView {
            id: "unknown"@,
            name: "unknown"@,
            api: "unknown"@,
            provider: "unknown"@,
            base_url: Seq::empty(),
            reasoning: false,
            input: Seq::empty(),
            cost: ModelCost::zero(),
            context_window: 0,
            max_tokens: 0,
        }
    }
}

impl Default for Model {
    fn default() -> (model: Self)
        ensures
            model.deep_view() == Model::unknown(),
    {
        Model {
            id: "unknown".to_owned(),
            name: "unknown".to_owned(),
            api: "unknown".to_owned(),
            provider: "unknown".to_owned(),
            base_url: String::new(),
            reasoning: false,
            input: Vec::new(),
            cost: ModelCost::default(),
            context_window: 0,
            max_tokens: 0,
        }
    }
}

impl StopReason {
    /// The name of a stop reason on the wire.
    pub open spec fn wire_name(self) -> Seq<char> {
        match self {
            StopReason::Stop => "stop"@,
            StopReason::Length => "length"@,
            StopReason::ToolUse => "toolUse"@,
            StopReason::Error => "error"@,
            StopReason::Aborted => "aborted"@,
        }
    }

    /// The name that stands for this stop reason on the wire.
    pub fn as_str(&self) -> (name: &'static str)
        ensures
            name@ == self.wire_name(),
    {
        match self {
            StopReason::Stop => "stop",
            StopReason::Length => "length",
            StopReason::ToolUse => "toolUse",
            StopReason::Error => "error",
            StopReason::Aborted => "aborted",
        }
    }

    /// The stop reason that a name stands for on the wire, if it stands for one.
    pub fn from_wire(name: &str) -> (reason: Option<StopReason>)
        ensures
            match reason {
                Some(r) => r.wire_name() == name@,
                None => forall|r: StopReason| r.wire_name() != name@,
            },
    {
        if same_text(name, "stop") {
            Some(StopReason::Stop)
        } else if same_text(name, "length") {
            Some(StopReason::Length)
        } else if same_text(name, "toolUse") {
            Some(StopReason::ToolUse)
        } else if same_text(name, "error") {
            Some(StopReason::Error)
        } else if same_text(name, "aborted") {
            Some(StopReason::Aborted)
        } else {
            None
        }
    }
}

} // verus!
