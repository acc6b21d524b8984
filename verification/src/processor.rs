//! The two payment processors and their addresses.

use vstd::prelude::*;

verus! {

pub const DEFAULT_BASE_URL: &'static str = "http://localhost:8001";

pub const FALLBACK_BASE_URL: &'static str = "http://localhost:8002";

pub const HEALTH_PATH: &'static str = "/payments/service-health";

pub const PROCESS_PATH: &'static str = "/payments/process";

/// A payment processor: the default one, or the one that stands in for it.
#[derive(Debug, Clone, Copy, PartialEq, Eq, Structural)]
pub enum Processor {
    Default,
    Fallback,
}

/// The address that every path of `processor` starts with.
pub open spec fn base_url(processor: Processor) -> Seq<char> {
    match processor {
        Processor::Default => DEFAULT_BASE_URL@,
        Processor::Fallback => FALLBACK_BASE_URL@,
    }
}

/// The processor that is not `processor`.
pub open spec fn other_processor(processor: Processor) -> Processor {
    match processor {
        Processor::Default => Processor::Fallback,
        Processor::Fallback => Processor::Default,
    }
}

impl Processor {
    /// The processor to turn to when this one has failed.
    pub fn other(&self) -> (other: Processor)
        ensures
            other == other_processor(*self),
    {
        match self {
            Processor::Default => Processor::Fallback,
            Processor::Fallback => Processor::Default,
        }
    }

    /// The path `path` on this processor.
    fn url(&self, path: &str) -> (url: String)
        ensures
            url@ == base_url(*self) + path@,
    {
        let base = match self {
            Processor::Default => DEFAULT_BASE_URL,
            Processor::Fallback => FALLBACK_BASE_URL,
        };
        base.to_owned().concat(path)
    }

    /// Where this processor reports its health.
    pub fn health_url(&self) -> (url: String)
        ensures
            url@ == base_url(*self) + HEALTH_PATH@,
    {
        self.url(HEALTH_PATH)
    }

    /// Where this processor takes payments.
    pub fn process_url(&self) -> (url: String)
        ensures
            url@ == base_url(*self) + PROCESS_PATH@,
    {
        self.url(PROCESS_PATH)
    }
}

/// The other processor of the other processor is the processor itself, and the two
/// differ.
pub proof fn law_other_is_an_involution(processor: Processor)
    ensures
        other_processor(other_processor(processor)) == processor,
        other_processor(processor) != processor,
{
}

/// Each processor takes payments and reports its health at its own address: the default
/// processor on port 8001, the fallback processor on port 8002.
pub proof fn law_addresses(processor: Processor)
    ensures
        processor is Default ==> base_url(processor) + PROCESS_PATH@
            == "http://localhost:8001/payments/process"@,
        processor is Fallback ==> base_url(processor) + PROCESS_PATH@
            == "http://localhost:8002/payments/process"@,
        processor is Default ==> base_url(processor) + HEALTH_PATH@
            == "http://localhost:8001/payments/service-health"@,
        processor is Fallback ==> base_url(processor) + HEALTH_PATH@
            == "http://localhost:8002/payments/service-health"@,
{
    reveal_strlit("http://localhost:8001");
    reveal_strlit("http://localhost:8002");
    reveal_strlit("/payments/process");
    reveal_strlit("/payments/service-health");
    reveal_strlit("http://localhost:8001/payments/process");
    reveal_strlit("http://localhost:8002/payments/process");
    reveal_strlit("http://localhost:8001/payments/service-health");
    reveal_strlit("http://localhost:8002/payments/service-health");
}

} // verus!
