//! Sandbox configuration: the immutable description of the execution engine's
//! limits, fixed when the engine is built.
//!
//! Part of the configuration must agree exactly with the configuration used
//! when a capsule binary was prepared for execution; the rest (stack sizes,
//! fuel) can vary between preparation and run time.

use vstd::prelude::*;

verus! {

/// Interpreter target: word width of the portable bytecode the capsule was
/// prepared for (both targets are little-endian).
#[derive(Debug, Clone, Copy, PartialEq, Eq, Structural)]
pub enum TargetTag {
    Word32,
    Word64,
}

impl TargetTag {
    /// Bytes in one target word.
    pub fn word_bytes(&self) -> (r: usize)
        ensures
            r == (if *self is Word32 {
                4usize
            } else {
                8usize
            }),
    {
        match self {
            TargetTag::Word32 => 4,
            TargetTag::Word64 => 8,
        }
    }
}

/// Limits and layout choices of the sandboxed execution engine.
///
/// The first group must conform with the preparation step of the binary; the
/// second can be changed without re-preparing the payload.
#[derive(Debug, Clone, Copy, PartialEq, Eq, Structural)]
pub struct RuntimeConfig {
    /// Target word width / endianness tag.
    pub target: TargetTag,
    /// Guest pages may be smaller than the default page size.
    pub custom_page_sizes: bool,
    /// Guest tables are initialised eagerly when false.
    pub table_lazy_init: bool,
    /// Bytes of linear memory reserved up front; 0 means the guest gets only
    /// what it asked for and growth reallocates.
    pub memory_reservation: u64,
    /// Initialise linear memory by copy-on-write mapping.
    pub memory_init_cow: bool,
    /// Linear memory may be moved to grow.
    pub memory_may_move: bool,
    /// Fuel metering is compiled into the prepared code.
    pub consume_fuel: bool,
    /// Maximum interpreter stack, in bytes.
    pub max_wasm_stack: usize,
    /// Extra reservation kept for later growth, in bytes.
    pub memory_reservation_for_growth: u64,
    /// Stack size of the asynchronous execution context, in bytes.
    pub async_stack_size: usize,
    /// Steps a capsule may execute before it traps with resource exhaustion.
    pub fuel_budget: u64,
    /// Fuel consumed between two forced returns of control to the host.
    pub fuel_yield_interval: u64,
}

/// The fields that must agree between the configuration a binary was prepared
/// with and the engine that loads it.
pub open spec fn prepare_compatible(a: RuntimeConfig, b: RuntimeConfig) -> bool {
    &&& a.target == b.target
    &&& a.custom_page_sizes == b.custom_page_sizes
    &&& a.table_lazy_init == b.table_lazy_init
    &&& a.memory_reservation == b.memory_reservation
    &&& a.memory_init_cow == b.memory_init_cow
    &&& a.memory_may_move == b.memory_may_move
    &&& a.consume_fuel == b.consume_fuel
}

impl RuntimeConfig {
    /// The engine configuration the device runs with: a 32-bit interpreted
    /// target, small fixed memory, no lazy initialisation, fuel metering on.
    pub fn device_defaults() -> (r: RuntimeConfig)
        ensures
            r == (RuntimeConfig {
                target: TargetTag::Word32,
                custom_page_sizes: true,
                table_lazy_init: false,
                memory_reservation: 0,
                memory_init_cow: false,
                memory_may_move: false,
                consume_fuel: true,
                max_wasm_stack: 2048,
                memory_reservation_for_growth: 0,
                async_stack_size: 4096,
                fuel_budget: 1_000_000,
                fuel_yield_interval: 10_000,
            }),
    {
        RuntimeConfig {
            target: TargetTag::Word32,
            custom_page_sizes: true,
            table_lazy_init: false,
            memory_reservation: 0,
            memory_init_cow: false,
            memory_may_move: false,
            consume_fuel: true,
            max_wasm_stack: 2048,
            memory_reservation_for_growth: 0,
            async_stack_size: 4096,
            fuel_budget: 1_000_000,
            fuel_yield_interval: 10_000,
        }
    }

    /// Whether a binary prepared under `prepared` may be loaded by an engine
    /// configured as `self`.
    pub fn matches_prepared(&self, prepared: &RuntimeConfig) -> (r: bool)
        ensures
            r == prepare_compatible(*prepared, *self),
    {
        self.target == prepared.target && self.custom_page_sizes == prepared.custom_page_sizes
            && self.table_lazy_init == prepared.table_lazy_init && self.memory_reservation
            == prepared.memory_reservation && self.memory_init_cow == prepared.memory_init_cow
            && self.memory_may_move == prepared.memory_may_move && self.consume_fuel
            == prepared.consume_fuel
    }
}

} // verus!
