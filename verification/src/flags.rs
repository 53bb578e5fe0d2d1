//! Session configuration flags.
//!
//! Each option is one bit; a session is opened with a set of them, and
//! the numeric values must stay bit-compatible with the engine's own
//! flag constants.

use vstd::prelude::*;

verus! {

/// One session option. The engine assigns each a single bit (see
/// [`AugFlags::mask`]).
#[derive(Clone, Copy, PartialEq, Eq, Structural, Debug)]
pub enum AugFlags {
    /// No option at all; the empty mask.
    NoFlags,
    /// Keep the original file around with a backup extension on save.
    SaveBackup,
    /// Write changes to a side file instead of overwriting the
    /// original; takes precedence over `SaveBackup`.
    SaveNewfile,
    /// Typecheck lenses; expensive, so off by default.
    TypeCheck,
    /// Do not search the builtin load path for modules.
    NoStdinc,
    /// Make save a dry run: only record what would have changed.
    SaveNoop,
    /// Do not load the tree on session creation.
    NoLoad,
    /// Do not autoload modules from the search path.
    NoModlAutoload,
    /// Track the span of nodes in the input text.
    EnableSpan,
    /// Do not close the engine automatically on a creation error.
    NoErrClose,
    /// Trace module loading.
    TraceModuleLoading,
}

impl AugFlags {
    /// The engine's numeric value for this option.
    pub open spec fn spec_mask(self) -> u32 {
        match self {
            AugFlags::NoFlags => 0,
            AugFlags::SaveBackup => 1,
            AugFlags::SaveNewfile => 2,
            AugFlags::TypeCheck => 4,
            AugFlags::NoStdinc => 8,
            AugFlags::SaveNoop => 16,
            AugFlags::NoLoad => 32,
            AugFlags::NoModlAutoload => 64,
            AugFlags::EnableSpan => 128,
            AugFlags::NoErrClose => 256,
            AugFlags::TraceModuleLoading => 512,
        }
    }

    /// The engine's numeric value for this option.
    #[verifier::when_used_as_spec(spec_mask)]
    pub fn mask(self) -> (bits: u32)
        ensures
            bits == self.spec_mask(),
    {
        match self {
            AugFlags::NoFlags => 0,
            AugFlags::SaveBackup => 1,
            AugFlags::SaveNewfile => 2,
            AugFlags::TypeCheck => 4,
            AugFlags::NoStdinc => 8,
            AugFlags::SaveNoop => 16,
            AugFlags::NoLoad => 32,
            AugFlags::NoModlAutoload => 64,
            AugFlags::EnableSpan => 128,
            AugFlags::NoErrClose => 256,
            AugFlags::TraceModuleLoading => 512,
        }
    }
}

/// A set of session options, composed by bitwise or. The default is the
/// empty set.
#[derive(Clone, Copy, PartialEq, Eq, Structural, Debug)]
pub struct Flags {
    bits: u32,
}

impl Flags {
    /// The raw bitmask this set stands for.
    pub closed spec fn spec_bits(self) -> u32 {
        self.bits
    }

    /// The empty set: no option enabled.
    pub fn empty() -> (r: Flags)
        ensures
            r.spec_bits() == 0,
    {
        Flags { bits: 0 }
    }

    /// The set holding exactly one option.
    pub fn single(flag: AugFlags) -> (r: Flags)
        ensures
            r.spec_bits() == flag.spec_mask(),
    {
        Flags { bits: flag.mask() }
    }

    /// A set from a raw bitmask, bit-compatible with the engine.
    pub fn from_bits(bits: u32) -> (r: Flags)
        ensures
            r.spec_bits() == bits,
    {
        Flags { bits }
    }

    /// The raw bitmask, as handed to the engine on session creation.
    pub fn bits(self) -> (r: u32)
        ensures
            r == self.spec_bits(),
    {
        self.bits
    }

    /// The union of two sets.
    pub fn union(self, other: Flags) -> (r: Flags)
        ensures
            r.spec_bits() == self.spec_bits() | other.spec_bits(),
    {
        Flags { bits: self.bits | other.bits }
    }

    /// This set with one more option enabled.
    pub fn with(self, flag: AugFlags) -> (r: Flags)
        ensures
            r.spec_bits() == self.spec_bits() | flag.spec_mask(),
    {
        Flags { bits: self.bits | flag.mask() }
    }

    /// Whether every bit of `flag` is enabled in this set.
    pub fn contains(self, flag: AugFlags) -> (r: bool)
        ensures
            r == (self.spec_bits() & flag.spec_mask() == flag.spec_mask()),
    {
        self.bits & flag.mask() == flag.mask()
    }

    /// Whether no option is enabled.
    pub fn is_empty(self) -> (r: bool)
        ensures
            r == (self.spec_bits() == 0),
    {
        self.bits == 0
    }
}

impl Default for Flags {
    /// The default set is empty.
    fn default() -> (r: Flags)
        ensures
            r.spec_bits() == 0,
    {
        Flags { bits: 0 }
    }
}

} // verus!
