//! Configuration of the debug messenger and the routine behind its callback.

use vstd::prelude::*;
use crate::vulkan::{
    category_general_bits, category_performance_bits, category_validation_bits,
    severity_error_bits, severity_info_bits, severity_verbose_bits, severity_warning_bits,
};

verus! {

/// How grave a diagnostic message is.
#[derive(Clone, Copy, Debug, PartialEq, Eq, Structural)]
pub enum Severity {
    Verbose,
    Info,
    Warning,
    Error,
}

/// What a diagnostic message is about.
#[derive(Clone, Copy, Debug, PartialEq, Eq, Structural)]
pub enum MessageCategory {
    General,
    Validation,
    Performance,
}

/// The bit that stands for `level` in a severity mask.
pub open spec fn severity_bit(level: Severity) -> u32 {
    match level {
        Severity::Verbose => 0x0001,
        Severity::Info => 0x0010,
        Severity::Warning => 0x0100,
        Severity::Error => 0x1000,
    }
}

/// The bit that stands for `category` in a category mask.
pub open spec fn category_bit(category: MessageCategory) -> u32 {
    match category {
        MessageCategory::General => 0x1,
        MessageCategory::Validation => 0x2,
        MessageCategory::Performance => 0x4,
    }
}

/// The level whose bit `bits` is, if it is the bit of one.
pub open spec fn severity_of_bits(bits: u32) -> Option<Severity> {
    if bits == 0x0001 {
        Some(Severity::Verbose)
    } else if bits == 0x0010 {
        Some(Severity::Info)
    } else if bits == 0x0100 {
        Some(Severity::Warning)
    } else if bits == 0x1000 {
        Some(Severity::Error)
    } else {
        None
    }
}

impl Severity {
    /// The bit that stands for this level in a severity mask.
    pub fn bit(self) -> (bits: u32)
        ensures
            bits == severity_bit(self),
    {
        match self {
            Severity::Verbose => severity_verbose_bits(),
            Severity::Info => severity_info_bits(),
            Severity::Warning => severity_warning_bits(),
            Severity::Error => severity_error_bits(),
        }
    }

    /// The level that `bits` stands for: `None` unless `bits` is exactly the
    /// bit of one level.
    pub fn from_bits(bits: u32) -> (level: Option<Severity>)
        ensures
            level == severity_of_bits(bits),
            level matches Some(l) ==> severity_bit(l) == bits,
            level is None ==> forall|l: Severity| severity_bit(l) != bits,
    {
        if bits == severity_verbose_bits() {
            Some(Severity::Verbose)
        } else if bits == severity_info_bits() {
            Some(Severity::Info)
        } else if bits == severity_warning_bits() {
            Some(Severity::Warning)
        } else if bits == severity_error_bits() {
            Some(Severity::Error)
        } else {
            None
        }
    }
}

impl MessageCategory {
    /// The bit that stands for this category in a category mask.
    pub fn bit(self) -> (bits: u32)
        ensures
            bits == category_bit(self),
    {
        match self {
            MessageCategory::General => category_general_bits(),
            MessageCategory::Validation => category_validation_bits(),
            MessageCategory::Performance => category_performance_bits(),
        }
    }
}

/// Which of the optional severities to capture. Warnings and errors are
/// always captured.
#[derive(Clone, Copy, Debug, PartialEq, Eq, Structural)]
pub struct DebugOptions {
    pub capture_verbose: bool,
    pub capture_info: bool,
}

/// The two masks of a [`DebugMessengerConfiguration`].
pub struct DebugMasks {
    pub severity: u32,
    pub category: u32,
}

/// The severities and categories that a debug messenger reports.
///
/// Every value of this type reports something: neither mask is zero. The
/// callback that receives the reports is [`observe`].
#[derive(Clone, Copy, Debug)]
pub struct DebugMessengerConfiguration {
    severity_mask: u32,
    category_mask: u32,
}

impl View for DebugMessengerConfiguration {
    type V = DebugMasks;

    closed spec fn view(&self) -> DebugMasks {
        DebugMasks { severity: self.severity_mask, category: self.category_mask }
    }
}

/// A pair of masks that reports at least one severity of at least one
/// category.
pub open spec fn reports_something(masks: DebugMasks) -> bool {
    masks.severity != 0 && masks.category != 0
}

/// The severity mask chosen by `options`: warnings and errors, and whichever
/// of the two lesser levels `options` asks for.
pub open spec fn selected_severities(options: DebugOptions) -> u32 {
    severity_bit(Severity::Warning) | severity_bit(Severity::Error) | (if options.capture_info {
        severity_bit(Severity::Info)
    } else {
        0u32
    }) | (if options.capture_verbose {
        severity_bit(Severity::Verbose)
    } else {
        0u32
    })
}

/// The category mask of every configuration that [`build_debug_config`]
/// makes: general, validation and performance messages.
pub open spec fn all_categories() -> u32 {
    category_bit(MessageCategory::General) | category_bit(MessageCategory::Validation)
        | category_bit(MessageCategory::Performance)
}

/// The masks of the configuration that [`build_debug_config`] makes for
/// `options`.
pub open spec fn debug_masks(options: DebugOptions) -> DebugMasks {
    DebugMasks { severity: selected_severities(options), category: all_categories() }
}

/// Whether `options` asks for messages of `level`: always for warnings and
/// errors, for the two lesser levels only where `options` says so.
pub open spec fn selects(options: DebugOptions, level: Severity) -> bool {
    match level {
        Severity::Verbose => options.capture_verbose,
        Severity::Info => options.capture_info,
        Severity::Warning => true,
        Severity::Error => true,
    }
}

proof fn lemma_mask_values()
    by (bit_vector)
    ensures
        0x0100u32 | 0x1000u32 | 0u32 | 0u32 == 0x1100u32,
        0x0100u32 | 0x1000u32 | 0x0010u32 | 0u32 == 0x1110u32,
        0x0100u32 | 0x1000u32 | 0u32 | 0x0001u32 == 0x1101u32,
        0x0100u32 | 0x1000u32 | 0x0010u32 | 0x0001u32 == 0x1111u32,
        0x1u32 | 0x2u32 | 0x4u32 == 0x7u32,
        0x1u32 & 0x7u32 != 0,
        0x2u32 & 0x7u32 != 0,
        0x4u32 & 0x7u32 != 0,
{
}

proof fn lemma_single_bit(bit: u32)
    by (bit_vector)
    requires
        bit == 0x0001 || bit == 0x0010 || bit == 0x0100 || bit == 0x1000,
    ensures
        (0x1100u32 & bit != 0) <==> (bit == 0x0100 || bit == 0x1000),
        (0x1110u32 & bit != 0) <==> bit != 0x0001,
        (0x1101u32 & bit != 0) <==> bit != 0x0010,
        0x1111u32 & bit != 0,
{
}

/// The masks chosen for `options` report something; they hold the bit of a
/// level exactly if `options` selects that level, and the bit of every
/// category.
pub proof fn lemma_debug_masks(options: DebugOptions)
    ensures
        reports_something(debug_masks(options)),
        debug_masks(options).severity == 0x1100 + (if options.capture_info {
            0x0010int
        } else {
            0
        }) + (if options.capture_verbose {
            0x0001int
        } else {
            0
        }),
        debug_masks(options).category == 0x7,
        forall|level: Severity|
            debug_masks(options).severity & #[trigger] severity_bit(level) != 0 <==> selects(
                options,
                level,
            ),
        forall|category: MessageCategory|
            debug_masks(options).category & #[trigger] category_bit(category) != 0,
{
    lemma_mask_values();
    assert forall|level: Severity|
        debug_masks(options).severity & #[trigger] severity_bit(level) != 0 <==> selects(
            options,
            level,
        ) by {
        lemma_single_bit(severity_bit(level));
    }
    assert forall|category: MessageCategory|
        debug_masks(options).category & #[trigger] category_bit(category) != 0 by {
        assert(0x7u32 & 0x1u32 != 0 && 0x7u32 & 0x2u32 != 0 && 0x7u32 & 0x4u32 != 0)
            by (bit_vector);
    }
}

impl DebugMessengerConfiguration {
    /// Neither mask is zero. This holds of every configuration.
    #[verifier::type_invariant]
    pub open spec fn reports(self) -> bool {
        reports_something(self@)
    }

    /// A configuration with the given masks, unless one of them is zero: a
    /// messenger that can report nothing is refused.
    pub fn new(severity_mask: u32, category_mask: u32) -> (made: Option<Self>)
        ensures
            made is Some <==> severity_mask != 0 && category_mask != 0,
            made matches Some(config) ==> config@ == (DebugMasks {
                severity: severity_mask,
                category: category_mask,
            }),
    {
        if severity_mask == 0 || category_mask == 0 {
            None
        } else {
            Some(DebugMessengerConfiguration { severity_mask, category_mask })
        }
    }

    /// The mask of the severities that are reported; never zero.
    pub fn severity_mask(&self) -> (mask: u32)
        ensures
            mask == self@.severity,
            mask != 0,
    {
        proof {
            use_type_invariant(self);
        }
        self.severity_mask
    }

    /// The mask of the categories that are reported; never zero.
    pub fn category_mask(&self) -> (mask: u32)
        ensures
            mask == self@.category,
            mask != 0,
    {
        proof {
            use_type_invariant(self);
        }
        self.category_mask
    }

    /// Whether messages of `level` are reported.
    pub fn captures(&self, level: Severity) -> (captured: bool)
        ensures
            captured == (self@.severity & severity_bit(level) != 0),
    {
        self.severity_mask & level.bit() != 0
    }

    /// Whether messages of `category` are reported.
    pub fn covers(&self, category: MessageCategory) -> (covered: bool)
        ensures
            covered == (self@.category & category_bit(category) != 0),
    {
        self.category_mask & category.bit() != 0
    }
}

/// Chooses what the debug messenger reports: warnings and errors always,
/// informational and verbose messages as `options` says, in all three
/// categories.
pub fn build_debug_config(options: DebugOptions) -> (config: DebugMessengerConfiguration)
    ensures
        config@ == debug_masks(options),
        reports_something(config@),
{
    let info: u32 = if options.capture_info {
        Severity::Info.bit()
    } else {
        0
    };
    let verbose: u32 = if options.capture_verbose {
        Severity::Verbose.bit()
    } else {
        0
    };
    let severity_mask: u32 = Severity::Warning.bit() | Severity::Error.bit() | info | verbose;
    let category_mask: u32 = MessageCategory::General.bit() | MessageCategory::Validation.bit()
        | MessageCategory::Performance.bit();
    proof {
        lemma_debug_masks(options);
    }
    DebugMessengerConfiguration { severity_mask, category_mask }
}

/// What the debug callback makes of one message.
#[derive(Debug)]
pub struct Observation {
    /// The level of the message, where its severity word is the bit of one.
    pub level: Option<Severity>,
    /// The category word of the message, as received.
    pub category: u32,
    /// The text of the message, as received.
    pub text: String,
    /// Whether the call that raised the message is to be aborted.
    pub abort_call: bool,
}

/// The routine behind the debug callback: it takes a message as the runtime
/// delivers it, decodes its severity, and hands everything on for the
/// caller's diagnostic sink. It only observes: the call that raised the
/// message is never aborted.
pub fn observe(severity: u32, category: u32, text: String) -> (seen: Observation)
    ensures
        seen.level == severity_of_bits(severity),
        seen.category == category,
        seen.text@ == text@,
        !seen.abort_call,
{
    Observation { level: Severity::from_bits(severity), category, text, abort_call: false }
}

} // verus!
